use std::path::Path;
use stream_cave::file_watcher::subscription_ids;
use stream_cave::supervisor::{
    Directive, Phase, RestartCode, Supervisor, CHANNEL_CAPACITY, RESTART_CAPACITY,
    SEARCH_CHANNEL_API, STREAMING_SITE, TOKEN_RECHECK_SECS, TWITCH_API_URL, TWITCH_WEBSOCKET_URL,
};
use stream_cave::{Settings, StreamConfig, Streams};

fn schedule() -> Streams {
    Streams::from_configs(vec![
        StreamConfig {
            name: String::from("kaicenat"),
            id: 641_972_806,
            quality_overides: vec![(String::from("normal"), 480)],
            streams_to_close_on: Vec::new(),
            streams_to_open_on: Vec::new(),
        },
        StreamConfig {
            name: String::from("jynxzi"),
            id: 411_377_640,
            quality_overides: Vec::new(),
            streams_to_close_on: Vec::new(),
            streams_to_open_on: Vec::new(),
        },
    ])
}

fn running() -> Supervisor<String> {
    let (mut supervisor, _) = Supervisor::new(Settings::new(Path::new("./")), schedule());
    supervisor.token_validated(String::from("secret"));
    supervisor
}

#[test]
fn the_constants_are_those_of_the_pipeline() {
    assert_eq!(CHANNEL_CAPACITY, 10);
    assert_eq!(RESTART_CAPACITY, 1);
    assert_eq!(TOKEN_RECHECK_SECS, 60);
    assert_eq!(TWITCH_WEBSOCKET_URL, "wss://eventsub.wss.twitch.tv/ws");
    assert_eq!(TWITCH_API_URL, "https://api.twitch.tv/helix/eventsub/subscriptions");
    assert_eq!(STREAMING_SITE, "https://www.twitch.tv/");
    assert_eq!(SEARCH_CHANNEL_API, "https://api.twitch.tv/helix/search/channels");
}

#[test]
fn restart_codes_are_one_and_two() {
    assert_eq!(RestartCode::Transient.code(), 1);
    assert_eq!(RestartCode::CredentialFault.code(), 2);
    assert_eq!(RestartCode::from_code(1), Some(RestartCode::Transient));
    assert_eq!(RestartCode::from_code(2), Some(RestartCode::CredentialFault));
    for code in 0..=u8::MAX {
        match RestartCode::from_code(code) {
            Some(restart) => assert_eq!(restart.code(), code),
            None => assert!(code != 1 && code != 2),
        }
    }
}

#[test]
fn a_supervisor_starts_by_validating_a_token() {
    let (supervisor, directive) =
        Supervisor::<String>::new(Settings::new(Path::new("./")), schedule());
    assert_eq!(directive, Directive::ValidateToken);
    assert_eq!(supervisor.phase(), Phase::AwaitingToken);
    assert_eq!(supervisor.token(), None);
    assert_eq!(supervisor.streams().len(), 2);
    assert_eq!(supervisor.settings().profile, (String::from("normal"), 1080));
}

#[test]
fn a_failed_validation_is_tried_again_after_a_minute() {
    let (supervisor, _) = Supervisor::<String>::new(Settings::new(Path::new("./")), schedule());
    assert_eq!(supervisor.token_rejected(), Directive::RecheckToken { after_secs: 60 });
    assert_eq!(supervisor.phase(), Phase::AwaitingToken);
    assert_eq!(supervisor.token(), None);
}

#[test]
fn a_valid_token_launches_the_actors() {
    let (mut supervisor, _) = Supervisor::new(Settings::new(Path::new("./")), schedule());
    assert_eq!(supervisor.token_validated(String::from("secret")), Directive::LaunchActors { channel_capacity: 10, restart_capacity: 1 });
    assert_eq!(supervisor.phase(), Phase::Running);
    assert_eq!(supervisor.token(), Some(&String::from("secret")));
}

#[test]
fn a_transient_fault_rebuilds_the_group_with_the_same_token_and_schedule() {
    let mut supervisor = running();
    let before = subscription_ids(supervisor.streams());
    for _ in 0..3 {
        assert_eq!(supervisor.restart_signal(Some(1)), Directive::LaunchActors { channel_capacity: 10, restart_capacity: 1 });
        assert_eq!(supervisor.phase(), Phase::Running);
        assert_eq!(supervisor.token(), Some(&String::from("secret")));
        assert_eq!(subscription_ids(supervisor.streams()), before);
    }
    assert_eq!(before, vec![641_972_806, 411_377_640]);
}

#[test]
fn a_credential_fault_drops_the_token() {
    let mut supervisor = running();
    assert_eq!(supervisor.restart_signal(Some(2)), Directive::ValidateToken);
    assert_eq!(supervisor.phase(), Phase::AwaitingToken);
    assert_eq!(supervisor.token(), None);
    assert_eq!(supervisor.streams().len(), 2);
    assert_eq!(supervisor.token_validated(String::from("fresh")), Directive::LaunchActors { channel_capacity: 10, restart_capacity: 1 });
    assert_eq!(supervisor.token(), Some(&String::from("fresh")));
}

#[test]
fn an_unknown_code_changes_nothing() {
    let mut supervisor = running();
    for code in [0u8, 3, 4, 100, 255] {
        assert_eq!(supervisor.restart_signal(Some(code)), Directive::KeepWaiting);
        assert_eq!(supervisor.phase(), Phase::Running);
        assert_eq!(supervisor.token(), Some(&String::from("secret")));
    }
}

#[test]
fn a_closed_restart_channel_ends_the_program() {
    let mut supervisor = running();
    assert_eq!(supervisor.restart_signal(None), Directive::Shutdown);
    assert_eq!(supervisor.phase(), Phase::Stopped);
    assert_eq!(supervisor.token(), None);
}
