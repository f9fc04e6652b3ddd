use stream_cave::backoff::sleep_schedule;
use stream_cave::request::{ApiRequest, Method};
use stream_cave::supervisor::RestartCode;
use stream_cave::tasks_handler::{Awaiting, DropReason, ExitHandler, ExitStep, PlayerExit};
use stream_cave::twitch_socket::api_structs::{SearchData, StreamSearch};

fn channel(login: &str, is_live: bool) -> SearchData {
    SearchData {
        broadcaster_language: String::from("en"),
        broadcaster_login: login.to_string(),
        display_name: login.to_string(),
        game_id: String::from("509658"),
        game_name: String::from("Just Chatting"),
        id: String::from("96359538"),
        tag_ids: None,
        tags: vec![String::from("English")],
        is_live,
        thumbnail_url: String::new(),
        title: String::new(),
        started_at: String::new(),
    }
}

fn search(channels: Vec<SearchData>) -> StreamSearch {
    StreamSearch { data: channels, pagination: None }
}

#[test]
fn tasks_handler_handle_good_exit() {
    let mut handler = ExitHandler::new();
    let step = handler.on_exit(String::from("fishermarston19"), PlayerExit::Success, true);
    assert_eq!(step, ExitStep::Drop { reason: DropReason::CleanExit });
    assert!(handler.is_idle());
}

#[test]
fn tasks_handler_handle_bad_exit() {
    let mut handler = ExitHandler::new();
    let step = handler.on_exit(String::from("fishermarston19"), PlayerExit::Failure, true);
    assert_eq!(step, ExitStep::Search);
    assert_eq!(handler.on_status(200), ExitStep::ReadResults);
    let results = search(vec![channel("fishermarston19", true)]);
    let step = handler.on_results(Some(&results));
    assert_eq!(step, ExitStep::Retry { login: String::from("fishermarston19") });
    assert!(handler.is_idle());
}

#[test]
fn tasks_handler_handle_bad_exit_stream_ended() {
    let mut handler = ExitHandler::new();
    let step = handler.on_exit(String::from("gordongordon358"), PlayerExit::Failure, true);
    assert_eq!(step, ExitStep::Search);
    assert_eq!(handler.on_status(200), ExitStep::ReadResults);
    let results = search(vec![channel("gordongordon358", false)]);
    let step = handler.on_results(Some(&results));
    assert_eq!(step, ExitStep::Drop { reason: DropReason::Offline });
    assert!(handler.is_idle());
}

#[test]
fn tasks_handler_handle_no_internet_exit() {
    let mut handler = ExitHandler::new();
    let step = handler.on_exit(String::from("fishermarston19"), PlayerExit::Failure, true);
    assert_eq!(step, ExitStep::Search);
    let mut slept = Vec::new();
    for _ in 0..10 {
        match handler.on_network_error() {
            ExitStep::Sleep { secs } => slept.push(secs),
            other => panic!("unexpected step {other:?}"),
        }
        assert!(!handler.is_idle());
        assert_eq!(handler.awaiting(), Some(Awaiting::Status));
    }
    assert_eq!(slept, vec![2, 4, 8, 16, 32, 64, 128, 180, 180, 180]);
    assert_eq!(slept, sleep_schedule(10));
}

#[test]
fn a_player_that_did_not_start_is_not_looked_into() {
    let mut handler = ExitHandler::new();
    let step = handler.on_exit(String::from("kaicenat"), PlayerExit::SpawnError, true);
    assert_eq!(step, ExitStep::Drop { reason: DropReason::SpawnError });
    assert!(handler.is_idle());
    let step = handler.on_exit(String::from("kaicenat"), PlayerExit::SpawnError, false);
    assert_eq!(step, ExitStep::Drop { reason: DropReason::SpawnError });
}

#[test]
fn without_a_token_nothing_is_asked() {
    let mut handler = ExitHandler::new();
    let step = handler.on_exit(String::from("kaicenat"), PlayerExit::Failure, false);
    assert_eq!(step, ExitStep::Drop { reason: DropReason::NoToken });
    assert!(handler.is_idle());
    let step = handler.on_exit(String::from("kaicenat"), PlayerExit::Success, false);
    assert_eq!(step, ExitStep::Drop { reason: DropReason::NoToken });
    assert_eq!(handler.awaiting(), None);
}

#[test]
fn the_search_is_a_get_with_the_login_as_query() {
    let mut handler = ExitHandler::new();
    handler.on_exit(String::from("fishermarston19"), PlayerExit::Failure, true);
    let request: ApiRequest =
        handler.request("https://api.twitch.tv/helix/search/channels", "secret", "client");
    assert_eq!(request.method, Method::Get);
    assert_eq!(request.url, "https://api.twitch.tv/helix/search/channels");
    assert_eq!(request.query, vec![(String::from("query"), String::from("fishermarston19"))]);
    assert_eq!(request.bearer, "secret");
    assert_eq!(request.client_id, "client");
    assert!(request.json.is_none());
    assert_eq!(
        request.headers(),
        vec![
            (String::from("Authorization"), String::from("Bearer secret")),
            (String::from("Client-Id"), String::from("client")),
        ]
    );
}

#[test]
fn a_refused_token_raises_the_credential_fault() {
    let mut handler = ExitHandler::new();
    handler.on_exit(String::from("kaicenat"), PlayerExit::Failure, true);
    assert_eq!(handler.on_status(401), ExitStep::Restart { code: RestartCode::CredentialFault });
    assert!(handler.is_idle());
}

#[test]
fn any_other_status_ends_the_matter() {
    for status in [0u16, 199, 201, 202, 400, 404, 429, 500, 503, u16::MAX] {
        let mut handler = ExitHandler::new();
        handler.on_exit(String::from("kaicenat"), PlayerExit::Failure, true);
        assert_eq!(
            handler.on_status(status),
            ExitStep::Drop { reason: DropReason::Unexpected { status } }
        );
        assert!(handler.is_idle());
    }
}

#[test]
fn a_body_that_cannot_be_read_ends_the_matter() {
    let mut handler = ExitHandler::new();
    handler.on_exit(String::from("kaicenat"), PlayerExit::Failure, true);
    assert_eq!(handler.on_status(200), ExitStep::ReadResults);
    assert_eq!(handler.awaiting(), Some(Awaiting::Results));
    assert_eq!(handler.on_results(None), ExitStep::Drop { reason: DropReason::Malformed });
    assert!(handler.is_idle());
}

#[test]
fn only_the_exact_login_counts_and_the_first_channel_of_it() {
    let results = search(vec![
        channel("kaicenat2", true),
        channel("KaiCenat", true),
        channel("kaicenat", false),
        channel("kaicenat", true),
    ]);
    let mut handler = ExitHandler::new();
    handler.on_exit(String::from("kaicenat"), PlayerExit::Failure, true);
    handler.on_status(200);
    assert_eq!(handler.on_results(Some(&results)), ExitStep::Drop { reason: DropReason::Offline });

    handler.on_exit(String::from("kaicenat2"), PlayerExit::Failure, true);
    handler.on_status(200);
    assert_eq!(
        handler.on_results(Some(&results)),
        ExitStep::Retry { login: String::from("kaicenat2") }
    );

    handler.on_exit(String::from("nobody"), PlayerExit::Failure, true);
    handler.on_status(200);
    assert_eq!(handler.on_results(Some(&results)), ExitStep::Drop { reason: DropReason::NotFound });
    handler.on_exit(String::from("nobody"), PlayerExit::Failure, true);
    handler.on_status(200);
    assert_eq!(
        handler.on_results(Some(&search(Vec::new()))),
        ExitStep::Drop { reason: DropReason::NotFound }
    );
}

#[test]
fn a_live_stream_is_played_again_however_many_requests_fail() {
    for failures in [0usize, 1, 7, 12] {
        let mut handler = ExitHandler::new();
        assert_eq!(
            handler.on_exit(String::from("fishermarston19"), PlayerExit::Failure, true),
            ExitStep::Search
        );
        let mut slept = Vec::new();
        for _ in 0..failures {
            match handler.on_network_error() {
                ExitStep::Sleep { secs } => slept.push(secs),
                other => panic!("unexpected step {other:?}"),
            }
        }
        assert_eq!(slept, sleep_schedule(failures));
        assert_eq!(handler.on_status(200), ExitStep::ReadResults);
        let results = search(vec![channel("other", false), channel("fishermarston19", true)]);
        assert_eq!(
            handler.on_results(Some(&results)),
            ExitStep::Retry { login: String::from("fishermarston19") }
        );
        assert!(handler.is_idle());
    }
}

#[test]
fn each_diagnosis_starts_its_backoff_anew() {
    let mut handler = ExitHandler::new();
    handler.on_exit(String::from("kaicenat"), PlayerExit::Failure, true);
    assert_eq!(handler.on_network_error(), ExitStep::Sleep { secs: 2 });
    assert_eq!(handler.on_network_error(), ExitStep::Sleep { secs: 4 });
    assert_eq!(handler.on_status(500), ExitStep::Drop { reason: DropReason::Unexpected { status: 500 } });
    handler.on_exit(String::from("jynxzi"), PlayerExit::Failure, true);
    assert_eq!(handler.on_network_error(), ExitStep::Sleep { secs: 2 });
}

#[test]
fn one_exit_is_looked_into_at_a_time() {
    let mut handler = ExitHandler::new();
    assert!(handler.is_idle());
    handler.on_exit(String::from("kaicenat"), PlayerExit::Failure, true);
    assert!(!handler.is_idle());
    handler.on_network_error();
    assert!(!handler.is_idle());
    let request = handler.request("url", "token", "client");
    assert_eq!(request.query, vec![(String::from("query"), String::from("kaicenat"))]);
    handler.on_status(200);
    assert!(!handler.is_idle());
    handler.on_results(None);
    assert!(handler.is_idle());
}
