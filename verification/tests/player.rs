use stream_cave::player::{quality_from_word, stream_url, PlayerCommand, DEFAULT_QUALITY};
use stream_cave::tasks_handler::task_spawner;
use stream_cave::{get_stream, Player};

fn command(program: &str, args: &[&str]) -> PlayerCommand {
    PlayerCommand {
        program: program.to_string(),
        args: args.iter().map(|arg| arg.to_string()).collect(),
    }
}

#[test]
fn player_play_mpv() {
    let video = String::from("file://./tests/resources/video.mkv");
    let mpv = get_stream(Player::Mpv, video, 1080);
    assert_eq!(
        mpv,
        command(
            "mpv",
            &[
                "file://./tests/resources/video.mkv",
                "--no-resume-playback",
                "--ytdl-format=best[height<=?1080]",
            ],
        )
    );
}

#[test]
fn tasks_handler_spawn_task() {
    let spawned = task_spawner(Player::Mpv, "tests/resources/", "video.mkv", 1080);
    assert_eq!(
        spawned,
        command(
            "mpv",
            &["tests/resources/video.mkv", "--no-resume-playback", "--ytdl-format=best[height<=?1080]"],
        )
    );
}

#[test]
fn mpv_plays_audio_alone_at_quality_zero() {
    let stream = String::from("https://www.twitch.tv/jynxzi");
    assert_eq!(
        get_stream(Player::Mpv, stream, 0),
        command(
            "mpv",
            &["https://www.twitch.tv/jynxzi", "--no-resume-playback", "--ytdl-format=bestaudio"],
        )
    );
}

#[test]
fn streamlink_takes_the_height_with_a_p() {
    let stream = String::from("https://www.twitch.tv/jynxzi");
    assert_eq!(
        get_stream(Player::Streamlink, stream.clone(), 720),
        command("streamlink", &["https://www.twitch.tv/jynxzi", "720p"])
    );
    assert_eq!(
        get_stream(Player::Streamlink, stream.clone(), 1),
        command("streamlink", &["https://www.twitch.tv/jynxzi", "1p"])
    );
    assert_eq!(
        get_stream(Player::Streamlink, stream, 65535),
        command("streamlink", &["https://www.twitch.tv/jynxzi", "65535p"])
    );
}

#[test]
fn streamlink_plays_audio_alone_at_quality_zero() {
    let stream = String::from("https://www.twitch.tv/jynxzi");
    assert_eq!(
        get_stream(Player::Streamlink, stream, 0),
        command("streamlink", &["https://www.twitch.tv/jynxzi", "audio_only"])
    );
}

#[test]
fn the_address_of_a_stream_is_the_site_and_the_login() {
    assert_eq!(stream_url("https://www.twitch.tv/", "kaicenat"), "https://www.twitch.tv/kaicenat");
    assert_eq!(stream_url("", ""), "");
    assert_eq!(
        task_spawner(Player::Streamlink, "https://www.twitch.tv/", "kaicenat", 480),
        command("streamlink", &["https://www.twitch.tv/kaicenat", "480p"])
    );
}

#[test]
fn the_quality_asked_for_by_hand() {
    assert_eq!(DEFAULT_QUALITY, 1080);
    assert_eq!(quality_from_word(None), Some(1080));
    assert_eq!(quality_from_word(Some("720")), Some(720));
    assert_eq!(quality_from_word(Some("0")), Some(0));
    assert_eq!(quality_from_word(Some("+480")), Some(480));
    assert_eq!(quality_from_word(Some("audio")), Some(0));
    assert_eq!(quality_from_word(Some("Audio")), None);
    assert_eq!(quality_from_word(Some("audio ")), None);
    assert_eq!(quality_from_word(Some("")), None);
    assert_eq!(quality_from_word(Some("70000")), None);
    assert_eq!(quality_from_word(Some("best")), None);
}
