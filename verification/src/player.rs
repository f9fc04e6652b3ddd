//! The command line that plays a stream.

use crate::cave::Player;
use crate::text::{decimal, decimal_digits, parse_u16, parse_unsigned};
use vstd::prelude::*;
use vstd::string::*;

verus! {

/// A program and the arguments to start it with.
#[derive(Debug, PartialEq, Eq)]
pub struct PlayerCommand {
    pub program: String,
    pub args: Vec<String>,
}

/// What a [`PlayerCommand`] holds, as plain mathematical values.
pub struct PlayerCommandView {
    pub program: Seq<char>,
    pub args: Seq<Seq<char>>,
}

impl View for PlayerCommand {
    type V = PlayerCommandView;

    open spec fn view(&self) -> PlayerCommandView {
        PlayerCommandView { program: self.program@, args: self.args.deep_view() }
    }
}

/// The argument that tells mpv which format to ask for: the best audio where
/// `quality` is 0, else the best video of at most `quality` lines.
pub open spec fn mpv_format(quality: u16) -> Seq<char> {
    if quality == 0 {
        "--ytdl-format=bestaudio"@
    } else {
        "--ytdl-format=best[height<=?"@ + decimal_digits(quality as nat) + "]"@
    }
}

/// The argument that tells streamlink which stream to take: audio only where
/// `quality` is 0, else the one of `quality` lines.
pub open spec fn streamlink_quality(quality: u16) -> Seq<char> {
    if quality == 0 {
        "audio_only"@
    } else {
        decimal_digits(quality as nat) + "p"@
    }
}

/// The command that plays the stream at the address `stream` with `player`.
/// A `quality` of 0 stands for audio only, any other for the largest height
/// of the video in lines.
pub open spec fn player_command(player: Player, stream: Seq<char>, quality: u16)
    -> PlayerCommandView {
    match player {
        Player::Mpv => PlayerCommandView {
            program: "mpv"@,
            args: seq![stream, "--no-resume-playback"@, mpv_format(quality)],
        },
        Player::Streamlink => PlayerCommandView {
            program: "streamlink"@,
            args: seq![stream, streamlink_quality(quality)],
        },
    }
}

/// The quality that is used where none is asked for.
pub const DEFAULT_QUALITY: u16 = 1080;

/// The quality that a word on the command line asks for: 1080 where there is
/// no word, the number where the word is one that fits sixteen bits, 0 for the
/// word `audio`, and `None` for any other word.
pub open spec fn quality_of_word(word: Option<Seq<char>>) -> Option<u16> {
    match word {
        None => Some(DEFAULT_QUALITY),
        Some(text) => match parse_unsigned(text, 0xffff) {
            Ok(number) => Some(number as u16),
            Err(_) => if text == "audio"@ {
                Some(0u16)
            } else {
                None
            },
        },
    }
}

/// Reads the quality that is asked for on the command line.
pub fn quality_from_word(word: Option<&str>) -> (quality: Option<u16>)
    ensures
        quality == quality_of_word(
            match word {
                Some(text) => Some(text@),
                None => None,
            },
        ),
{
    match word {
        None => Some(DEFAULT_QUALITY),
        Some(text) => match parse_u16(text) {
            Ok(number) => Some(number),
            Err(_) => {
                let audio = String::from_str("audio");
                let given = String::from_str(text);
                if given == audio {
                    Some(0)
                } else {
                    None
                }
            },
        },
    }
}

/// The address of the stream of `login` on the site `website`.
pub fn stream_url(website: &str, login: &str) -> (url: String)
    ensures
        url@ == website@ + login@,
{
    let mut url = String::from_str(website);
    url.append(login);
    url
}

/// The command that plays the given stream.
pub fn get_stream(player: Player, stream: String, quality: u16) -> (command: PlayerCommand)
    ensures
        command@ == player_command(player, stream@, quality),
{
    let ghost address = stream@;
    let mut args: Vec<String> = Vec::new();
    args.push(stream);
    let program = match player {
        Player::Mpv => {
            args.push(String::from_str("--no-resume-playback"));
            if quality == 0 {
                args.push(String::from_str("--ytdl-format=bestaudio"));
            } else {
                let mut format = String::from_str("--ytdl-format=best[height<=?");
                format.append(decimal(quality as u64).as_str());
                format.append("]");
                args.push(format);
            }
            String::from_str("mpv")
        },
        Player::Streamlink => {
            if quality == 0 {
                args.push(String::from_str("audio_only"));
            } else {
                let mut height = decimal(quality as u64);
                height.append("p");
                args.push(height);
            }
            String::from_str("streamlink")
        },
    };
    let command = PlayerCommand { program, args };
    assert(command@.args =~= player_command(player, address, quality).args);
    command
}

} // verus!
