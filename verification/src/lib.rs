//! Decision logic of a daemon that watches Twitch broadcasters and plays
//! their streams in an external player.
//!
//! Five actors work together: the scheduler loader ([`file_watcher`]) seeds
//! the others from the schedule, the WebSocket session ([`twitch_socket`])
//! learns who goes live, the event handler ([`event_handler`]) turns that
//! into play requests, the task spawner ([`tasks_handler`]) starts players,
//! and the exit handler (also [`tasks_handler`]) finds out whether a player
//! that ended badly is to be started again. The [`supervisor`] launches and
//! relaunches them. Everything here decides and nothing here waits: the
//! program around the library does the waiting, the sending and the
//! spawning.

pub mod authentication;
pub mod backoff;
pub mod cave;
pub mod event_handler;
pub mod file_watcher;
pub mod lookup;
pub mod player;
pub mod request;
pub mod supervisor;
pub mod tasks_handler;
pub mod text;
pub mod twitch_socket;

pub use crate::authentication::create_oauth_token;
pub use crate::cave::Player;
pub use crate::cave::Settings;
pub use crate::cave::StreamConfig;
pub use crate::cave::Streams;
pub use crate::cave::UserData;
pub use crate::player::get_stream;
