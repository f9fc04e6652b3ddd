//! The supervisor: it holds the token, launches the five actors only while it
//! has one, and tears the group down and rebuilds it on a restart signal.
//!
//! The supervisor decides; the program around it validates tokens, builds the
//! channels, spawns the actors and waits. Each method takes what has happened
//! and returns what to do next.

use crate::cave::{Settings, StreamConfigView, Streams};
use crate::file_watcher::{broadcaster_ids, seeds_of};
use crate::twitch_socket::subscriptions_of;
use vstd::prelude::*;

verus! {

/// How many messages each channel between two actors holds.
pub const CHANNEL_CAPACITY: usize = 10;

/// How many restart signals can wait for the supervisor.
pub const RESTART_CAPACITY: usize = 1;

/// Seconds between two attempts to get a valid token.
pub const TOKEN_RECHECK_SECS: u64 = 60;

/// Where the EventSub WebSocket is dialled.
pub const TWITCH_WEBSOCKET_URL: &'static str = "wss://eventsub.wss.twitch.tv/ws";

/// Where subscriptions are posted.
pub const TWITCH_API_URL: &'static str = "https://api.twitch.tv/helix/eventsub/subscriptions";

/// What a login is appended to, to get the address that the player opens.
pub const STREAMING_SITE: &'static str = "https://www.twitch.tv/";

/// Where channels are searched.
pub const SEARCH_CHANNEL_API: &'static str = "https://api.twitch.tv/helix/search/channels";

/// Why an actor asks the supervisor to rebuild the group.
#[derive(Clone, Copy, Debug, PartialEq, Eq, Structural)]
pub enum RestartCode {
    /// A connection was lost or went idle; the token is still good.
    Transient,
    /// Twitch no longer takes the token.
    CredentialFault,
}

impl RestartCode {
    /// The number that stands for this code on the restart channel.
    pub open spec fn spec_code(self) -> u8 {
        match self {
            RestartCode::Transient => 1,
            RestartCode::CredentialFault => 2,
        }
    }

    /// The code that a number on the restart channel stands for, if any.
    pub open spec fn spec_from_code(code: u8) -> Option<RestartCode> {
        if code == 1 {
            Some(RestartCode::Transient)
        } else if code == 2 {
            Some(RestartCode::CredentialFault)
        } else {
            None
        }
    }

    /// The number that stands for this code on the restart channel: 1 for a
    /// transient fault, 2 for a credential fault.
    #[verifier::when_used_as_spec(spec_code)]
    pub fn code(self) -> (code: u8)
        ensures
            code == self.spec_code(),
            RestartCode::spec_from_code(code) == Some(self),
    {
        match self {
            RestartCode::Transient => 1,
            RestartCode::CredentialFault => 2,
        }
    }

    /// Reads a number taken from the restart channel. Any number other than 1
    /// and 2 is no code.
    pub fn from_code(code: u8) -> (read: Option<RestartCode>)
        ensures
            read == RestartCode::spec_from_code(code),
            read matches Some(restart) ==> restart.spec_code() == code,
    {
        if code == 1 {
            Some(RestartCode::Transient)
        } else if code == 2 {
            Some(RestartCode::CredentialFault)
        } else {
            None
        }
    }
}

/// Where the supervisor stands in its loop.
#[derive(Clone, Copy, Debug, PartialEq, Eq, Structural)]
pub enum Phase {
    /// It has no token and no actors, and is getting a token validated.
    AwaitingToken,
    /// It has a token and the five actors run.
    Running,
    /// The restart channel was closed; nothing runs any more.
    Stopped,
}

/// What the program is to do next.
#[derive(Clone, Copy, Debug, PartialEq, Eq, Structural)]
pub enum Directive {
    /// Read the stored token and have Twitch validate it.
    ValidateToken,
    /// Sleep for so many seconds, then validate again.
    RecheckToken { after_secs: u64 },
    /// Drop the channels of the running group, if there is one, build new
    /// ones and launch the five actors with the token held. Each channel
    /// between two actors holds `channel_capacity` messages, and the restart
    /// channel `restart_capacity`.
    LaunchActors { channel_capacity: usize, restart_capacity: usize },
    /// The signal was no known code: report it and wait for the next one.
    KeepWaiting,
    /// End the program cleanly.
    Shutdown,
}

/// The directive that launches the actors, with the capacities of the
/// pipeline: [`CHANNEL_CAPACITY`] between actors and [`RESTART_CAPACITY`]
/// for restart signals.
pub open spec fn launch() -> Directive {
    Directive::LaunchActors {
        channel_capacity: CHANNEL_CAPACITY,
        restart_capacity: RESTART_CAPACITY,
    }
}

/// The state of the supervisor, as plain mathematical values.
pub struct SupervisorView<T> {
    pub phase: Phase,
    pub token: Option<T>,
    pub settings: Settings,
    pub schedule: Seq<StreamConfigView>,
}

/// The supervisor's state: the settings and the schedule that it was started
/// with, the token, and the phase.
pub struct Supervisor<T> {
    settings: Settings,
    streams: Streams,
    token: Option<T>,
    stopped: bool,
}

/// The state after a valid token has come and what to do then: keep it and
/// launch the actors.
pub open spec fn after_token<T>(state: SupervisorView<T>, token: T) -> (
    SupervisorView<T>,
    Directive,
) {
    (SupervisorView { phase: Phase::Running, token: Some(token), ..state }, launch())
}

/// The state after an attempt to get a token has failed and what to do then:
/// nothing changes, and the next attempt follows after a minute.
pub open spec fn after_rejection<T>(state: SupervisorView<T>) -> (SupervisorView<T>, Directive) {
    (state, Directive::RecheckToken { after_secs: TOKEN_RECHECK_SECS })
}

/// The state after the restart channel has given `signal` (`None`: it was
/// closed) and what to do then.
pub open spec fn after_signal<T>(state: SupervisorView<T>, signal: Option<u8>) -> (
    SupervisorView<T>,
    Directive,
) {
    match signal {
        None => (
            SupervisorView { phase: Phase::Stopped, token: None, ..state },
            Directive::Shutdown,
        ),
        Some(code) => match RestartCode::spec_from_code(code) {
            Some(RestartCode::Transient) => (state, launch()),
            Some(RestartCode::CredentialFault) => (
                SupervisorView { phase: Phase::AwaitingToken, token: None, ..state },
                Directive::ValidateToken,
            ),
            None => (state, Directive::KeepWaiting),
        },
    }
}

impl<T> View for Supervisor<T> {
    type V = SupervisorView<T>;

    closed spec fn view(&self) -> SupervisorView<T> {
        SupervisorView {
            phase: if self.stopped {
                Phase::Stopped
            } else if self.token.is_some() {
                Phase::Running
            } else {
                Phase::AwaitingToken
            },
            token: self.token,
            settings: self.settings,
            schedule: self.streams@,
        }
    }
}

impl<T> Supervisor<T> {
    /// A supervisor that has stopped holds no token, so that a token is held
    /// exactly while the actors run.
    #[verifier::type_invariant]
    spec fn gated(&self) -> bool {
        self.stopped ==> self.token.is_none()
    }

    /// A supervisor that has no token yet. The first thing to do is to
    /// validate one.
    pub fn new(settings: Settings, streams: Streams) -> (started: (Self, Directive))
        ensures
            started.0@ == (SupervisorView::<T> {
                phase: Phase::AwaitingToken,
                token: None,
                settings: settings,
                schedule: streams@,
            }),
            started.1 == Directive::ValidateToken,
    {
        (
            Supervisor { settings, streams, token: None, stopped: false },
            Directive::ValidateToken,
        )
    }

    /// Where the supervisor stands.
    pub fn phase(&self) -> (phase: Phase)
        ensures
            phase == self@.phase,
            (phase == Phase::Running) == self@.token.is_some(),
    {
        proof {
            use_type_invariant(self);
        }
        if self.stopped {
            Phase::Stopped
        } else if self.token.is_some() {
            Phase::Running
        } else {
            Phase::AwaitingToken
        }
    }

    /// The token that the actors share, while they run.
    pub fn token(&self) -> (token: Option<&T>)
        ensures
            token.is_some() == (self@.phase == Phase::Running),
            token matches Some(held) ==> self@.token == Some(*held),
    {
        proof {
            use_type_invariant(self);
        }
        self.token.as_ref()
    }

    /// The settings that the supervisor was started with.
    pub fn settings(&self) -> (settings: &Settings)
        ensures
            *settings == self@.settings,
    {
        &self.settings
    }

    /// The schedule that every group of actors is seeded from.
    pub fn streams(&self) -> (streams: &Streams)
        ensures
            streams@ == self@.schedule,
    {
        &self.streams
    }

    /// Twitch has validated `token`: the supervisor keeps it and the actors
    /// are to be launched.
    pub fn token_validated(&mut self, token: T) -> (directive: Directive)
        requires
            old(self)@.phase == Phase::AwaitingToken,
        ensures
            (final(self)@, directive) == after_token(old(self)@, token),
    {
        self.token = Some(token);
        Directive::LaunchActors {
            channel_capacity: CHANNEL_CAPACITY,
            restart_capacity: RESTART_CAPACITY,
        }
    }

    /// No valid token could be had this time: the supervisor stays as it is
    /// and asks for another attempt after a minute.
    pub fn token_rejected(&self) -> (directive: Directive)
        requires
            self@.phase == Phase::AwaitingToken,
        ensures
            (self@, directive) == after_rejection(self@),
    {
        Directive::RecheckToken { after_secs: TOKEN_RECHECK_SECS }
    }

    /// The restart channel has given `signal`, or was closed (`None`).
    ///
    /// Code 1 rebuilds the group and keeps the token. Code 2 drops the token
    /// and goes back to validating one. Any other number changes nothing and
    /// the supervisor keeps waiting. A closed channel ends the program.
    pub fn restart_signal(&mut self, signal: Option<u8>) -> (directive: Directive)
        requires
            old(self)@.phase == Phase::Running,
        ensures
            (final(self)@, directive) == after_signal(old(self)@, signal),
    {
        match signal {
            None => {
                self.token = None;
                self.stopped = true;
                Directive::Shutdown
            },
            Some(code) => match RestartCode::from_code(code) {
                Some(RestartCode::Transient) => Directive::LaunchActors {
                    channel_capacity: CHANNEL_CAPACITY,
                    restart_capacity: RESTART_CAPACITY,
                },
                Some(RestartCode::CredentialFault) => {
                    self.token = None;
                    Directive::ValidateToken
                },
                None => Directive::KeepWaiting,
            },
        }
    }
}

/// A restart after a transient fault makes the same subscriptions again.
///
/// The signal 1 has the actors launched anew and leaves the token, the
/// settings and the schedule as they were. The new group is seeded from the
/// same schedule, so the loader sends the same messages, the same
/// broadcaster ids reach the subscriber in the same order, and over a session
/// of the same id the same subscriptions are posted.
pub proof fn law_restart_keeps_subscriptions<T>(
    state: SupervisorView<T>,
    api_url: Seq<char>,
    session_id: Seq<char>,
    token: Seq<char>,
    client_id: Seq<char>,
)
    ensures
        subscriptions_of(
            broadcaster_ids(after_signal(state, Some(1u8)).0.schedule),
            api_url,
            session_id,
            token,
            client_id,
        ) == subscriptions_of(
            broadcaster_ids(state.schedule),
            api_url,
            session_id,
            token,
            client_id,
        ),
        after_signal(state, Some(RestartCode::Transient.spec_code())) == (state, launch()),
        broadcaster_ids(after_signal(state, Some(1u8)).0.schedule) == broadcaster_ids(
            state.schedule,
        ),
        seeds_of(after_signal(state, Some(1u8)).0.schedule) == seeds_of(state.schedule),
{
}

/// No code and no closed channel changes the schedule: whenever actors are
/// launched again, they are seeded as the first group was.
pub proof fn law_schedule_is_kept<T>(state: SupervisorView<T>, signal: Option<u8>, token: T)
    ensures
        after_signal(state, signal).0.schedule == state.schedule,
        after_token(state, token).0.schedule == state.schedule,
        after_rejection(state).0.schedule == state.schedule,
{
}

} // verus!
