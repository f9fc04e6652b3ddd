//! What to do when a player has ended.
//!
//! A player that ends well was closed by the user. One that ends badly may
//! have lost the stream while the broadcaster is still live: the exit handler
//! asks the channel search, and where the broadcaster is live it has the
//! stream played again. It looks into one exit at a time.
//!
//! The exit handler decides; the program around it receives the exits, sends
//! the requests and sleeps. Each method takes what has happened and returns
//! the next step.

use crate::backoff::{sleeps, wait_after, Backoff};
use crate::cave::StreamConfigView;
use crate::event_handler::{quality_for, request_for, EventInput};
use crate::cave::Player;
use crate::player::{get_stream, player_command, stream_url, PlayerCommand};
use crate::request::{search_channels, search_request, ApiRequest};
use crate::supervisor::RestartCode;
use crate::twitch_socket::api_structs::{channel_of, SearchDataView, StreamSearch};
use vstd::prelude::*;
use vstd::string::*;

verus! {

/// The command that serves one play request: `player` on the stream of
/// `streamer_name` on the site `website`, at `quality`.
pub fn task_spawner(player: Player, website: &str, streamer_name: &str, quality: u16) -> (command:
    PlayerCommand)
    ensures
        command@ == player_command(player, website@ + streamer_name@, quality),
{
    get_stream(player, stream_url(website, streamer_name), quality)
}

/// How a player ended.
#[derive(Clone, Copy, Debug, PartialEq, Eq, Structural)]
pub enum PlayerExit {
    /// It ran and ended with success.
    Success,
    /// It ran and ended without success.
    Failure,
    /// It could not be started or waited for.
    SpawnError,
}

/// Why nothing more is done about an exit.
#[derive(Clone, Copy, Debug, PartialEq, Eq, Structural)]
pub enum DropReason {
    /// The player could not be started.
    SpawnError,
    /// No token is at hand to ask Twitch with.
    NoToken,
    /// The player ended well: the user closed it.
    CleanExit,
    /// The broadcaster is no longer live.
    Offline,
    /// The search did not return the broadcaster.
    NotFound,
    /// The answer of the search could not be read.
    Malformed,
    /// The search answered with a status that is neither 200 nor 401.
    Unexpected { status: u16 },
}

/// What the program is to do next for the exit at hand.
#[derive(Debug, PartialEq, Eq)]
pub enum ExitStep {
    /// Send the search request for the login under diagnosis.
    Search,
    /// The request did not get through: sleep, then send it again.
    Sleep { secs: u64 },
    /// The search answered 200: read its body as search results.
    ReadResults,
    /// The broadcaster is live: hand the pair `("retry", login)` to the event
    /// handler. The diagnosis is over.
    Retry { login: String },
    /// Raise the code on the restart channel. The diagnosis is over.
    Restart { code: RestartCode },
    /// Nothing more is to be done for this exit.
    Drop { reason: DropReason },
}

/// An [`ExitStep`] as a plain mathematical value.
pub enum ExitStepView {
    Search,
    Sleep { secs: int },
    ReadResults,
    Retry { login: Seq<char> },
    Restart { code: RestartCode },
    Drop { reason: DropReason },
}

impl View for ExitStep {
    type V = ExitStepView;

    open spec fn view(&self) -> ExitStepView {
        match self {
            ExitStep::Search => ExitStepView::Search,
            ExitStep::Sleep { secs } => ExitStepView::Sleep { secs: *secs as int },
            ExitStep::ReadResults => ExitStepView::ReadResults,
            ExitStep::Retry { login } => ExitStepView::Retry { login: login@ },
            ExitStep::Restart { code } => ExitStepView::Restart { code: *code },
            ExitStep::Drop { reason } => ExitStepView::Drop { reason: *reason },
        }
    }
}

/// What a diagnosis waits for.
#[derive(Clone, Copy, Debug, PartialEq, Eq, Structural)]
pub enum Awaiting {
    /// The status of the search request, or the news that it did not get
    /// through.
    Status,
    /// The body of an answer with status 200.
    Results,
}

/// A diagnosis under way: whose exit is looked into, how many requests have
/// failed, and what is waited for.
pub struct Diagnosis {
    pub login: Seq<char>,
    pub failures: nat,
    pub awaiting: Awaiting,
}

/// The state and the step after the player of `login` has ended with `exit`.
/// Only a bad exit, with a token at hand, starts a diagnosis.
pub open spec fn after_exit(login: Seq<char>, exit: PlayerExit, has_token: bool) -> (
    Option<Diagnosis>,
    ExitStepView,
) {
    match exit {
        PlayerExit::SpawnError => (None, ExitStepView::Drop { reason: DropReason::SpawnError }),
        _ => if !has_token {
            (None, ExitStepView::Drop { reason: DropReason::NoToken })
        } else if exit == PlayerExit::Success {
            (None, ExitStepView::Drop { reason: DropReason::CleanExit })
        } else {
            (
                Some(Diagnosis { login: login, failures: 0, awaiting: Awaiting::Status }),
                ExitStepView::Search,
            )
        },
    }
}

/// The state and the step after the search request did not get through: the
/// same diagnosis goes on after a sleep that the backoff schedule gives.
pub open spec fn after_network_error(diagnosis: Diagnosis) -> (Option<Diagnosis>, ExitStepView) {
    (
        Some(Diagnosis { failures: diagnosis.failures + 1, ..diagnosis }),
        ExitStepView::Sleep { secs: wait_after(diagnosis.failures + 1) },
    )
}

/// The state and the step after the search has answered with `status`.
pub open spec fn after_status(diagnosis: Diagnosis, status: u16) -> (
    Option<Diagnosis>,
    ExitStepView,
) {
    if status == 200 {
        (Some(Diagnosis { awaiting: Awaiting::Results, ..diagnosis }), ExitStepView::ReadResults)
    } else if status == 401 {
        (None, ExitStepView::Restart { code: RestartCode::CredentialFault })
    } else {
        (None, ExitStepView::Drop { reason: DropReason::Unexpected { status: status } })
    }
}

/// The state and the step after the body of the answer has been read
/// (`None`: it could not be read). The diagnosis is over in every case.
pub open spec fn after_results(diagnosis: Diagnosis, results: Option<Seq<SearchDataView>>) -> (
    Option<Diagnosis>,
    ExitStepView,
) {
    match results {
        None => (None, ExitStepView::Drop { reason: DropReason::Malformed }),
        Some(channels) => {
            let at = channel_of(channels, diagnosis.login);
            if at == channels.len() {
                (None, ExitStepView::Drop { reason: DropReason::NotFound })
            } else if channels[at].is_live {
                (None, ExitStepView::Retry { login: diagnosis.login })
            } else {
                (None, ExitStepView::Drop { reason: DropReason::Offline })
            }
        },
    }
}

/// The exit handler: idle, or looking into one exit.
pub struct ExitHandler {
    login: String,
    backoff: Backoff,
    awaiting: Option<Awaiting>,
}

impl View for ExitHandler {
    type V = Option<Diagnosis>;

    closed spec fn view(&self) -> Option<Diagnosis> {
        match self.awaiting {
            None => None,
            Some(awaiting) => Some(
                Diagnosis {
                    login: self.login@,
                    failures: self.backoff.failures(),
                    awaiting: awaiting,
                },
            ),
        }
    }
}

impl ExitHandler {
    /// An exit handler that looks into nothing.
    pub fn new() -> (handler: Self)
        ensures
            handler@ is None,
    {
        ExitHandler { login: String::new(), backoff: Backoff::new(), awaiting: None }
    }

    /// Whether no diagnosis is under way, so that the next exit can be taken.
    pub fn is_idle(&self) -> (idle: bool)
        ensures
            idle == (self@ is None),
    {
        self.awaiting.is_none()
    }

    /// What the diagnosis under way waits for, if there is one.
    pub fn awaiting(&self) -> (awaiting: Option<Awaiting>)
        ensures
            match awaiting {
                None => self@ is None,
                Some(what) => self@ is Some && self@->Some_0.awaiting == what,
            },
    {
        self.awaiting
    }

    /// The player of `login` has ended with `exit`. `has_token` says whether
    /// a token is at hand.
    ///
    /// A player that could not be started, a missing token and a clean exit
    /// end the matter. A bad exit starts a diagnosis: the next step is the
    /// search.
    pub fn on_exit(&mut self, login: String, exit: PlayerExit, has_token: bool) -> (step: ExitStep)
        requires
            old(self)@ is None,
        ensures
            (final(self)@, step@) == after_exit(login@, exit, has_token),
    {
        match exit {
            PlayerExit::SpawnError => ExitStep::Drop { reason: DropReason::SpawnError },
            PlayerExit::Success => {
                if !has_token {
                    ExitStep::Drop { reason: DropReason::NoToken }
                } else {
                    ExitStep::Drop { reason: DropReason::CleanExit }
                }
            },
            PlayerExit::Failure => {
                if !has_token {
                    ExitStep::Drop { reason: DropReason::NoToken }
                } else {
                    self.login = login;
                    self.backoff = Backoff::new();
                    self.awaiting = Some(Awaiting::Status);
                    ExitStep::Search
                }
            },
        }
    }

    /// The search request of the diagnosis under way: a GET of `api_url` with
    /// the login as the query, the token as bearer and the client id.
    pub fn request(&self, api_url: &str, token: &str, client_id: &str) -> (request: ApiRequest)
        requires
            self@ is Some,
        ensures
            request@ == search_request(api_url@, self@->Some_0.login, token@, client_id@),
    {
        search_channels(api_url, self.login.as_str(), token, client_id)
    }

    /// The search request did not get through. The next step is a sleep, one
    /// step further in the backoff schedule, and then the same request again.
    pub fn on_network_error(&mut self) -> (step: ExitStep)
        requires
            old(self)@ matches Some(diagnosis) && diagnosis.awaiting == Awaiting::Status,
        ensures
            (final(self)@, step@) == after_network_error(old(self)@->Some_0),
    {
        let secs: u64 = self.backoff.fail();
        ExitStep::Sleep { secs }
    }

    /// The search has answered with `status`. 200 asks for the body to be
    /// read; 401 raises the credential fault; any other status ends the
    /// matter.
    pub fn on_status(&mut self, status: u16) -> (step: ExitStep)
        requires
            old(self)@ matches Some(diagnosis) && diagnosis.awaiting == Awaiting::Status,
        ensures
            (final(self)@, step@) == after_status(old(self)@->Some_0, status),
    {
        if status == 200 {
            self.awaiting = Some(Awaiting::Results);
            ExitStep::ReadResults
        } else if status == 401 {
            self.awaiting = None;
            ExitStep::Restart { code: RestartCode::CredentialFault }
        } else {
            self.awaiting = None;
            ExitStep::Drop { reason: DropReason::Unexpected { status } }
        }
    }

    /// The body of the answer has been read as `results`, or could not be
    /// read (`None`). The stream is played again where the first channel with
    /// exactly the login under diagnosis is live.
    pub fn on_results(&mut self, results: Option<&StreamSearch>) -> (step: ExitStep)
        requires
            old(self)@ matches Some(diagnosis) && diagnosis.awaiting == Awaiting::Results,
        ensures
            (final(self)@, step@) == after_results(
                old(self)@->Some_0,
                match results {
                    Some(search) => Some(search@),
                    None => None,
                },
            ),
    {
        self.awaiting = None;
        let search = match results {
            None => {
                return ExitStep::Drop { reason: DropReason::Malformed };
            },
            Some(search) => search,
        };
        match search.channel(self.login.as_str()) {
            None => ExitStep::Drop { reason: DropReason::NotFound },
            Some(channel) => {
                if channel.is_live {
                    ExitStep::Retry { login: self.login.clone() }
                } else {
                    ExitStep::Drop { reason: DropReason::Offline }
                }
            },
        }
    }
}

/// A diagnosis for `login` that waits for the status after `failures`
/// requests in a row did not get through.
pub open spec fn waiting_after(login: Seq<char>, failures: nat) -> Diagnosis {
    Diagnosis { login: login, failures: failures, awaiting: Awaiting::Status }
}

/// A stream that is live is played again after a bad exit.
///
/// Let the player of `login` end badly while a token is at hand, let any
/// number of search requests fail, and let the search then answer 200 with
/// results in which the first channel of that login is live. Then the bad
/// exit starts the search for `login`, every failure keeps the same diagnosis
/// going, the answer is read, and the results end the diagnosis with the step
/// that hands `("retry", login)` to the event handler. The event handler
/// turns every such pair into a play request for `login`.
pub proof fn law_live_stream_is_played_again(
    login: Seq<char>,
    failures: nat,
    results: Seq<SearchDataView>,
    retry: (String, String),
    table: Seq<StreamConfigView>,
    profile: (Seq<char>, u16),
)
    requires
        channel_of(results, login) < results.len(),
        results[channel_of(results, login)].is_live,
        retry.1@ == login,
    ensures
        after_exit(login, PlayerExit::Failure, true) == (
            Some(waiting_after(login, 0)),
            ExitStepView::Search,
        ),
        forall|seen: nat| #[trigger]
            after_network_error(waiting_after(login, seen)).0 == Some(
                waiting_after(login, seen + 1),
            ),
        after_status(waiting_after(login, failures), 200).1 == ExitStepView::ReadResults,
        after_status(waiting_after(login, failures), 200).0 is Some,
        after_results(after_status(waiting_after(login, failures), 200).0->Some_0, Some(results))
            == (None::<Diagnosis>, ExitStepView::Retry { login: login }),
        request_for(table, EventInput::Exit(retry), profile) == Some(
            (login, quality_for(table, login, profile)),
        ),
{
}

/// The sleeps between the search requests of one diagnosis are those of the
/// backoff schedule: the sleep after the failure number `failures + 1` is the
/// entry number `failures` of the schedule.
pub proof fn law_search_backs_off(login: Seq<char>, failures: nat)
    ensures
        after_network_error(waiting_after(login, failures)).1 == (ExitStepView::Sleep {
            secs: sleeps(failures + 1)[failures as int],
        }),
{
}

/// The exit handler looks into one exit at a time.
///
/// Its state holds at most one diagnosis, and a new one begins only in the
/// idle state. While a diagnosis is under way no step leads to a diagnosis
/// for another login: a failed request and the status 200 go on with the same
/// login, every other status and every body end the diagnosis, and a retry
/// names the login under diagnosis.
pub proof fn law_one_diagnosis_at_a_time(
    diagnosis: Diagnosis,
    status: u16,
    results: Option<Seq<SearchDataView>>,
)
    ensures
        after_network_error(diagnosis).0 matches Some(next) && next.login == diagnosis.login,
        after_status(diagnosis, status).0 matches Some(next) ==> next.login == diagnosis.login
            && status == 200,
        after_results(diagnosis, results).0 is None,
        after_results(diagnosis, results).1 matches ExitStepView::Retry { login } ==> login
            == diagnosis.login,
{
}

} // verus!
