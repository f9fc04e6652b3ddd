//! The EventSub WebSocket session and the subscriptions made over it.
//!
//! Two things run side by side. The reader dials the WebSocket, waits for the
//! welcome that names the session, and then turns frames into events for the
//! rest of the daemon. The subscriber takes broadcaster ids and, once the
//! session is named, posts one subscription for each.
//!
//! Both only decide. The program around them dials, reads, sends and sleeps,
//! tells them what has happened and does what they return.

pub mod api_structs;

use crate::backoff::{sleeps, wait_after, Backoff};
use crate::request::{ApiRequest, ApiRequestView, Method};
use crate::supervisor::RestartCode;
use crate::twitch_socket::api_structs::{
    live_sub,
    EventType,
    MessageType,
    SubscriptionBody,
    SubscriptionStatus,
    TwitchApi,
    WebsocketMetadata,
    WebsocketPayload,
};
use vstd::prelude::*;
use vstd::string::*;
use vstd::utf8::{decode_utf8, encode_utf8, encode_utf8_decode_utf8, valid_utf8};

verus! {

/// Seconds that the reader waits for a frame before it gives the session up.
pub const IDLE_TIMEOUT_SECS: u64 = 15;

/// Seconds between two looks at the session id while it is not known.
pub const SESSION_POLL_SECS: u64 = 1;

/// `std::string::FromUtf8Error`: why bytes are no text. It is never looked
/// into.
#[verifier::external_type_specification]
#[verifier::external_body]
pub struct ExFromUtf8Error(std::string::FromUtf8Error);

/// `String::from_utf8`: the text that `bytes` encode in UTF-8, or an error
/// where they are no valid UTF-8. The text encodes to exactly the bytes
/// given.
#[verifier::external_body]
fn text_of_bytes(bytes: Vec<u8>) -> (text: Result<String, std::string::FromUtf8Error>)
    ensures
        text.is_ok() == valid_utf8(bytes@),
        text matches Ok(read) ==> encode_utf8(read@) == bytes@,
{
    String::from_utf8(bytes)
}

/// One message read from the WebSocket.
#[derive(Debug, PartialEq, Eq)]
pub enum SocketMessage {
    /// A text message.
    Text(String),
    /// A binary message.
    Binary(Vec<u8>),
    /// A ping.
    Ping,
    /// A pong.
    Pong,
    /// The other side closes the connection.
    Close,
    /// A raw frame with its payload.
    Frame(Vec<u8>),
}

/// Where the reader stands.
#[derive(Clone, Copy, Debug, PartialEq, Eq, Structural)]
pub enum SessionPhase {
    /// The configured address is being dialled, or a sleep lies between two
    /// attempts.
    Dialing,
    /// The connection stands and the first frame is waited for.
    AwaitingWelcome,
    /// The session is named and frames are read.
    Operational,
    /// Twitch has asked to move, and the new address is being dialled.
    Reconnecting,
    /// The reader has ended.
    Ended,
}

/// A frame that is reported and otherwise changes nothing.
#[derive(Clone, Copy, Debug, PartialEq, Eq, Structural)]
pub enum Notice {
    /// The payload is not the one that goes with the type of the message.
    UnexpectedPayload,
    /// The type of the message does not go with the kind of its metadata.
    UnexpectedType,
    /// A subscription was revoked because the user was removed.
    UserRemoved,
    /// A subscription was revoked because its version was removed.
    VersionRemoved,
}

/// A frame that breaks what Twitch has promised; the program ends on it.
#[derive(Clone, Copy, Debug, PartialEq, Eq, Structural)]
pub enum Fault {
    /// A request to reconnect came without the address to reconnect to.
    MissingReconnectUrl,
}

/// What the program is to do next for the reader.
#[derive(Debug, PartialEq, Eq)]
pub enum SocketStep {
    /// Dial `url`, and say how it went.
    Dial { url: String },
    /// Sleep for `after_secs` seconds, then dial `url`, and say how it went.
    Redial { after_secs: u64, url: String },
    /// Wait for the next message, no longer than `within_secs` seconds.
    Read { within_secs: u64 },
    /// Read `text` as a frame and hand the frame over. A text that is no
    /// frame ends the program.
    Parse { text: String },
    /// The session is named: make `session_id` known to the subscriber, then
    /// read on.
    Welcome { session_id: String },
    /// Hand the pair `("live", login)` to the event handler, then read on.
    Emit { login: String },
    /// Report the frame, then read on.
    Report { notice: Notice },
    /// Raise the code on the restart channel. The reader has ended.
    Restart { code: RestartCode },
    /// A message could not be read as text. The reader has ended.
    Stop,
    /// End the program.
    Fail { fault: Fault },
}

/// A [`SocketStep`] as a plain mathematical value.
pub enum SocketStepView {
    Dial { url: Seq<char> },
    Redial { after_secs: int, url: Seq<char> },
    Read { within_secs: int },
    Parse { text: Seq<char> },
    Welcome { session_id: Seq<char> },
    Emit { login: Seq<char> },
    Report { notice: Notice },
    Restart { code: RestartCode },
    Stop,
    Fail { fault: Fault },
}

impl View for SocketStep {
    type V = SocketStepView;

    open spec fn view(&self) -> SocketStepView {
        match self {
            SocketStep::Dial { url } => SocketStepView::Dial { url: url@ },
            SocketStep::Redial { after_secs, url } => SocketStepView::Redial {
                after_secs: *after_secs as int,
                url: url@,
            },
            SocketStep::Read { within_secs } => SocketStepView::Read {
                within_secs: *within_secs as int,
            },
            SocketStep::Parse { text } => SocketStepView::Parse { text: text@ },
            SocketStep::Welcome { session_id } => SocketStepView::Welcome {
                session_id: session_id@,
            },
            SocketStep::Emit { login } => SocketStepView::Emit { login: login@ },
            SocketStep::Report { notice } => SocketStepView::Report { notice: *notice },
            SocketStep::Restart { code } => SocketStepView::Restart { code: *code },
            SocketStep::Stop => SocketStepView::Stop,
            SocketStep::Fail { fault } => SocketStepView::Fail { fault: *fault },
        }
    }
}

/// The step that reads the next message: it waits no longer than
/// [`IDLE_TIMEOUT_SECS`].
pub open spec fn read_on() -> SocketStepView {
    SocketStepView::Read { within_secs: IDLE_TIMEOUT_SECS as int }
}

/// The state of the reader, as plain mathematical values.
pub struct SessionView {
    /// The configured address of the WebSocket.
    pub url: Seq<char>,
    /// The id of the session; empty until a welcome has named it.
    pub session_id: Seq<char>,
    pub phase: SessionPhase,
    /// How many attempts to dial the configured address have failed.
    pub failures: nat,
}

/// Whether `frame` is a welcome: a reply of the type `session_welcome` that
/// carries a session.
pub open spec fn is_welcome(frame: TwitchApi) -> bool {
    &&& frame.metadata matches WebsocketMetadata::Reply(reply)
    &&& reply.message_type == MessageType::SessionWelcome
    &&& frame.payload is Connection
}

/// The id of the session after `frame` has been handled: a welcome names the
/// session, and no other frame touches the id.
pub open spec fn session_id_after(session_id: Seq<char>, frame: TwitchApi) -> Seq<char> {
    if is_welcome(frame) {
        frame.payload->Connection_0.session.id@
    } else {
        session_id
    }
}

/// What the first frame of a connection leads to: a welcome names the session
/// and the reader becomes operational; anything else makes it give up with a
/// transient fault.
pub open spec fn after_first_frame(state: SessionView, frame: TwitchApi) -> (
    SessionView,
    SocketStepView,
) {
    if is_welcome(frame) {
        let session_id = frame.payload->Connection_0.session.id@;
        (
            SessionView { phase: SessionPhase::Operational, session_id: session_id, ..state },
            SocketStepView::Welcome { session_id: session_id },
        )
    } else {
        (
            SessionView { phase: SessionPhase::Ended, ..state },
            SocketStepView::Restart { code: RestartCode::Transient },
        )
    }
}

/// What a reply leads to while the reader is operational.
pub open spec fn after_reply(state: SessionView, kind: MessageType, payload: WebsocketPayload) -> (
    SessionView,
    SocketStepView,
) {
    match kind {
        MessageType::SessionWelcome => match payload {
            WebsocketPayload::Connection(welcome) => (
                SessionView { session_id: welcome.session.id@, ..state },
                SocketStepView::Welcome { session_id: welcome.session.id@ },
            ),
            _ => (state, SocketStepView::Report { notice: Notice::UnexpectedPayload }),
        },
        MessageType::SessionReconnect => match payload {
            WebsocketPayload::Connection(reconnect) => match reconnect.session.reconnect_url {
                Some(url) => (
                    SessionView { phase: SessionPhase::Reconnecting, ..state },
                    SocketStepView::Dial { url: url@ },
                ),
                None => (
                    SessionView { phase: SessionPhase::Ended, ..state },
                    SocketStepView::Fail { fault: Fault::MissingReconnectUrl },
                ),
            },
            _ => (state, SocketStepView::Report { notice: Notice::UnexpectedPayload }),
        },
        MessageType::SessionKeepalive => (state, read_on()),
        _ => (state, SocketStepView::Report { notice: Notice::UnexpectedType }),
    }
}

/// What a frame with the metadata of a notification leads to while the reader
/// is operational.
pub open spec fn after_notification(
    state: SessionView,
    kind: MessageType,
    payload: WebsocketPayload,
) -> (SessionView, SocketStepView) {
    match kind {
        MessageType::Notification => match payload {
            WebsocketPayload::Notification(notification) => if notification.subscription.subscritpion_type@
                == "stream.online"@ && notification.event.event_type == EventType::Live {
                (state, SocketStepView::Emit { login: notification.event.broadcaster_user_login@ })
            } else {
                (state, read_on())
            },
            _ => (state, SocketStepView::Report { notice: Notice::UnexpectedPayload }),
        },
        MessageType::Revocation => match payload {
            WebsocketPayload::Revocation(revocation) => match revocation.subscription.status {
                SubscriptionStatus::AuthorizationRevoked => (
                    SessionView { phase: SessionPhase::Ended, ..state },
                    SocketStepView::Restart { code: RestartCode::CredentialFault },
                ),
                SubscriptionStatus::UserRemoved => (
                    state,
                    SocketStepView::Report { notice: Notice::UserRemoved },
                ),
                SubscriptionStatus::VersionRemoved => (
                    state,
                    SocketStepView::Report { notice: Notice::VersionRemoved },
                ),
                SubscriptionStatus::Enabled => (state, read_on()),
            },
            _ => (state, SocketStepView::Report { notice: Notice::UnexpectedPayload }),
        },
        _ => (state, SocketStepView::Report { notice: Notice::UnexpectedType }),
    }
}

/// The state and the step after `frame` has been handled.
pub open spec fn after_frame(state: SessionView, frame: TwitchApi) -> (
    SessionView,
    SocketStepView,
) {
    if state.phase == SessionPhase::AwaitingWelcome {
        after_first_frame(state, frame)
    } else {
        match frame.metadata {
            WebsocketMetadata::Reply(reply) => after_reply(
                state,
                reply.message_type,
                frame.payload,
            ),
            WebsocketMetadata::Notification(notification) => after_notification(
                state,
                notification.message_type,
                frame.payload,
            ),
        }
    }
}

/// The state and the step after an attempt to dial has ended.
///
/// The configured address is dialled again and again, with longer and longer
/// sleeps between the attempts. The address of a reconnect is dialled once.
pub open spec fn after_dial(state: SessionView, connected: bool) -> (SessionView, SocketStepView) {
    if state.phase == SessionPhase::Reconnecting {
        if connected {
            (SessionView { phase: SessionPhase::Operational, ..state }, read_on())
        } else {
            (
                SessionView { phase: SessionPhase::Ended, ..state },
                SocketStepView::Restart { code: RestartCode::Transient },
            )
        }
    } else {
        if connected {
            (SessionView { phase: SessionPhase::AwaitingWelcome, ..state }, read_on())
        } else {
            (
                SessionView { failures: state.failures + 1, ..state },
                SocketStepView::Redial {
                    after_secs: wait_after(state.failures + 1),
                    url: state.url,
                },
            )
        }
    }
}

/// The state and the step after no frame has come in time, the connection has
/// ended, or reading has failed: the reader gives up with a transient fault.
pub open spec fn after_silence(state: SessionView) -> (SessionView, SocketStepView) {
    (
        SessionView { phase: SessionPhase::Ended, ..state },
        SocketStepView::Restart { code: RestartCode::Transient },
    )
}

/// The state and the step after a message that is no text: before the
/// welcome it makes the reader give up; later a ping, a pong or a close only
/// shows that the connection is alive, and bytes that are no text end the
/// reader.
pub open spec fn after_no_text(state: SessionView, control: bool) -> (
    SessionView,
    SocketStepView,
) {
    if state.phase == SessionPhase::AwaitingWelcome {
        (
            SessionView { phase: SessionPhase::Ended, ..state },
            SocketStepView::Restart { code: RestartCode::Transient },
        )
    } else if control {
        (state, read_on())
    } else {
        (SessionView { phase: SessionPhase::Ended, ..state }, SocketStepView::Stop)
    }
}

/// The state and the step after `message` has been read.
///
/// A text is to be parsed as a frame. So are the bytes of a binary message or
/// of a raw frame where they are text in UTF-8.
pub open spec fn after_message(state: SessionView, message: SocketMessage) -> (
    SessionView,
    SocketStepView,
) {
    match message {
        SocketMessage::Text(text) => (state, SocketStepView::Parse { text: text@ }),
        SocketMessage::Binary(bytes) | SocketMessage::Frame(bytes) => if valid_utf8(bytes@) {
            (state, SocketStepView::Parse { text: decode_utf8(bytes@) })
        } else {
            after_no_text(state, false)
        },
        _ => after_no_text(state, true),
    }
}

/// The reader of one WebSocket session.
pub struct Session {
    url: String,
    session_id: String,
    phase: SessionPhase,
    backoff: Backoff,
}

impl View for Session {
    type V = SessionView;

    closed spec fn view(&self) -> SessionView {
        SessionView {
            url: self.url@,
            session_id: self.session_id@,
            phase: self.phase,
            failures: self.backoff.failures(),
        }
    }
}

impl Session {
    /// A reader for the WebSocket at `url`. The session has no id yet, and
    /// the first thing to do is to dial.
    pub fn new(url: &str) -> (started: (Self, SocketStep))
        ensures
            started.0@ == (SessionView {
                url: url@,
                session_id: Seq::<char>::empty(),
                phase: SessionPhase::Dialing,
                failures: 0,
            }),
            started.1@ == (SocketStepView::Dial { url: url@ }),
    {
        (
            Session {
                url: String::from_str(url),
                session_id: String::new(),
                phase: SessionPhase::Dialing,
                backoff: Backoff::new(),
            },
            SocketStep::Dial { url: String::from_str(url) },
        )
    }

    /// Where the reader stands.
    pub fn phase(&self) -> (phase: SessionPhase)
        ensures
            phase == self@.phase,
    {
        self.phase
    }

    /// The id of the session; empty until a welcome has named it.
    pub fn session_id(&self) -> (session_id: &String)
        ensures
            session_id@ == self@.session_id,
    {
        &self.session_id
    }

    /// An attempt to dial has ended; `connected` says whether the connection
    /// stands.
    pub fn on_dial(&mut self, connected: bool) -> (step: SocketStep)
        requires
            old(self)@.phase == SessionPhase::Dialing || old(self)@.phase
                == SessionPhase::Reconnecting,
        ensures
            (final(self)@, step@) == after_dial(old(self)@, connected),
    {
        match self.phase {
            SessionPhase::Reconnecting => {
                if connected {
                    self.phase = SessionPhase::Operational;
                    SocketStep::Read { within_secs: IDLE_TIMEOUT_SECS }
                } else {
                    self.phase = SessionPhase::Ended;
                    SocketStep::Restart { code: RestartCode::Transient }
                }
            },
            _ => {
                if connected {
                    self.phase = SessionPhase::AwaitingWelcome;
                    SocketStep::Read { within_secs: IDLE_TIMEOUT_SECS }
                } else {
                    let after_secs: u64 = self.backoff.fail();
                    SocketStep::Redial { after_secs, url: self.url.clone() }
                }
            },
        }
    }

    /// No frame has come within [`IDLE_TIMEOUT_SECS`], the connection has
    /// ended, or reading has failed.
    pub fn on_silence(&mut self) -> (step: SocketStep)
        requires
            old(self)@.phase == SessionPhase::AwaitingWelcome || old(self)@.phase
                == SessionPhase::Operational,
        ensures
            (final(self)@, step@) == after_silence(old(self)@),
    {
        self.phase = SessionPhase::Ended;
        SocketStep::Restart { code: RestartCode::Transient }
    }

    /// A message has been read: see [`after_message`].
    pub fn on_message(&mut self, message: SocketMessage) -> (step: SocketStep)
        requires
            old(self)@.phase == SessionPhase::AwaitingWelcome || old(self)@.phase
                == SessionPhase::Operational,
        ensures
            (final(self)@, step@) == after_message(old(self)@, message),
    {
        match message {
            SocketMessage::Text(text) => SocketStep::Parse { text },
            SocketMessage::Binary(bytes) => self.on_bytes(bytes),
            SocketMessage::Frame(bytes) => self.on_bytes(bytes),
            _ => self.on_no_text(true),
        }
    }

    /// The bytes of a message that is not marked as text have been read.
    fn on_bytes(&mut self, bytes: Vec<u8>) -> (step: SocketStep)
        requires
            old(self)@.phase == SessionPhase::AwaitingWelcome || old(self)@.phase
                == SessionPhase::Operational,
        ensures
            (final(self)@, step@) == if valid_utf8(bytes@) {
                (old(self)@, SocketStepView::Parse { text: decode_utf8(bytes@) })
            } else {
                after_no_text(old(self)@, false)
            },
    {
        match text_of_bytes(bytes) {
            Ok(text) => {
                proof {
                    encode_utf8_decode_utf8(text@);
                }
                SocketStep::Parse { text }
            },
            Err(_) => self.on_no_text(false),
        }
    }

    /// A message that is no text has been read.
    fn on_no_text(&mut self, control: bool) -> (step: SocketStep)
        requires
            old(self)@.phase == SessionPhase::AwaitingWelcome || old(self)@.phase
                == SessionPhase::Operational,
        ensures
            (final(self)@, step@) == after_no_text(old(self)@, control),
    {
        if self.phase == SessionPhase::AwaitingWelcome {
            self.phase = SessionPhase::Ended;
            SocketStep::Restart { code: RestartCode::Transient }
        } else if control {
            SocketStep::Read { within_secs: IDLE_TIMEOUT_SECS }
        } else {
            self.phase = SessionPhase::Ended;
            SocketStep::Stop
        }
    }

    /// A frame has been parsed.
    ///
    /// The first frame of a connection has to be the welcome. After it, a
    /// welcome names the session anew, a request to reconnect has the new
    /// address dialled, a notification that a broadcaster went live is handed
    /// on, and the revocation of the authorization raises the credential
    /// fault. The session id changes on a welcome and on nothing else.
    pub fn on_frame(&mut self, frame: &TwitchApi) -> (step: SocketStep)
        requires
            old(self)@.phase == SessionPhase::AwaitingWelcome || old(self)@.phase
                == SessionPhase::Operational,
        ensures
            (final(self)@, step@) == after_frame(old(self)@, *frame),
            final(self)@.session_id == session_id_after(old(self)@.session_id, *frame),
    {
        if self.phase == SessionPhase::AwaitingWelcome {
            return self.on_first_frame(frame);
        }
        match &frame.metadata {
            WebsocketMetadata::Reply(reply) => self.on_reply(&reply.message_type, &frame.payload),
            WebsocketMetadata::Notification(notification) => self.on_notification(
                &notification.message_type,
                &frame.payload,
            ),
        }
    }

    /// The first frame of a connection has been parsed.
    fn on_first_frame(&mut self, frame: &TwitchApi) -> (step: SocketStep)
        requires
            old(self)@.phase == SessionPhase::AwaitingWelcome,
        ensures
            (final(self)@, step@) == after_first_frame(old(self)@, *frame),
            final(self)@.session_id == session_id_after(old(self)@.session_id, *frame),
    {
        if let WebsocketMetadata::Reply(reply) = &frame.metadata {
            if let MessageType::SessionWelcome = reply.message_type {
                if let WebsocketPayload::Connection(welcome) = &frame.payload {
                    self.session_id = welcome.session.id.clone();
                    self.phase = SessionPhase::Operational;
                    return SocketStep::Welcome { session_id: welcome.session.id.clone() };
                }
            }
        }
        self.phase = SessionPhase::Ended;
        SocketStep::Restart { code: RestartCode::Transient }
    }

    /// A reply has been parsed while the reader is operational.
    fn on_reply(&mut self, kind: &MessageType, payload: &WebsocketPayload) -> (step: SocketStep)
        requires
            old(self)@.phase == SessionPhase::Operational,
        ensures
            (final(self)@, step@) == after_reply(old(self)@, *kind, *payload),
            final(self)@.session_id == if *kind == MessageType::SessionWelcome
                && payload is Connection {
                payload->Connection_0.session.id@
            } else {
                old(self)@.session_id
            },
    {
        match kind {
            MessageType::SessionWelcome => match payload {
                WebsocketPayload::Connection(welcome) => {
                    self.session_id = welcome.session.id.clone();
                    SocketStep::Welcome { session_id: welcome.session.id.clone() }
                },
                _ => SocketStep::Report { notice: Notice::UnexpectedPayload },
            },
            MessageType::SessionReconnect => match payload {
                WebsocketPayload::Connection(reconnect) => match &reconnect.session.reconnect_url {
                    Some(url) => {
                        self.phase = SessionPhase::Reconnecting;
                        SocketStep::Dial { url: url.clone() }
                    },
                    None => {
                        self.phase = SessionPhase::Ended;
                        SocketStep::Fail { fault: Fault::MissingReconnectUrl }
                    },
                },
                _ => SocketStep::Report { notice: Notice::UnexpectedPayload },
            },
            MessageType::SessionKeepalive => SocketStep::Read { within_secs: IDLE_TIMEOUT_SECS },
            _ => SocketStep::Report { notice: Notice::UnexpectedType },
        }
    }

    /// A frame with the metadata of a notification has been parsed while the
    /// reader is operational.
    fn on_notification(&mut self, kind: &MessageType, payload: &WebsocketPayload) -> (step:
        SocketStep)
        requires
            old(self)@.phase == SessionPhase::Operational,
        ensures
            (final(self)@, step@) == after_notification(old(self)@, *kind, *payload),
            final(self)@.session_id == old(self)@.session_id,
    {
        match kind {
            MessageType::Notification => match payload {
                WebsocketPayload::Notification(notification) => {
                    let online = String::from_str("stream.online");
                    let live = match notification.event.event_type {
                        EventType::Live => true,
                        _ => false,
                    };
                    if notification.subscription.subscritpion_type == online && live {
                        SocketStep::Emit { login: notification.event.broadcaster_user_login.clone() }
                    } else {
                        SocketStep::Read { within_secs: IDLE_TIMEOUT_SECS }
                    }
                },
                _ => SocketStep::Report { notice: Notice::UnexpectedPayload },
            },
            MessageType::Revocation => match payload {
                WebsocketPayload::Revocation(revocation) => match revocation.subscription.status {
                    SubscriptionStatus::AuthorizationRevoked => {
                        self.phase = SessionPhase::Ended;
                        SocketStep::Restart { code: RestartCode::CredentialFault }
                    },
                    SubscriptionStatus::UserRemoved => SocketStep::Report {
                        notice: Notice::UserRemoved,
                    },
                    SubscriptionStatus::VersionRemoved => SocketStep::Report {
                        notice: Notice::VersionRemoved,
                    },
                    SubscriptionStatus::Enabled => SocketStep::Read { within_secs: IDLE_TIMEOUT_SECS },
                },
                _ => SocketStep::Report { notice: Notice::UnexpectedPayload },
            },
            _ => SocketStep::Report { notice: Notice::UnexpectedType },
        }
    }
}

/// The request that subscribes to the broadcaster `id` going live, over the
/// session `session_id`: a POST of the subscription as JSON to `api_url`.
pub open spec fn subscribe_request(
    api_url: Seq<char>,
    id: u32,
    session_id: Seq<char>,
    token: Seq<char>,
    client_id: Seq<char>,
) -> ApiRequestView {
    ApiRequestView {
        method: Method::Post,
        url: api_url,
        query: Seq::empty(),
        bearer: token,
        client_id: client_id,
        json: Some(live_sub(id, session_id)),
    }
}

/// The requests that subscribe to the broadcasters `ids`, in order, over the
/// session `session_id`: the subscriptions that one group of actors makes.
pub open spec fn subscriptions_of(
    ids: Seq<u32>,
    api_url: Seq<char>,
    session_id: Seq<char>,
    token: Seq<char>,
    client_id: Seq<char>,
) -> Seq<ApiRequestView> {
    ids.map_values(|id: u32| subscribe_request(api_url, id, session_id, token, client_id))
}

/// What the program is to do next for the subscriber.
#[derive(Debug)]
pub enum SubscribeStep {
    /// The session has no id yet: sleep for `after_secs` seconds, then try
    /// the same broadcaster again.
    AwaitSession { after_secs: u64 },
    /// Send the request and say how it went.
    Post { request: ApiRequest },
    /// The request did not get through: sleep for `after_secs` seconds, then
    /// send the same request again.
    Repost { after_secs: u64 },
    /// Twitch has taken the subscription. Go on with the next broadcaster.
    Subscribed,
    /// Twitch has answered with a status that is neither 202 nor 401. The
    /// subscription is not tried again. Go on with the next broadcaster.
    Skipped { status: u16 },
    /// Raise the code on the restart channel and subscribe to nothing more.
    Restart { code: RestartCode },
}

/// A [`SubscribeStep`] as a plain mathematical value.
pub enum SubscribeStepView {
    AwaitSession { after_secs: int },
    Post { request: ApiRequestView },
    Repost { after_secs: int },
    Subscribed,
    Skipped { status: u16 },
    Restart { code: RestartCode },
}

impl View for SubscribeStep {
    type V = SubscribeStepView;

    open spec fn view(&self) -> SubscribeStepView {
        match self {
            SubscribeStep::AwaitSession { after_secs } => SubscribeStepView::AwaitSession {
                after_secs: *after_secs as int,
            },
            SubscribeStep::Post { request } => SubscribeStepView::Post { request: request@ },
            SubscribeStep::Repost { after_secs } => SubscribeStepView::Repost {
                after_secs: *after_secs as int,
            },
            SubscribeStep::Subscribed => SubscribeStepView::Subscribed,
            SubscribeStep::Skipped { status } => SubscribeStepView::Skipped { status: *status },
            SubscribeStep::Restart { code } => SubscribeStepView::Restart { code: *code },
        }
    }
}

/// The state of the subscriber, as plain mathematical values.
pub struct SubscriberView {
    /// The broadcaster whose subscription is under way.
    pub current: Option<u32>,
    /// How many times the request under way did not get through.
    pub failures: nat,
    /// Whether Twitch has refused the token, after which nothing is posted.
    pub stopped: bool,
}

/// The state and the step when the broadcaster `id` is taken up while the
/// session has the id `session_id`: nothing is posted while the id is empty.
pub open spec fn after_id(
    state: SubscriberView,
    id: u32,
    session_id: Seq<char>,
    api_url: Seq<char>,
    token: Seq<char>,
    client_id: Seq<char>,
) -> (SubscriberView, SubscribeStepView) {
    if session_id.len() == 0 {
        (state, SubscribeStepView::AwaitSession { after_secs: SESSION_POLL_SECS as int })
    } else {
        (
            SubscriberView { current: Some(id), failures: 0, ..state },
            SubscribeStepView::Post {
                request: subscribe_request(api_url, id, session_id, token, client_id),
            },
        )
    }
}

/// The state and the step after the request did not get through: the same
/// request is sent again after a sleep that the backoff schedule gives.
pub open spec fn after_post_error(state: SubscriberView) -> (SubscriberView, SubscribeStepView) {
    (
        SubscriberView { failures: state.failures + 1, ..state },
        SubscribeStepView::Repost { after_secs: wait_after(state.failures + 1) },
    )
}

/// The state and the step after Twitch has answered the request with
/// `status`.
pub open spec fn after_post_status(state: SubscriberView, status: u16) -> (
    SubscriberView,
    SubscribeStepView,
) {
    if status == 401 {
        (
            SubscriberView { current: None, stopped: true, ..state },
            SubscribeStepView::Restart { code: RestartCode::CredentialFault },
        )
    } else if status == 202 {
        (SubscriberView { current: None, ..state }, SubscribeStepView::Subscribed)
    } else {
        (SubscriberView { current: None, ..state }, SubscribeStepView::Skipped { status: status })
    }
}

/// The subscriber: it posts one subscription for each broadcaster id that it
/// is given, one after the other.
pub struct Subscriber {
    current: Option<u32>,
    backoff: Backoff,
    stopped: bool,
}

impl View for Subscriber {
    type V = SubscriberView;

    closed spec fn view(&self) -> SubscriberView {
        SubscriberView {
            current: self.current,
            failures: self.backoff.failures(),
            stopped: self.stopped,
        }
    }
}

impl Subscriber {
    /// A subscriber that has posted nothing.
    pub fn new() -> (subscriber: Self)
        ensures
            subscriber@ == (SubscriberView { current: None, failures: 0, stopped: false }),
    {
        Subscriber { current: None, backoff: Backoff::new(), stopped: false }
    }

    /// Whether the subscriber is ready for the next broadcaster: no request
    /// is under way and Twitch has not refused the token.
    pub fn is_ready(&self) -> (ready: bool)
        ensures
            ready == (self@.current is None && !self@.stopped),
    {
        self.current.is_none() && !self.stopped
    }

    /// The broadcaster whose subscription is under way, if there is one.
    pub fn current(&self) -> (current: Option<u32>)
        ensures
            current == self@.current,
    {
        self.current
    }

    /// Whether Twitch has refused the token, after which nothing is posted.
    pub fn is_stopped(&self) -> (stopped: bool)
        ensures
            stopped == self@.stopped,
    {
        self.stopped
    }

    /// Takes up the broadcaster `id`. `session_id` is the id of the session
    /// as the reader has made it known, empty while it has not.
    ///
    /// While the session has no id nothing is posted: the step is to sleep
    /// and to take the broadcaster up again. Else the step is to post the
    /// subscription.
    pub fn subscribe(
        &mut self,
        id: u32,
        session_id: &str,
        api_url: &str,
        token: &str,
        client_id: &str,
    ) -> (step: SubscribeStep)
        requires
            old(self)@.current is None,
            !old(self)@.stopped,
        ensures
            (final(self)@, step@) == after_id(
                old(self)@,
                id,
                session_id@,
                api_url@,
                token@,
                client_id@,
            ),
            step is Post ==> session_id@.len() > 0,
    {
        if session_id.is_empty() {
            return SubscribeStep::AwaitSession { after_secs: SESSION_POLL_SECS };
        }
        self.current = Some(id);
        self.backoff = Backoff::new();
        let request = ApiRequest {
            method: Method::Post,
            url: String::from_str(api_url),
            query: Vec::new(),
            bearer: String::from_str(token),
            client_id: String::from_str(client_id),
            json: Some(SubscriptionBody::new_live_sub(id, String::from_str(session_id))),
        };
        assert(request@.query =~= Seq::<(Seq<char>, Seq<char>)>::empty());
        SubscribeStep::Post { request }
    }

    /// The request did not get through.
    pub fn on_network_error(&mut self) -> (step: SubscribeStep)
        requires
            old(self)@.current is Some,
        ensures
            (final(self)@, step@) == after_post_error(old(self)@),
    {
        let after_secs: u64 = self.backoff.fail();
        SubscribeStep::Repost { after_secs }
    }

    /// Twitch has answered the request with `status`: 202 means subscribed,
    /// 401 raises the credential fault and ends the subscribing, and after
    /// any other status the broadcaster is passed over.
    pub fn on_status(&mut self, status: u16) -> (step: SubscribeStep)
        requires
            old(self)@.current is Some,
        ensures
            (final(self)@, step@) == after_post_status(old(self)@, status),
    {
        self.current = None;
        if status == 401 {
            self.stopped = true;
            SubscribeStep::Restart { code: RestartCode::CredentialFault }
        } else if status == 202 {
            SubscribeStep::Subscribed
        } else {
            SubscribeStep::Skipped { status }
        }
    }
}

/// The sleeps between the attempts to dial the configured address, and those
/// between the attempts to post one subscription, are those of the backoff
/// schedule: the sleep after the failure number `failures + 1` is the entry
/// number `failures` of the schedule.
pub proof fn law_session_backs_off(reader: SessionView, subscriber: SubscriberView)
    requires
        reader.phase == SessionPhase::Dialing,
    ensures
        after_dial(reader, false).1 == (SocketStepView::Redial {
            after_secs: sleeps(reader.failures + 1)[reader.failures as int],
            url: reader.url,
        }),
        after_dial(reader, false).0 == (SessionView { failures: reader.failures + 1, ..reader }),
        after_post_error(subscriber).1 == (SubscribeStepView::Repost {
            after_secs: sleeps(subscriber.failures + 1)[subscriber.failures as int],
        }),
        after_post_error(subscriber).0 == (SubscriberView {
            failures: subscriber.failures + 1,
            ..subscriber
        }),
{
}

/// The id of the session after the reader has handled `frames` in order,
/// starting without an id.
pub open spec fn session_id_after_all(frames: Seq<TwitchApi>) -> Seq<char>
    decreases frames.len(),
{
    if frames.len() == 0 {
        Seq::empty()
    } else {
        session_id_after(session_id_after_all(frames.drop_last()), frames.last())
    }
}

/// No subscription is posted before a welcome has named the session.
///
/// Whatever frames the reader has handled since it was started: if the
/// subscriber, given the session id that they have left, posts a
/// subscription, then one of the frames was a welcome, the id that the last
/// welcome gave is not empty, and the subscription goes over the session of
/// that id.
pub proof fn law_subscribe_after_welcome(
    frames: Seq<TwitchApi>,
    state: SubscriberView,
    id: u32,
    api_url: Seq<char>,
    token: Seq<char>,
    client_id: Seq<char>,
)
    requires
        after_id(state, id, session_id_after_all(frames), api_url, token, client_id).1 is Post,
    ensures
        exists|i: int|
            {
                &&& 0 <= i < frames.len()
                &&& is_welcome(#[trigger] frames[i])
                &&& frames[i].payload->Connection_0.session.id@.len() > 0
                &&& forall|j: int| i < j < frames.len() ==> !is_welcome(#[trigger] frames[j])
                &&& after_id(
                    state,
                    id,
                    session_id_after_all(frames),
                    api_url,
                    token,
                    client_id,
                ).1->Post_request.json == Some(
                    live_sub(id, frames[i].payload->Connection_0.session.id@),
                )
            },
{
    lemma_named_by_last_welcome(frames);
}

/// A session id that is not empty is the one that the last welcome among the
/// frames gave.
proof fn lemma_named_by_last_welcome(frames: Seq<TwitchApi>)
    ensures
        session_id_after_all(frames).len() > 0 ==> exists|i: int|
            {
                &&& 0 <= i < frames.len()
                &&& is_welcome(#[trigger] frames[i])
                &&& frames[i].payload->Connection_0.session.id@ == session_id_after_all(frames)
                &&& forall|j: int| i < j < frames.len() ==> !is_welcome(#[trigger] frames[j])
            },
    decreases frames.len(),
{
    if frames.len() > 0 && session_id_after_all(frames).len() > 0 {
        let front = frames.drop_last();
        if is_welcome(frames.last()) {
            let i = frames.len() - 1;
            assert(is_welcome(frames[i]));
        } else {
            lemma_named_by_last_welcome(front);
            let i = choose|i: int|
                {
                    &&& 0 <= i < front.len()
                    &&& is_welcome(#[trigger] front[i])
                    &&& front[i].payload->Connection_0.session.id@ == session_id_after_all(front)
                    &&& forall|j: int| i < j < front.len() ==> !is_welcome(#[trigger] front[j])
                };
            assert(frames[i] == front[i]);
            assert forall|j: int| i < j < frames.len() implies !is_welcome(
                #[trigger] frames[j],
            ) by {
                if j < front.len() {
                    assert(frames[j] == front[j]);
                }
            }
        }
    }
}

} // verus!
