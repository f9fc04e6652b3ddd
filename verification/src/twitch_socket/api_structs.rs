//! The shapes of what Twitch sends and takes: EventSub frames, the body of a
//! subscription, and the answer of the channel search.

use crate::lookup::{first_index, lemma_first_index_is};
use crate::text::{decimal, decimal_digits};
use vstd::prelude::*;
use vstd::string::*;

verus! {

/// One frame of the EventSub WebSocket.
#[derive(Debug)]
pub struct TwitchApi {
    pub metadata: WebsocketMetadata,
    pub payload: WebsocketPayload,
}

/// The head of a frame: a notification names the subscription that it belongs
/// to, any other frame does not.
#[derive(Debug)]
pub enum WebsocketMetadata {
    Notification(NotificationMetadata),
    Reply(ReplyMetadata),
}

#[derive(Debug)]
pub struct NotificationMetadata {
    pub message_id: String,
    pub message_type: MessageType,
    pub message_timestamp: String,
    pub subscription_type: String,
    pub subscription_version: String,
}

#[derive(Debug)]
pub struct ReplyMetadata {
    pub message_id: String,
    pub message_type: MessageType,
    pub message_timestamp: String,
}

#[derive(Debug, PartialEq, Eq, Structural)]
pub enum MessageType {
    SessionWelcome,
    SessionKeepalive,
    Notification,
    SessionReconnect,
    Revocation,
}

/// The body of a frame.
#[derive(Debug)]
pub enum WebsocketPayload {
    Notification(NotificationPayload),
    Connection(ConnectionPayload),
    Revocation(RevocationPayload),
    KeepAlive {  },
}

#[derive(Debug)]
pub struct NotificationPayload {
    pub subscription: WebsocketSubscription,
    pub event: WebsocketEvent,
}

#[derive(Debug)]
pub struct ConnectionPayload {
    pub session: WebsocketSession,
}

#[derive(Debug)]
pub struct RevocationPayload {
    pub subscription: WebsocketSubscription,
}

#[derive(Debug)]
pub struct WebsocketSession {
    pub id: String,
    pub status: WebsocketConnectionStatus,
    pub connected_at: String,
    pub keepalive_timeout_seconds: Option<u32>,
    pub reconnect_url: Option<String>,
}

#[derive(Debug, PartialEq, Eq, Structural)]
pub enum WebsocketConnectionStatus {
    Connected,
    Reconnecting,
}

#[derive(Debug)]
pub struct WebsocketSubscription {
    pub id: String,
    pub subscritpion_type: String,
    pub version: String,
    pub status: SubscriptionStatus,
    pub cost: u32,
    pub condition: Condition,
    pub transport: Transport,
    pub created_at: String,
}

#[derive(Debug, PartialEq, Eq, Structural)]
pub enum SubscriptionStatus {
    Enabled,
    AuthorizationRevoked,
    UserRemoved,
    VersionRemoved,
}

#[derive(Debug)]
pub struct Condition {
    pub broadcaster_user_id: String,
}

#[derive(Debug)]
pub struct Transport {
    pub method: String,
    pub session_id: String,
}

#[derive(Debug)]
pub struct WebsocketEvent {
    pub id: String,
    pub broadcaster_user_id: String,
    pub broadcaster_user_login: String,
    pub broadcaster_user_name: String,
    pub event_type: EventType,
    pub started_at: String,
}

#[derive(Debug, PartialEq, Eq, Structural)]
pub enum EventType {
    Live,
    Playlist,
    WatchParty,
    Premiere,
    Rerun,
}

/// What is posted to subscribe to an event.
#[derive(Debug)]
pub struct SubscriptionBody {
    pub subscritpion_type: String,
    pub version: String,
    pub condition: Condition,
    pub transport: Transport,
}

/// What a [`SubscriptionBody`] holds, as plain mathematical values.
pub struct SubscriptionBodyView {
    pub subscritpion_type: Seq<char>,
    pub version: Seq<char>,
    pub broadcaster_user_id: Seq<char>,
    pub method: Seq<char>,
    pub session_id: Seq<char>,
}

impl View for SubscriptionBody {
    type V = SubscriptionBodyView;

    open spec fn view(&self) -> SubscriptionBodyView {
        SubscriptionBodyView {
            subscritpion_type: self.subscritpion_type@,
            version: self.version@,
            broadcaster_user_id: self.condition.broadcaster_user_id@,
            method: self.transport.method@,
            session_id: self.transport.session_id@,
        }
    }
}

/// The subscription to `stream.online`, version 1, of the broadcaster `id`,
/// delivered over the WebSocket session `session_id`.
pub open spec fn live_sub(id: u32, session_id: Seq<char>) -> SubscriptionBodyView {
    SubscriptionBodyView {
        subscritpion_type: "stream.online"@,
        version: "1"@,
        broadcaster_user_id: decimal_digits(id as nat),
        method: "websocket"@,
        session_id: session_id,
    }
}

impl SubscriptionBody {
    /// The body that subscribes to the broadcaster `id` going live, over the
    /// session `session_id`.
    #[must_use]
    pub fn new_live_sub(id: u32, session_id: String) -> (body: Self)
        ensures
            body@ == live_sub(id, session_id@),
    {
        SubscriptionBody {
            subscritpion_type: String::from_str("stream.online"),
            version: String::from_str("1"),
            condition: Condition { broadcaster_user_id: decimal(id as u64) },
            transport: Transport { method: String::from_str("websocket"), session_id },
        }
    }
}

/// The answer of the channel search.
#[derive(Debug)]
pub struct StreamSearch {
    pub data: Vec<SearchData>,
    pub pagination: Option<Pagination>,
}

#[derive(Debug)]
pub struct Pagination {
    pub cursor: String,
}

/// One channel that the search found.
#[derive(Debug)]
pub struct SearchData {
    pub broadcaster_language: String,
    pub broadcaster_login: String,
    pub display_name: String,
    pub game_id: String,
    pub game_name: String,
    pub id: String,
    pub tag_ids: Option<Vec<String>>,
    pub tags: Vec<String>,
    pub is_live: bool,
    pub thumbnail_url: String,
    pub title: String,
    pub started_at: String,
}

/// What the daemon reads of a channel that the search found.
pub struct SearchDataView {
    pub broadcaster_login: Seq<char>,
    pub id: Seq<char>,
    pub is_live: bool,
}

impl DeepView for SearchData {
    type V = SearchDataView;

    open spec fn deep_view(&self) -> SearchDataView {
        SearchDataView {
            broadcaster_login: self.broadcaster_login@,
            id: self.id@,
            is_live: self.is_live,
        }
    }
}

impl View for SearchData {
    type V = SearchDataView;

    open spec fn view(&self) -> SearchDataView {
        self.deep_view()
    }
}

impl View for StreamSearch {
    type V = Seq<SearchDataView>;

    open spec fn view(&self) -> Seq<SearchDataView> {
        self.data.deep_view()
    }
}

/// The position in `results` of the first channel whose login is exactly
/// `login`, or the length of `results` where there is none.
pub open spec fn channel_of(results: Seq<SearchDataView>, login: Seq<char>) -> int {
    first_index(results, |channel: SearchDataView| channel.broadcaster_login == login)
}

impl StreamSearch {
    /// The first channel of the answer whose login is exactly `login`.
    pub fn channel(&self, login: &str) -> (found: Option<&SearchData>)
        ensures
            match found {
                Some(channel) => channel_of(self@, login@) < self@.len() && channel@
                    == self@[channel_of(self@, login@)],
                None => channel_of(self@, login@) == self@.len(),
            },
    {
        let ghost channels = self@;
        let wanted = String::from_str(login);
        let mut at: usize = 0;
        while at < self.data.len()
            invariant
                at <= self.data.len(),
                channels == self@,
                wanted@ == login@,
                forall|i: int|
                    0 <= i < at ==> (#[trigger] channels[i]).broadcaster_login != login@,
            decreases self.data.len() - at,
        {
            assert(channels[at as int] == self.data[at as int]@);
            if self.data[at].broadcaster_login == wanted {
                proof {
                    let same = |channel: SearchDataView| channel.broadcaster_login == login@;
                    assert forall|i: int| 0 <= i < at implies !same(#[trigger] channels[i]) by {}
                    lemma_first_index_is(channels, same, at as int);
                }
                return Some(&self.data[at]);
            }
            at += 1;
        }
        proof {
            let same = |channel: SearchDataView| channel.broadcaster_login == login@;
            assert forall|i: int| 0 <= i < at implies !same(#[trigger] channels[i]) by {}
            lemma_first_index_is(channels, same, at as int);
        }
        None
    }
}

} // verus!
