use stream_cave::request::Method;
use stream_cave::supervisor::RestartCode;
use stream_cave::twitch_socket::api_structs::{
    Condition, ConnectionPayload, EventType, MessageType, NotificationMetadata,
    NotificationPayload, ReplyMetadata, RevocationPayload, SubscriptionBody, SubscriptionStatus,
    Transport, TwitchApi, WebsocketConnectionStatus, WebsocketEvent, WebsocketMetadata,
    WebsocketPayload, WebsocketSession, WebsocketSubscription,
};
use stream_cave::twitch_socket::{
    Fault, Notice, Session, SessionPhase, SocketMessage, SocketStep, SubscribeStep, Subscriber,
    IDLE_TIMEOUT_SECS, SESSION_POLL_SECS,
};

const WEBSOCKET_URL: &str = "ws://127.0.0.1:3200/ws";
const API_URL: &str = "http://localhost:3200/eventsub/subscriptions";

fn reply(message_type: MessageType, payload: WebsocketPayload) -> TwitchApi {
    TwitchApi {
        metadata: WebsocketMetadata::Reply(ReplyMetadata {
            message_id: String::from("96a3f3b5-5dec-4eed-908e-e11ee657416c"),
            message_type,
            message_timestamp: String::from("2023-07-19T14:56:51.634234626Z"),
        }),
        payload,
    }
}

fn notice(message_type: MessageType, payload: WebsocketPayload) -> TwitchApi {
    TwitchApi {
        metadata: WebsocketMetadata::Notification(NotificationMetadata {
            message_id: String::from("befa7b53-d79d-478f-86b9-120f112b044e"),
            message_type,
            message_timestamp: String::from("2022-11-16T10:11:12.464757833Z"),
            subscription_type: String::from("stream.online"),
            subscription_version: String::from("1"),
        }),
        payload,
    }
}

fn session(id: &str, reconnect_url: Option<&str>) -> WebsocketPayload {
    WebsocketPayload::Connection(ConnectionPayload {
        session: WebsocketSession {
            id: id.to_string(),
            status: if reconnect_url.is_some() {
                WebsocketConnectionStatus::Reconnecting
            } else {
                WebsocketConnectionStatus::Connected
            },
            connected_at: String::from("2023-07-19T14:56:51.616329898Z"),
            keepalive_timeout_seconds: Some(10),
            reconnect_url: reconnect_url.map(|url| url.to_string()),
        },
    })
}

fn subscription(kind: &str, status: SubscriptionStatus) -> WebsocketSubscription {
    WebsocketSubscription {
        id: String::from("f1c2a387-161a-49f9-a165-0f21d7a4e1c4"),
        subscritpion_type: kind.to_string(),
        version: String::from("1"),
        status,
        cost: 0,
        condition: Condition { broadcaster_user_id: String::from("30423375") },
        transport: Transport {
            method: String::from("websocket"),
            session_id: String::from("AgoQHR3s"),
        },
        created_at: String::from("2023-07-19T14:56:51.616329898Z"),
    }
}

fn online(kind: &str, event_type: EventType, login: &str) -> WebsocketPayload {
    WebsocketPayload::Notification(NotificationPayload {
        subscription: subscription(kind, SubscriptionStatus::Enabled),
        event: WebsocketEvent {
            id: String::from("9001"),
            broadcaster_user_id: String::from("30423375"),
            broadcaster_user_login: login.to_string(),
            broadcaster_user_name: String::from("TestBroadcaster"),
            event_type,
            started_at: String::from("2023-07-19T14:56:51Z"),
        },
    })
}

fn revoked(status: SubscriptionStatus) -> WebsocketPayload {
    WebsocketPayload::Revocation(RevocationPayload {
        subscription: subscription("stream.online", status),
    })
}

fn operational() -> Session {
    let (mut reader, _) = Session::new(WEBSOCKET_URL);
    reader.on_dial(true);
    reader.on_frame(&reply(MessageType::SessionWelcome, session("AgoQHR3s", None)));
    assert_eq!(reader.phase(), SessionPhase::Operational);
    reader
}

#[test]
fn recieve_and_send() {
    let (mut reader, first) = Session::new(WEBSOCKET_URL);
    assert_eq!(first, SocketStep::Dial { url: String::from(WEBSOCKET_URL) });
    let mut subscriber = Subscriber::new();

    // The id is there before the session is named: nothing is posted.
    let waiting =
        subscriber.subscribe(30_423_375, reader.session_id().as_str(), API_URL, "", "AAAA");
    assert!(matches!(waiting, SubscribeStep::AwaitSession { after_secs: 1 }));

    assert_eq!(reader.on_dial(true), SocketStep::Read { within_secs: 15 });
    let welcome = reply(MessageType::SessionWelcome, session("e411cc1e", None));
    assert_eq!(
        reader.on_frame(&welcome),
        SocketStep::Welcome { session_id: String::from("e411cc1e") }
    );

    let posted =
        subscriber.subscribe(30_423_375, reader.session_id().as_str(), API_URL, "", "AAAA");
    match posted {
        SubscribeStep::Post { request } => {
            assert_eq!(request.method, Method::Post);
            assert_eq!(request.url, API_URL);
            assert_eq!(request.bearer, "");
            assert_eq!(request.client_id, "AAAA");
            let body = request.json.unwrap();
            assert_eq!(body.condition.broadcaster_user_id, "30423375");
            assert_eq!(body.transport.session_id, "e411cc1e");
        }
        other => panic!("unexpected step {other:?}"),
    }
    assert!(matches!(subscriber.on_status(202), SubscribeStep::Subscribed));

    let event = notice(
        MessageType::Notification,
        online("stream.online", EventType::Live, "testBroadcaster"),
    );
    assert_eq!(
        reader.on_frame(&event),
        SocketStep::Emit { login: String::from("testBroadcaster") }
    );
}

#[test]
fn the_timeouts_are_those_of_the_protocol() {
    assert_eq!(IDLE_TIMEOUT_SECS, 15);
    assert_eq!(SESSION_POLL_SECS, 1);
}

#[test]
fn a_subscription_body_names_the_event_and_the_session() {
    let body = SubscriptionBody::new_live_sub(641_972_806, String::from("AgoQHR3s"));
    assert_eq!(body.subscritpion_type, "stream.online");
    assert_eq!(body.version, "1");
    assert_eq!(body.condition.broadcaster_user_id, "641972806");
    assert_eq!(body.transport.method, "websocket");
    assert_eq!(body.transport.session_id, "AgoQHR3s");
    let body = SubscriptionBody::new_live_sub(0, String::new());
    assert_eq!(body.condition.broadcaster_user_id, "0");
    let body = SubscriptionBody::new_live_sub(u32::MAX, String::new());
    assert_eq!(body.condition.broadcaster_user_id, "4294967295");
}

#[test]
fn dialing_is_tried_again_with_longer_and_longer_sleeps() {
    let (mut reader, _) = Session::new(WEBSOCKET_URL);
    assert_eq!(reader.phase(), SessionPhase::Dialing);
    let mut slept = Vec::new();
    for _ in 0..9 {
        match reader.on_dial(false) {
            SocketStep::Redial { after_secs, url } => {
                assert_eq!(url, WEBSOCKET_URL);
                slept.push(after_secs);
            }
            other => panic!("unexpected step {other:?}"),
        }
        assert_eq!(reader.phase(), SessionPhase::Dialing);
    }
    assert_eq!(slept, vec![2, 4, 8, 16, 32, 64, 128, 180, 180]);
    assert_eq!(reader.on_dial(true), SocketStep::Read { within_secs: 15 });
    assert_eq!(reader.phase(), SessionPhase::AwaitingWelcome);
    assert_eq!(reader.session_id(), "");
}

#[test]
fn the_first_frame_has_to_be_the_welcome() {
    let others = vec![
        reply(MessageType::SessionKeepalive, WebsocketPayload::KeepAlive {}),
        reply(MessageType::SessionWelcome, WebsocketPayload::KeepAlive {}),
        reply(MessageType::SessionReconnect, session("AgoQHR3s", Some("wss://other"))),
        notice(MessageType::SessionWelcome, session("AgoQHR3s", None)),
        notice(MessageType::Notification, online("stream.online", EventType::Live, "kaicenat")),
        notice(MessageType::Revocation, revoked(SubscriptionStatus::AuthorizationRevoked)),
    ];
    for frame in others {
        let (mut reader, _) = Session::new(WEBSOCKET_URL);
        reader.on_dial(true);
        assert_eq!(reader.on_frame(&frame), SocketStep::Restart { code: RestartCode::Transient });
        assert_eq!(reader.phase(), SessionPhase::Ended);
        assert_eq!(reader.session_id(), "");
    }
    for message in [SocketMessage::Ping, SocketMessage::Pong, SocketMessage::Close] {
        let (mut reader, _) = Session::new(WEBSOCKET_URL);
        reader.on_dial(true);
        assert_eq!(reader.on_message(message), SocketStep::Restart { code: RestartCode::Transient });
        assert_eq!(reader.phase(), SessionPhase::Ended);
    }
    let (mut reader, _) = Session::new(WEBSOCKET_URL);
    reader.on_dial(true);
    assert_eq!(
        reader.on_message(SocketMessage::Binary(vec![0xff])),
        SocketStep::Restart { code: RestartCode::Transient }
    );
}

#[test]
fn the_welcome_names_the_session() {
    let (mut reader, _) = Session::new(WEBSOCKET_URL);
    reader.on_dial(true);
    let step = reader.on_frame(&reply(MessageType::SessionWelcome, session("AgoQHR3s", None)));
    assert_eq!(step, SocketStep::Welcome { session_id: String::from("AgoQHR3s") });
    assert_eq!(reader.phase(), SessionPhase::Operational);
    assert_eq!(reader.session_id(), "AgoQHR3s");
    // A later welcome names the session anew.
    let step = reader.on_frame(&reply(MessageType::SessionWelcome, session("other", None)));
    assert_eq!(step, SocketStep::Welcome { session_id: String::from("other") });
    assert_eq!(reader.session_id(), "other");
}

#[test]
fn a_text_is_parsed_and_other_messages_only_show_life() {
    let mut reader = operational();
    assert_eq!(
        reader.on_message(SocketMessage::Text(String::from("{\"metadata\":{}}"))),
        SocketStep::Parse { text: String::from("{\"metadata\":{}}") }
    );
    for message in [SocketMessage::Ping, SocketMessage::Pong, SocketMessage::Close] {
        assert_eq!(reader.on_message(message), SocketStep::Read { within_secs: 15 });
        assert_eq!(reader.phase(), SessionPhase::Operational);
    }
}

#[test]
fn bytes_are_parsed_where_they_are_text() {
    let mut reader = operational();
    let bytes = "{\"grüße\":\"日本\"}".as_bytes().to_vec();
    assert_eq!(
        reader.on_message(SocketMessage::Binary(bytes.clone())),
        SocketStep::Parse { text: String::from("{\"grüße\":\"日本\"}") }
    );
    assert_eq!(
        reader.on_message(SocketMessage::Frame(bytes)),
        SocketStep::Parse { text: String::from("{\"grüße\":\"日本\"}") }
    );
    assert_eq!(reader.on_message(SocketMessage::Binary(Vec::new())), SocketStep::Parse { text: String::new() });
    assert_eq!(reader.phase(), SessionPhase::Operational);
    assert_eq!(reader.on_message(SocketMessage::Binary(vec![b'{', 0xc3, 0x28, b'}'])), SocketStep::Stop);
    assert_eq!(reader.phase(), SessionPhase::Ended);
}

#[test]
fn a_keepalive_changes_nothing() {
    let mut reader = operational();
    let step = reader.on_frame(&reply(MessageType::SessionKeepalive, WebsocketPayload::KeepAlive {}));
    assert_eq!(step, SocketStep::Read { within_secs: 15 });
    assert_eq!(reader.phase(), SessionPhase::Operational);
    assert_eq!(reader.session_id(), "AgoQHR3s");
}

#[test]
fn a_reconnect_has_the_new_address_dialled() {
    let mut reader = operational();
    let frame = reply(
        MessageType::SessionReconnect,
        session("AgoQHR3s", Some("wss://eventsub.wss.twitch.tv?token=abc")),
    );
    assert_eq!(
        reader.on_frame(&frame),
        SocketStep::Dial { url: String::from("wss://eventsub.wss.twitch.tv?token=abc") }
    );
    assert_eq!(reader.phase(), SessionPhase::Reconnecting);
    assert_eq!(reader.on_dial(true), SocketStep::Read { within_secs: 15 });
    assert_eq!(reader.phase(), SessionPhase::Operational);
    assert_eq!(reader.session_id(), "AgoQHR3s");
}

#[test]
fn a_reconnect_that_fails_gives_the_session_up() {
    let mut reader = operational();
    let frame = reply(MessageType::SessionReconnect, session("AgoQHR3s", Some("wss://other")));
    reader.on_frame(&frame);
    assert_eq!(reader.on_dial(false), SocketStep::Restart { code: RestartCode::Transient });
    assert_eq!(reader.phase(), SessionPhase::Ended);
}

#[test]
fn a_reconnect_without_an_address_is_fatal() {
    let mut reader = operational();
    let frame = reply(MessageType::SessionReconnect, session("AgoQHR3s", None));
    assert_eq!(reader.on_frame(&frame), SocketStep::Fail { fault: Fault::MissingReconnectUrl });
    assert_eq!(reader.phase(), SessionPhase::Ended);
}

#[test]
fn only_a_live_stream_online_is_handed_on() {
    let mut reader = operational();
    let live = notice(MessageType::Notification, online("stream.online", EventType::Live, "kaicenat"));
    assert_eq!(reader.on_frame(&live), SocketStep::Emit { login: String::from("kaicenat") });
    for event_type in [EventType::Playlist, EventType::WatchParty, EventType::Premiere, EventType::Rerun] {
        let frame = notice(MessageType::Notification, online("stream.online", event_type, "kaicenat"));
        assert_eq!(reader.on_frame(&frame), SocketStep::Read { within_secs: 15 });
    }
    let offline = notice(MessageType::Notification, online("stream.offline", EventType::Live, "kaicenat"));
    assert_eq!(reader.on_frame(&offline), SocketStep::Read { within_secs: 15 });
    assert_eq!(reader.phase(), SessionPhase::Operational);
}

#[test]
fn the_revocation_of_the_authorization_raises_the_credential_fault() {
    let mut reader = operational();
    let frame = notice(MessageType::Revocation, revoked(SubscriptionStatus::AuthorizationRevoked));
    assert_eq!(reader.on_frame(&frame), SocketStep::Restart { code: RestartCode::CredentialFault });
    assert_eq!(reader.phase(), SessionPhase::Ended);
}

#[test]
fn other_revocations_are_reported() {
    let mut reader = operational();
    let frame = notice(MessageType::Revocation, revoked(SubscriptionStatus::UserRemoved));
    assert_eq!(reader.on_frame(&frame), SocketStep::Report { notice: Notice::UserRemoved });
    let frame = notice(MessageType::Revocation, revoked(SubscriptionStatus::VersionRemoved));
    assert_eq!(reader.on_frame(&frame), SocketStep::Report { notice: Notice::VersionRemoved });
    let frame = notice(MessageType::Revocation, revoked(SubscriptionStatus::Enabled));
    assert_eq!(reader.on_frame(&frame), SocketStep::Read { within_secs: 15 });
    assert_eq!(reader.phase(), SessionPhase::Operational);
}

#[test]
fn frames_that_do_not_fit_are_reported() {
    let mut reader = operational();
    let unexpected_payload = SocketStep::Report { notice: Notice::UnexpectedPayload };
    let unexpected_type = SocketStep::Report { notice: Notice::UnexpectedType };
    let frame = reply(MessageType::SessionWelcome, WebsocketPayload::KeepAlive {});
    assert_eq!(reader.on_frame(&frame), unexpected_payload);
    let frame = reply(MessageType::SessionReconnect, revoked(SubscriptionStatus::Enabled));
    assert_eq!(reader.on_frame(&frame), unexpected_payload);
    let frame = notice(MessageType::Notification, session("x", None));
    assert_eq!(reader.on_frame(&frame), unexpected_payload);
    let frame = notice(MessageType::Revocation, online("stream.online", EventType::Live, "k"));
    assert_eq!(reader.on_frame(&frame), unexpected_payload);
    let frame = reply(MessageType::Notification, online("stream.online", EventType::Live, "k"));
    assert_eq!(reader.on_frame(&frame), unexpected_type);
    let frame = reply(MessageType::Revocation, revoked(SubscriptionStatus::AuthorizationRevoked));
    assert_eq!(reader.on_frame(&frame), unexpected_type);
    let frame = notice(MessageType::SessionWelcome, session("x", None));
    assert_eq!(reader.on_frame(&frame), unexpected_type);
    let frame = notice(MessageType::SessionKeepalive, WebsocketPayload::KeepAlive {});
    assert_eq!(reader.on_frame(&frame), unexpected_type);
    let frame = notice(MessageType::SessionReconnect, session("x", Some("wss://other")));
    assert_eq!(reader.on_frame(&frame), unexpected_type);
    assert_eq!(reader.phase(), SessionPhase::Operational);
    assert_eq!(reader.session_id(), "AgoQHR3s");
}

#[test]
fn silence_gives_the_session_up() {
    let mut reader = operational();
    assert_eq!(reader.on_silence(), SocketStep::Restart { code: RestartCode::Transient });
    assert_eq!(reader.phase(), SessionPhase::Ended);
    let (mut reader, _) = Session::new(WEBSOCKET_URL);
    reader.on_dial(true);
    assert_eq!(reader.on_silence(), SocketStep::Restart { code: RestartCode::Transient });
}

#[test]
fn nothing_is_posted_before_the_session_is_named() {
    let (mut reader, _) = Session::new(WEBSOCKET_URL);
    let mut subscriber = Subscriber::new();
    reader.on_dial(false);
    reader.on_dial(true);
    for _ in 0..3 {
        let step =
            subscriber.subscribe(641_972_806, reader.session_id().as_str(), API_URL, "secret", "client");
        assert!(matches!(step, SubscribeStep::AwaitSession { after_secs: 1 }));
        assert!(subscriber.is_ready());
    }
    reader.on_frame(&reply(MessageType::SessionWelcome, session("AgoQHR3s", None)));
    let step =
        subscriber.subscribe(641_972_806, reader.session_id().as_str(), API_URL, "secret", "client");
    match step {
        SubscribeStep::Post { request } => {
            assert_eq!(request.json.as_ref().unwrap().transport.session_id, "AgoQHR3s");
            assert_eq!(
                request.headers(),
                vec![
                    (String::from("Authorization"), String::from("Bearer secret")),
                    (String::from("Client-Id"), String::from("client")),
                    (String::from("Content-Type"), String::from("application/json")),
                ]
            );
            assert!(request.query.is_empty());
        }
        other => panic!("unexpected step {other:?}"),
    }
    assert!(!subscriber.is_ready());
}

#[test]
fn a_subscription_that_does_not_get_through_is_sent_again() {
    let mut subscriber = Subscriber::new();
    subscriber.subscribe(1, "AgoQHR3s", API_URL, "secret", "client");
    let mut slept = Vec::new();
    for _ in 0..9 {
        match subscriber.on_network_error() {
            SubscribeStep::Repost { after_secs } => slept.push(after_secs),
            other => panic!("unexpected step {other:?}"),
        }
        assert!(!subscriber.is_ready());
    }
    assert_eq!(slept, vec![2, 4, 8, 16, 32, 64, 128, 180, 180]);
    assert!(matches!(subscriber.on_status(202), SubscribeStep::Subscribed));
    assert!(subscriber.is_ready());
    subscriber.subscribe(2, "AgoQHR3s", API_URL, "secret", "client");
    assert!(matches!(subscriber.on_network_error(), SubscribeStep::Repost { after_secs: 2 }));
}

#[test]
fn a_refused_token_ends_the_subscribing() {
    let mut subscriber = Subscriber::new();
    subscriber.subscribe(1, "AgoQHR3s", API_URL, "secret", "client");
    assert!(matches!(
        subscriber.on_status(401),
        SubscribeStep::Restart { code: RestartCode::CredentialFault }
    ));
    assert!(!subscriber.is_ready());
}

#[test]
fn any_other_status_passes_the_broadcaster_over() {
    for status in [0u16, 200, 201, 400, 403, 409, 429, 500, u16::MAX] {
        let mut subscriber = Subscriber::new();
        subscriber.subscribe(1, "AgoQHR3s", API_URL, "secret", "client");
        match subscriber.on_status(status) {
            SubscribeStep::Skipped { status: reported } => assert_eq!(reported, status),
            other => panic!("unexpected step {other:?}"),
        }
        assert!(subscriber.is_ready());
    }
}
