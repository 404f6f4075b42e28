use bibe::models::{BibeMsg, SocketAddress};
use bibe::session::{Session, SessionAction, SessionEvent};
use bibe::ws::{
    client_read_flow, process_message, relay_decision, user_agent_label, CloseFrame, Relay, WsMessage, WsTransportError,
};
use std::ops::ControlFlow;

fn peer() -> SocketAddress {
    SocketAddress::V4 { ipv4: 0xc0a8_0001, port: 54321 }
}

#[test]
fn close_messages_stop_the_connection() {
    assert_eq!(process_message(&WsMessage::Close(None)), ControlFlow::Break(()));
    let frame = CloseFrame { code: 1000, reason: String::from("bye") };
    assert_eq!(process_message(&WsMessage::Close(Some(frame))), ControlFlow::Break(()));
}

#[test]
fn other_messages_continue() {
    for msg in [
        WsMessage::Text(String::from("hi")),
        WsMessage::Binary(vec![1, 2]),
        WsMessage::Ping(vec![]),
        WsMessage::Pong(vec![9]),
    ] {
        assert_eq!(process_message(&msg), ControlFlow::Continue(()));
    }
}

#[test]
fn user_agent_labels() {
    assert_eq!(user_agent_label(Some(String::from("curl/8.0"))), "curl/8.0");
    assert_eq!(user_agent_label(None), "Unknown browser");
}

#[test]
fn relay_decisions() {
    assert_eq!(relay_decision(&Some(Ok(WsMessage::Text(String::from("{}"))))), Relay::Broadcast);
    assert_eq!(relay_decision(&Some(Ok(WsMessage::Ping(vec![])))), Relay::Skip);
    assert_eq!(relay_decision(&Some(Ok(WsMessage::Pong(vec![])))), Relay::Skip);
    assert_eq!(relay_decision(&Some(Ok(WsMessage::Binary(vec![0])))), Relay::Skip);
    assert_eq!(relay_decision(&Some(Ok(WsMessage::Close(None)))), Relay::Stop);
    assert_eq!(relay_decision(&Some(Err(WsTransportError))), Relay::Stop);
    assert_eq!(relay_decision(&None), Relay::Stop);
}

fn announcements(actions: &[SessionAction]) -> Vec<BibeMsg> {
    actions
        .iter()
        .filter_map(|a| match a {
            SessionAction::Join { announcement } | SessionAction::Leave { announcement } => Some(*announcement),
            _ => None,
        })
        .collect()
}

fn run(events: Vec<SessionEvent>) -> (Session, Vec<SessionAction>) {
    let (mut session, first) = Session::open(peer());
    let mut actions = vec![first];
    for event in events {
        let (next, action) = session.step(event);
        session = next;
        actions.push(action);
    }
    (session, actions)
}

#[test]
fn session_opens_with_ping_payload() {
    let (session, action) = Session::open(peer());
    assert_eq!(session, Session::Greeting { peer: peer() });
    match action {
        SessionAction::SendPing { payload } => assert_eq!(payload, vec![1, 2, 3]),
        other => panic!("unexpected {:?}", other),
    }
}

#[test]
fn full_session_announces_online_then_offline() {
    let (session, actions) = run(vec![
        SessionEvent::PingSent,
        SessionEvent::Hello { message: WsMessage::Pong(vec![1, 2, 3]) },
        SessionEvent::Subscribed,
        SessionEvent::TasksEnded,
    ]);
    assert_eq!(session, Session::Closed);
    assert_eq!(
        announcements(&actions),
        vec![
            BibeMsg::SwitchBikeOnline { socket_address: peer() },
            BibeMsg::SwitchBikeOffline { socket_address: peer() },
        ]
    );
}

#[test]
fn silent_client_still_goes_online() {
    let (session, actions) =
        run(vec![SessionEvent::PingSent, SessionEvent::StreamEnded, SessionEvent::Subscribed]);
    assert_eq!(session, Session::Live { peer: peer() });
    assert_eq!(announcements(&actions), vec![BibeMsg::SwitchBikeOnline { socket_address: peer() }]);
}

#[test]
fn early_endings_announce_nothing() {
    let endings = vec![
        vec![SessionEvent::PingFailed],
        vec![SessionEvent::PingSent, SessionEvent::ReceiveFailed],
        vec![SessionEvent::PingSent, SessionEvent::Hello { message: WsMessage::Close(None) }],
    ];
    for events in endings {
        let (session, actions) = run(events);
        assert_eq!(session, Session::Closed);
        assert!(announcements(&actions).is_empty());
        assert!(matches!(actions.last(), Some(SessionAction::Close)));
    }
}

#[test]
fn events_out_of_stage_wait() {
    let (session, actions) = run(vec![SessionEvent::TasksEnded, SessionEvent::StreamEnded]);
    assert_eq!(session, Session::Greeting { peer: peer() });
    assert!(matches!(actions[1], SessionAction::Wait));
    assert!(matches!(actions[2], SessionAction::Wait));
    let (closed, action) = Session::Closed.step(SessionEvent::PingSent);
    assert_eq!(closed, Session::Closed);
    assert!(matches!(action, SessionAction::Wait));
}

#[test]
fn client_reads_until_close_error_or_end() {
    assert_eq!(client_read_flow(&Some(Ok(WsMessage::Text(String::from("x"))))), ControlFlow::Continue(()));
    assert_eq!(client_read_flow(&Some(Ok(WsMessage::Ping(vec![1])))), ControlFlow::Continue(()));
    assert_eq!(client_read_flow(&Some(Ok(WsMessage::Close(None)))), ControlFlow::Break(()));
    assert_eq!(client_read_flow(&Some(Err(WsTransportError))), ControlFlow::Break(()));
    assert_eq!(client_read_flow(&None), ControlFlow::Break(()));
}

#[test]
fn session_subscribes_before_announcing() {
    let (session, actions) = run(vec![SessionEvent::PingSent, SessionEvent::StreamEnded]);
    assert_eq!(session, Session::Joining { peer: peer() });
    assert!(matches!(actions.last(), Some(SessionAction::Subscribe)));
    assert!(announcements(&actions).is_empty());
    let (_, early) = Session::AwaitingHello { peer: peer() }.step(SessionEvent::Subscribed);
    assert!(matches!(early, SessionAction::Wait));
}
