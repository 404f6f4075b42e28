use vstd::prelude::*;
use std::ops::ControlFlow;
use crate::models::{BibeMsg, SocketAddress};
use crate::ws::{process_message, WsMessage};

verus! {

/// Where the server's websocket session with one client stands.
#[derive(Debug, PartialEq, Eq, Clone, Copy, Structural)]
pub enum Session {
    /// A ping is being sent to the client at `peer`.
    Greeting { peer: SocketAddress },
    /// The client's first message is awaited.
    AwaitingHello { peer: SocketAddress },
    /// The server is subscribing to the broadcast channel for the client.
    Joining { peer: SocketAddress },
    /// The client is online: messages are relayed both ways.
    Live { peer: SocketAddress },
    /// The connection is over.
    Closed,
}

/// What happened on the connection.
#[derive(Debug, Clone)]
pub enum SessionEvent {
    PingSent,
    PingFailed,
    /// The client's first message arrived.
    Hello { message: WsMessage },
    /// The client's stream ended before it sent anything.
    StreamEnded,
    ReceiveFailed,
    /// The subscription to the broadcast channel is in place.
    Subscribed,
    /// The relaying in one direction has stopped.
    TasksEnded,
}

/// What the server does next.
#[derive(Debug, Clone)]
pub enum SessionAction {
    /// Send a ping carrying `payload`.
    SendPing { payload: Vec<u8> },
    /// Wait for the client's first message.
    Receive,
    /// Subscribe to the broadcast channel, so that the client will also
    /// receive its own announcement.
    Subscribe,
    /// Broadcast `announcement`, and start relaying in both directions.
    Join { announcement: BibeMsg },
    /// Stop relaying, broadcast `announcement` and drop the connection.
    Leave { announcement: BibeMsg },
    /// Drop the connection.
    Close,
    /// Nothing: the event does not belong to this stage.
    Wait,
}

/// One step of a session: for a client whose ping went out and who did not
/// close the connection in its first message (or sent none), the server
/// subscribes to the broadcast channel and then announces the client online; when relaying stops it is announced offline. A failed ping, a
/// failed read or a close message before that ends the session without any
/// announcement. An event that does not belong to the current stage changes
/// nothing.
pub open spec fn session_step(s: Session, e: SessionEvent) -> (Session, SessionAction) {
    match s {
        Session::Greeting { peer } => match e {
            SessionEvent::PingSent => (Session::AwaitingHello { peer }, SessionAction::Receive),
            SessionEvent::PingFailed => (Session::Closed, SessionAction::Close),
            _ => (s, SessionAction::Wait),
        },
        Session::AwaitingHello { peer } => match e {
            SessionEvent::Hello { message } => if message is Close {
                (Session::Closed, SessionAction::Close)
            } else {
                (Session::Joining { peer }, SessionAction::Subscribe)
            },
            SessionEvent::StreamEnded => (Session::Joining { peer }, SessionAction::Subscribe),
            SessionEvent::ReceiveFailed => (Session::Closed, SessionAction::Close),
            _ => (s, SessionAction::Wait),
        },
        Session::Joining { peer } => match e {
            SessionEvent::Subscribed => (
                Session::Live { peer },
                SessionAction::Join { announcement: BibeMsg::SwitchBikeOnline { socket_address: peer } },
            ),
            _ => (s, SessionAction::Wait),
        },
        Session::Live { peer } => match e {
            SessionEvent::TasksEnded => (
                Session::Closed,
                SessionAction::Leave { announcement: BibeMsg::SwitchBikeOffline { socket_address: peer } },
            ),
            _ => (s, SessionAction::Wait),
        },
        Session::Closed => (Session::Closed, SessionAction::Wait),
    }
}

/// Whether `e` can be handed to a session: a first message is never a raw
/// frame.
pub open spec fn well_formed_event(e: SessionEvent) -> bool {
    e matches SessionEvent::Hello { message } ==> !(message is Frame)
}

/// The states and actions a session goes through on `events`.
pub open spec fn session_run(s: Session, events: Seq<SessionEvent>) -> (Session, Seq<SessionAction>)
    decreases events.len(),
{
    if events.len() == 0 {
        (s, Seq::empty())
    } else {
        let (next, action) = session_step(s, events[0]);
        let (last, rest) = session_run(next, events.drop_first());
        (last, seq![action] + rest)
    }
}

/// How many times `actions` announce a client online.
pub open spec fn joins(actions: Seq<SessionAction>) -> nat
    decreases actions.len(),
{
    if actions.len() == 0 {
        0
    } else {
        (if actions[0] is Join { 1nat } else { 0nat }) + joins(actions.drop_first())
    }
}

/// How many times `actions` announce a client offline.
pub open spec fn leaves(actions: Seq<SessionAction>) -> nat
    decreases actions.len(),
{
    if actions.len() == 0 {
        0
    } else {
        (if actions[0] is Leave { 1nat } else { 0nat }) + leaves(actions.drop_first())
    }
}

/// Every announcement in `actions` is about the client at `peer`.
pub open spec fn announces_only(actions: Seq<SessionAction>, peer: SocketAddress) -> bool {
    forall|i: int|
        0 <= i < actions.len() ==> {
            &&& (#[trigger] actions[i] matches SessionAction::Join { announcement } ==> announcement
                == (BibeMsg::SwitchBikeOnline { socket_address: peer }))
            &&& (actions[i] matches SessionAction::Leave { announcement } ==> announcement
                == (BibeMsg::SwitchBikeOffline { socket_address: peer }))
        }
}

/// `s` is a session with the client at `peer`, or a closed one.
pub open spec fn belongs_to(s: Session, peer: SocketAddress) -> bool {
    match s {
        Session::Greeting { peer: p } => p == peer,
        Session::AwaitingHello { peer: p } => p == peer,
        Session::Joining { peer: p } => p == peer,
        Session::Live { peer: p } => p == peer,
        Session::Closed => true,
    }
}

/// 1 while the client is online, else 0.
pub open spec fn online(s: Session) -> nat {
    if s is Live { 1 } else { 0 }
}

/// 1 while the client can still be announced online, else 0.
pub open spec fn may_join(s: Session) -> nat {
    if s is Greeting || s is AwaitingHello || s is Joining { 1 } else { 0 }
}

/// The announcements of a run, from any state: they all name the session's
/// client, every offline announcement is matched by an earlier online one
/// (or by the client being online at the start), and the client is
/// announced online at most once.
pub proof fn lemma_session_run_announcements(s: Session, events: Seq<SessionEvent>, peer: SocketAddress)
    requires
        belongs_to(s, peer),
    ensures
        ({
            let (last, actions) = session_run(s, events);
            &&& belongs_to(last, peer)
            &&& announces_only(actions, peer)
            &&& joins(actions) + online(s) == leaves(actions) + online(last)
            &&& joins(actions) + may_join(last) <= may_join(s)
        }),
    decreases events.len(),
{
    if events.len() > 0 {
        let (next, action) = session_step(s, events[0]);
        let (last, rest) = session_run(next, events.drop_first());
        let actions = seq![action] + rest;
        assert(session_run(s, events) == (last, actions));
        lemma_session_run_announcements(next, events.drop_first(), peer);
        assert(actions.drop_first() =~= rest);
        assert(actions[0] == action);
        assert forall|i: int| 0 < i < actions.len() implies actions[i] == rest[i - 1] by {}
    }
}

/// A session with the client at `peer`, from its opening: every announcement
/// names that client, it is announced online at most once, it is announced
/// offline only after it was announced online, and once the session is
/// closed it has been announced offline exactly as often as online.
pub proof fn lemma_session_announces_client_symmetrically(peer: SocketAddress, events: Seq<SessionEvent>)
    ensures
        ({
            let (last, actions) = session_run(Session::Greeting { peer }, events);
            &&& announces_only(actions, peer)
            &&& joins(actions) <= 1
            &&& leaves(actions) <= joins(actions)
            &&& last is Closed ==> leaves(actions) == joins(actions)
        }),
{
    lemma_session_run_announcements(Session::Greeting { peer }, events, peer);
}

/// Whether the server holds a subscription for the session's client.
pub open spec fn subscribed(s: Session) -> bool {
    s is Joining || s is Live
}

/// The server subscribes before it announces: in any run, every online
/// announcement is preceded by a subscription, unless the server was
/// already subscribed at the start.
pub proof fn lemma_subscribe_before_join(s: Session, events: Seq<SessionEvent>)
    ensures
        ({
            let (last, actions) = session_run(s, events);
            forall|i: int|
                0 <= i < actions.len() && #[trigger] actions[i] is Join ==> subscribed(s) || exists|
                    j: int,
                |
                    0 <= j < i && #[trigger] actions[j] is Subscribe
        }),
    decreases events.len(),
{
    if events.len() > 0 {
        let (next, action) = session_step(s, events[0]);
        let (last, rest) = session_run(next, events.drop_first());
        let actions = seq![action] + rest;
        assert(session_run(s, events) == (last, actions));
        lemma_subscribe_before_join(next, events.drop_first());
        assert forall|i: int|
            0 <= i < actions.len() && #[trigger] actions[i] is Join implies subscribed(s) || exists|
                j: int,
            |
                0 <= j < i && #[trigger] actions[j] is Subscribe by {
            if i == 0 {
                assert(actions[0] == action);
            } else {
                assert(actions[i] == rest[i - 1]);
                if subscribed(next) && !subscribed(s) {
                    assert(action is Subscribe);
                    assert(actions[0] is Subscribe);
                } else if !subscribed(next) {
                    let j = choose|j: int| 0 <= j < i - 1 && #[trigger] rest[j] is Subscribe;
                    assert(actions[j + 1] == rest[j]);
                }
            }
        }
    }
}

/// The client's first message decides whether it goes online: a close
/// message ends the session without any announcement, and any other message
/// (a text greeting, a ping, a pong, binary data) leads on to the
/// subscription for that same client.
pub proof fn lemma_first_message_decides(peer: SocketAddress, message: WsMessage)
    ensures
        message is Close ==> session_step(
            Session::AwaitingHello { peer },
            SessionEvent::Hello { message },
        ) == (Session::Closed, SessionAction::Close),
        !(message is Close) ==> session_step(
            Session::AwaitingHello { peer },
            SessionEvent::Hello { message },
        ) == (Session::Joining { peer }, SessionAction::Subscribe),
{
}

/// What each report moves a session to: a sent ping waits for the first
/// message and a failed one drops the connection silently; a failed read
/// drops it silently and an ended stream leads on to the subscription; once
/// subscribed the client is announced online, and when relaying stops it is
/// announced offline, each announcement naming the client's own address.
pub proof fn lemma_session_reactions(peer: SocketAddress)
    ensures
        session_step(Session::Greeting { peer }, SessionEvent::PingSent) == (
            Session::AwaitingHello { peer },
            SessionAction::Receive,
        ),
        session_step(Session::Greeting { peer }, SessionEvent::PingFailed) == (
            Session::Closed,
            SessionAction::Close,
        ),
        session_step(Session::AwaitingHello { peer }, SessionEvent::ReceiveFailed) == (
            Session::Closed,
            SessionAction::Close,
        ),
        session_step(Session::AwaitingHello { peer }, SessionEvent::StreamEnded) == (
            Session::Joining { peer },
            SessionAction::Subscribe,
        ),
        session_step(Session::Joining { peer }, SessionEvent::Subscribed) == (
            Session::Live { peer },
            SessionAction::Join { announcement: BibeMsg::SwitchBikeOnline { socket_address: peer } },
        ),
        session_step(Session::Live { peer }, SessionEvent::TasksEnded) == (
            Session::Closed,
            SessionAction::Leave { announcement: BibeMsg::SwitchBikeOffline { socket_address: peer } },
        ),
{
}

/// A closed session stays closed and does nothing more.
pub proof fn lemma_closed_is_final(e: SessionEvent)
    ensures
        session_step(Session::Closed, e) == (Session::Closed, SessionAction::Wait),
{
}

impl Session {
    /// A session with the client at `peer`, and its first action: a ping
    /// carrying the bytes 1, 2, 3.
    pub fn open(peer: SocketAddress) -> (r: (Session, SessionAction))
        ensures
            r.0 == (Session::Greeting { peer }),
            r.1 matches SessionAction::SendPing { payload } && payload@ == seq![1u8, 2u8, 3u8],
    {
        (Session::Greeting { peer }, SessionAction::SendPing { payload: vec![1u8, 2u8, 3u8] })
    }

    /// The session after `event`, and what to do next.
    pub fn step(self, event: SessionEvent) -> (r: (Session, SessionAction))
        requires
            well_formed_event(event),
        ensures
            r == session_step(self, event),
            self matches Session::AwaitingHello { peer } ==> (event matches SessionEvent::Hello {
                message,
            } ==> r == (if message is Close {
                (Session::Closed, SessionAction::Close)
            } else {
                (Session::Joining { peer }, SessionAction::Subscribe)
            })),
    {
        match self {
            Session::Greeting { peer } => match event {
                SessionEvent::PingSent => (Session::AwaitingHello { peer }, SessionAction::Receive),
                SessionEvent::PingFailed => (Session::Closed, SessionAction::Close),
                _ => (self, SessionAction::Wait),
            },
            Session::AwaitingHello { peer } => match event {
                SessionEvent::Hello { message } => {
                    let flow = process_message(&message);
                    match flow {
                        ControlFlow::Break(()) => (Session::Closed, SessionAction::Close),
                        ControlFlow::Continue(()) => (Session::Joining { peer }, SessionAction::Subscribe),
                    }
                },
                SessionEvent::StreamEnded => (Session::Joining { peer }, SessionAction::Subscribe),
                SessionEvent::ReceiveFailed => (Session::Closed, SessionAction::Close),
                _ => (self, SessionAction::Wait),
            },
            Session::Joining { peer } => match event {
                SessionEvent::Subscribed => (
                    Session::Live { peer },
                    SessionAction::Join {
                        announcement: BibeMsg::SwitchBikeOnline { socket_address: peer },
                    },
                ),
                _ => (self, SessionAction::Wait),
            },
            Session::Live { peer } => match event {
                SessionEvent::TasksEnded => (
                    Session::Closed,
                    SessionAction::Leave {
                        announcement: BibeMsg::SwitchBikeOffline { socket_address: peer },
                    },
                ),
                _ => (self, SessionAction::Wait),
            },
            Session::Closed => (Session::Closed, SessionAction::Wait),
        }
    }
}

} // verus!
