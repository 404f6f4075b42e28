use vstd::prelude::*;
use crate::models::BibeMsg;

verus! {

/// Seconds between two heartbeat pings on a websocket.
pub const HEARTBEAT_SECS: u64 = 5;

/// The payload of a heartbeat ping: no bytes.
pub fn heartbeat_payload() -> (r: Vec<u8>)
    ensures
        r@ == Seq::<u8>::empty(),
{
    Vec::new()
}

/// Where the sending half of a websocket connection stands.
#[derive(Debug, PartialEq, Eq, Clone, Copy, Structural)]
pub enum SendLoop {
    /// Waiting for the next heartbeat or broadcast message.
    Ready,
    /// A frame is being sent.
    Sending,
    /// A send failed; nothing more is sent.
    Stopped,
}

/// What happened to the sending half.
#[derive(Debug, PartialEq, Eq, Clone, Copy, Structural)]
pub enum SendEvent {
    /// The heartbeat interval elapsed.
    HeartbeatDue,
    /// A message arrived on the broadcast channel.
    Outgoing { message: BibeMsg },
    /// The frame went out.
    Sent,
    /// The frame could not be sent.
    SendFailed,
}

/// What the sending half does next.
#[derive(Debug, PartialEq, Eq, Clone, Copy, Structural)]
pub enum SendAction {
    /// Send a ping carrying `heartbeat_payload()`.
    SendPing,
    /// Send `message`, encoded as text.
    SendMessage { message: BibeMsg },
    /// Wait for the next heartbeat or broadcast message.
    AwaitNext,
    /// Stop sending.
    Stop,
    /// Nothing: the event does not belong to this stage.
    Wait,
}

/// One step of the sending half: each heartbeat sends a ping carrying
/// `heartbeat_payload()`, each
/// broadcast message is forwarded as it is, and the first failed send stops
/// the sending for good. An event that does not belong to the current stage
/// changes nothing.
pub open spec fn send_step(s: SendLoop, e: SendEvent) -> (SendLoop, SendAction) {
    match (s, e) {
        (SendLoop::Ready, SendEvent::HeartbeatDue) => (SendLoop::Sending, SendAction::SendPing),
        (SendLoop::Ready, SendEvent::Outgoing { message }) => (
            SendLoop::Sending,
            SendAction::SendMessage { message },
        ),
        (SendLoop::Sending, SendEvent::Sent) => (SendLoop::Ready, SendAction::AwaitNext),
        (SendLoop::Sending, SendEvent::SendFailed) => (SendLoop::Stopped, SendAction::Stop),
        _ => (s, SendAction::Wait),
    }
}

/// The states and actions the sending half goes through on `events`.
pub open spec fn send_run(s: SendLoop, events: Seq<SendEvent>) -> (SendLoop, Seq<SendAction>)
    decreases events.len(),
{
    if events.len() == 0 {
        (s, Seq::empty())
    } else {
        let (next, action) = send_step(s, events[0]);
        let (last, rest) = send_run(next, events.drop_first());
        (last, seq![action] + rest)
    }
}

/// Whether `action` puts a frame on the wire.
pub open spec fn sends(action: SendAction) -> bool {
    action is SendPing || action is SendMessage
}

/// What each report moves the sending half to: a sent frame returns it to
/// waiting, and a failed one stops it.
pub proof fn lemma_send_reactions()
    ensures
        send_step(SendLoop::Sending, SendEvent::Sent) == (SendLoop::Ready, SendAction::AwaitNext),
        send_step(SendLoop::Sending, SendEvent::SendFailed) == (SendLoop::Stopped, SendAction::Stop),
{
}

impl SendLoop {
    /// The state after `event`, and what to do next.
    pub fn step(self, event: SendEvent) -> (r: (SendLoop, SendAction))
        ensures
            r == send_step(self, event),
    {
        match (self, event) {
            (SendLoop::Ready, SendEvent::HeartbeatDue) => (SendLoop::Sending, SendAction::SendPing),
            (SendLoop::Ready, SendEvent::Outgoing { message }) => (
                SendLoop::Sending,
                SendAction::SendMessage { message },
            ),
            (SendLoop::Sending, SendEvent::Sent) => (SendLoop::Ready, SendAction::AwaitNext),
            (SendLoop::Sending, SendEvent::SendFailed) => (SendLoop::Stopped, SendAction::Stop),
            _ => (self, SendAction::Wait),
        }
    }
}

/// The sending stops only when a send failed, and a frame is put on the
/// wire only while ready, one at a time.
pub proof fn lemma_stop_only_after_failed_send(s: SendLoop, e: SendEvent)
    ensures
        send_step(s, e).1 == SendAction::Stop <==> (s == SendLoop::Sending && e == SendEvent::SendFailed),
        sends(send_step(s, e).1) ==> s == SendLoop::Ready && send_step(s, e).0 == SendLoop::Sending,
{
}

/// Once a send has failed, nothing more is ever sent.
pub proof fn lemma_nothing_sent_after_failure(events: Seq<SendEvent>)
    ensures
        ({
            let (last, actions) = send_run(SendLoop::Stopped, events);
            &&& last == SendLoop::Stopped
            &&& forall|i: int| 0 <= i < actions.len() ==> !sends(#[trigger] actions[i])
        }),
    decreases events.len(),
{
    if events.len() > 0 {
        let (last, rest) = send_run(SendLoop::Stopped, events.drop_first());
        lemma_nothing_sent_after_failure(events.drop_first());
        let actions = seq![SendAction::Wait] + rest;
        assert(send_run(SendLoop::Stopped, events) == (last, actions));
        assert forall|i: int| 0 < i < actions.len() implies actions[i] == rest[i - 1] by {}
    }
}

/// Every broadcast message that arrives while the sending half is ready is
/// forwarded unchanged, and every heartbeat then sends a ping.
pub proof fn lemma_ready_forwards_everything(message: BibeMsg)
    ensures
        send_step(SendLoop::Ready, SendEvent::Outgoing { message }) == (
            SendLoop::Sending,
            SendAction::SendMessage { message },
        ),
        send_step(SendLoop::Ready, SendEvent::HeartbeatDue) == (SendLoop::Sending, SendAction::SendPing),
{
}

} // verus!
