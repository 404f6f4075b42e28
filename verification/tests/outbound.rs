use bibe::models::BibeMsg;
use bibe::outbound::{heartbeat_payload, SendAction, SendEvent, SendLoop, HEARTBEAT_SECS};

fn run(events: &[SendEvent]) -> (SendLoop, Vec<SendAction>) {
    let mut state = SendLoop::Ready;
    let mut actions = Vec::new();
    for event in events {
        let (next, action) = state.step(*event);
        state = next;
        actions.push(action);
    }
    (state, actions)
}

#[test]
fn heartbeat_every_five_seconds() {
    assert_eq!(HEARTBEAT_SECS, 5);
}

#[test]
fn heartbeats_and_broadcasts_are_sent() {
    let msg = BibeMsg::LockBike { bike_id: 42 };
    let (state, actions) = run(&[
        SendEvent::HeartbeatDue,
        SendEvent::Sent,
        SendEvent::Outgoing { message: msg },
        SendEvent::Sent,
    ]);
    assert_eq!(state, SendLoop::Ready);
    assert_eq!(
        actions,
        vec![
            SendAction::SendPing,
            SendAction::AwaitNext,
            SendAction::SendMessage { message: msg },
            SendAction::AwaitNext,
        ]
    );
}

#[test]
fn first_failed_send_stops_for_good() {
    let (state, actions) = run(&[
        SendEvent::HeartbeatDue,
        SendEvent::SendFailed,
        SendEvent::HeartbeatDue,
        SendEvent::Outgoing { message: BibeMsg::UnlockBike { bike_id: 1 } },
    ]);
    assert_eq!(state, SendLoop::Stopped);
    assert_eq!(actions, vec![SendAction::SendPing, SendAction::Stop, SendAction::Wait, SendAction::Wait]);
}

#[test]
fn send_events_out_of_stage_wait() {
    assert_eq!(SendLoop::Ready.step(SendEvent::Sent), (SendLoop::Ready, SendAction::Wait));
    assert_eq!(SendLoop::Sending.step(SendEvent::HeartbeatDue), (SendLoop::Sending, SendAction::Wait));
}

#[test]
fn heartbeat_ping_is_empty() {
    assert!(heartbeat_payload().is_empty());
}
