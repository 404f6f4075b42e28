use bibe::bike_service::{
    status_command, status_for_new_bike, StatusUpdate, UpdateAction, UpdateEvent, UpdateOutcome,
};
use bibe::models::{BibeMsg, BikeStatus};

const BIKE: u128 = 0x67e5_5044_10b1_426f_9247_bb68_0e5f_e0c8;

fn run(start: (StatusUpdate, UpdateAction), events: &[UpdateEvent]) -> (StatusUpdate, Vec<UpdateAction>) {
    let (mut state, first) = start;
    let mut actions = vec![first];
    for event in events {
        let (next, action) = state.step(*event);
        state = next;
        actions.push(action);
    }
    (state, actions)
}

#[test]
fn new_bikes_default_to_available() {
    assert_eq!(status_for_new_bike(None), BikeStatus::Available);
    assert_eq!(status_for_new_bike(Some(BikeStatus::Rented)), BikeStatus::Rented);
    assert_eq!(status_for_new_bike(Some(BikeStatus::UnderMaintenance)), BikeStatus::UnderMaintenance);
}

#[test]
fn commands_follow_status() {
    assert_eq!(status_command(BIKE, BikeStatus::Available), BibeMsg::LockBike { bike_id: BIKE });
    assert_eq!(status_command(BIKE, BikeStatus::UnderMaintenance), BibeMsg::LockBike { bike_id: BIKE });
    assert_eq!(status_command(BIKE, BikeStatus::Rented), BibeMsg::UnlockBike { bike_id: BIKE });
}

#[test]
fn successful_update_sends_then_commits() {
    let (state, actions) = run(
        StatusUpdate::start(BIKE, BikeStatus::Rented),
        &[
            UpdateEvent::TransactionBegun,
            UpdateEvent::RowUpdated { bike_id: BIKE, status: BikeStatus::Rented },
            UpdateEvent::CommandSent,
            UpdateEvent::Committed,
        ],
    );
    assert_eq!(state, StatusUpdate::Done { outcome: UpdateOutcome::Updated });
    assert_eq!(
        actions,
        vec![
            UpdateAction::BeginTransaction,
            UpdateAction::UpdateRow { bike_id: BIKE, status: BikeStatus::Rented },
            UpdateAction::Send { command: BibeMsg::UnlockBike { bike_id: BIKE } },
            UpdateAction::Commit,
            UpdateAction::Respond { outcome: UpdateOutcome::Updated },
        ]
    );
}

#[test]
fn command_uses_the_row_that_came_back() {
    let (_, actions) = run(
        StatusUpdate::start(BIKE, BikeStatus::Rented),
        &[
            UpdateEvent::TransactionBegun,
            UpdateEvent::RowUpdated { bike_id: 5, status: BikeStatus::UnderMaintenance },
        ],
    );
    assert_eq!(actions[2], UpdateAction::Send { command: BibeMsg::LockBike { bike_id: 5 } });
}

#[test]
fn failed_send_rolls_back() {
    let (state, actions) = run(
        StatusUpdate::start(BIKE, BikeStatus::Available),
        &[
            UpdateEvent::TransactionBegun,
            UpdateEvent::RowUpdated { bike_id: BIKE, status: BikeStatus::Available },
            UpdateEvent::SendFailed,
            UpdateEvent::RolledBack,
        ],
    );
    assert_eq!(state, StatusUpdate::Done { outcome: UpdateOutcome::CommandNotSent });
    assert_eq!(actions[3], UpdateAction::Rollback);
    assert!(!actions.contains(&UpdateAction::Commit));
    assert_eq!(actions[4], UpdateAction::Respond { outcome: UpdateOutcome::CommandNotSent });
}

#[test]
fn database_failures_end_the_update() {
    let prefixes: Vec<Vec<UpdateEvent>> = vec![
        vec![],
        vec![UpdateEvent::TransactionBegun],
        vec![
            UpdateEvent::TransactionBegun,
            UpdateEvent::RowUpdated { bike_id: BIKE, status: BikeStatus::Rented },
            UpdateEvent::CommandSent,
        ],
        vec![
            UpdateEvent::TransactionBegun,
            UpdateEvent::RowUpdated { bike_id: BIKE, status: BikeStatus::Rented },
            UpdateEvent::SendFailed,
        ],
    ];
    for prefix in prefixes {
        let mut events = prefix.clone();
        events.push(UpdateEvent::DatabaseFailed);
        let (state, actions) = run(StatusUpdate::start(BIKE, BikeStatus::Rented), &events);
        assert_eq!(state, StatusUpdate::Done { outcome: UpdateOutcome::DatabaseError });
        assert_eq!(
            *actions.last().unwrap(),
            UpdateAction::Respond { outcome: UpdateOutcome::DatabaseError }
        );
    }
}

#[test]
fn no_database_failure_while_sending() {
    let (state, actions) = run(
        StatusUpdate::start(BIKE, BikeStatus::Rented),
        &[
            UpdateEvent::TransactionBegun,
            UpdateEvent::RowUpdated { bike_id: BIKE, status: BikeStatus::Rented },
            UpdateEvent::DatabaseFailed,
        ],
    );
    assert_eq!(state, StatusUpdate::Notifying);
    assert_eq!(*actions.last().unwrap(), UpdateAction::Wait);
}

#[test]
fn events_out_of_stage_are_ignored() {
    let (state, action) = StatusUpdate::start(BIKE, BikeStatus::Rented).0.step(UpdateEvent::Committed);
    assert_eq!(state, StatusUpdate::Requested { bike_id: BIKE, status: BikeStatus::Rented });
    assert_eq!(action, UpdateAction::Wait);
}

#[test]
fn finished_updates_stay_finished() {
    let done = StatusUpdate::Done { outcome: UpdateOutcome::Updated };
    for event in [
        UpdateEvent::TransactionBegun,
        UpdateEvent::CommandSent,
        UpdateEvent::SendFailed,
        UpdateEvent::Committed,
        UpdateEvent::RolledBack,
        UpdateEvent::DatabaseFailed,
    ] {
        assert_eq!(done.step(event), (done, UpdateAction::Wait));
    }
}

#[test]
fn failed_commit_answers_database_error_not_updated() {
    let (state, actions) = run(
        StatusUpdate::start(BIKE, BikeStatus::Rented),
        &[
            UpdateEvent::TransactionBegun,
            UpdateEvent::RowUpdated { bike_id: BIKE, status: BikeStatus::Rented },
            UpdateEvent::CommandSent,
            UpdateEvent::DatabaseFailed,
            UpdateEvent::Committed,
        ],
    );
    assert_eq!(state, StatusUpdate::Done { outcome: UpdateOutcome::DatabaseError });
    assert!(!actions.contains(&UpdateAction::Respond { outcome: UpdateOutcome::Updated }));
}
