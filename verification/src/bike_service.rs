use vstd::prelude::*;
use crate::models::{BibeMsg, BikeStatus};

verus! {

/// The status a newly created bike is stored with: the one requested, or
/// `Available` when none was.
pub fn status_for_new_bike(requested: Option<BikeStatus>) -> (r: BikeStatus)
    ensures
        r == match requested {
            Some(status) => status,
            None => BikeStatus::Available,
        },
{
    match requested {
        Some(status) => status,
        None => BikeStatus::Available,
    }
}

/// The command sent to bike `bike_id` once its status is `status`: a bike
/// that is available or under maintenance is locked, a rented one unlocked.
pub open spec fn command_for(bike_id: u128, status: BikeStatus) -> BibeMsg {
    match status {
        BikeStatus::Available => BibeMsg::LockBike { bike_id },
        BikeStatus::UnderMaintenance => BibeMsg::LockBike { bike_id },
        BikeStatus::Rented => BibeMsg::UnlockBike { bike_id },
    }
}

/// The command sent to bike `bike_id` once its status is `status`.
pub fn status_command(bike_id: u128, status: BikeStatus) -> (r: BibeMsg)
    ensures
        r == command_for(bike_id, status),
        r == (if status == BikeStatus::Rented {
            BibeMsg::UnlockBike { bike_id }
        } else {
            BibeMsg::LockBike { bike_id }
        }),
{
    match status {
        BikeStatus::Available | BikeStatus::UnderMaintenance => BibeMsg::LockBike { bike_id },
        BikeStatus::Rented => BibeMsg::UnlockBike { bike_id },
    }
}

/// How a status update ended.
#[derive(Debug, PartialEq, Eq, Clone, Copy, Structural)]
pub enum UpdateOutcome {
    /// The row was changed, the command sent and the change committed.
    Updated,
    /// The command could not be sent, so the change was rolled back.
    CommandNotSent,
    /// A database operation failed.
    DatabaseError,
}

/// Where a status update stands.
#[derive(Debug, PartialEq, Eq, Clone, Copy, Structural)]
pub enum StatusUpdate {
    /// A transaction is being opened to set bike `bike_id` to `status`.
    Requested { bike_id: u128, status: BikeStatus },
    /// The row is being updated.
    Updating,
    /// The command for the updated bike is being sent.
    Notifying,
    /// The change is being committed.
    Committing,
    /// The change is being rolled back.
    RollingBack,
    /// The update is over.
    Done { outcome: UpdateOutcome },
}

/// What the database and the message channel reported.
#[derive(Debug, PartialEq, Eq, Clone, Copy, Structural)]
pub enum UpdateEvent {
    TransactionBegun,
    /// The row now holds this bike id and status.
    RowUpdated { bike_id: u128, status: BikeStatus },
    CommandSent,
    SendFailed,
    Committed,
    RolledBack,
    DatabaseFailed,
}

/// What to do next.
#[derive(Debug, PartialEq, Eq, Clone, Copy, Structural)]
pub enum UpdateAction {
    BeginTransaction,
    UpdateRow { bike_id: u128, status: BikeStatus },
    Send { command: BibeMsg },
    Commit,
    Rollback,
    Respond { outcome: UpdateOutcome },
    /// Nothing: the event does not belong to this stage.
    Wait,
}

/// One step of a status update: the row is changed inside a transaction,
/// the matching command is sent, and the change is committed if the command
/// went out and rolled back if it did not; a failed database operation ends
/// the update. An event that does not belong to the current stage changes
/// nothing.
pub open spec fn update_step(s: StatusUpdate, e: UpdateEvent) -> (StatusUpdate, UpdateAction) {
    match (s, e) {
        (StatusUpdate::Requested { bike_id, status }, UpdateEvent::TransactionBegun) => (
            StatusUpdate::Updating,
            UpdateAction::UpdateRow { bike_id, status },
        ),
        (StatusUpdate::Updating, UpdateEvent::RowUpdated { bike_id, status }) => (
            StatusUpdate::Notifying,
            UpdateAction::Send { command: command_for(bike_id, status) },
        ),
        (StatusUpdate::Notifying, UpdateEvent::CommandSent) => (
            StatusUpdate::Committing,
            UpdateAction::Commit,
        ),
        (StatusUpdate::Notifying, UpdateEvent::SendFailed) => (
            StatusUpdate::RollingBack,
            UpdateAction::Rollback,
        ),
        (StatusUpdate::Committing, UpdateEvent::Committed) => (
            StatusUpdate::Done { outcome: UpdateOutcome::Updated },
            UpdateAction::Respond { outcome: UpdateOutcome::Updated },
        ),
        (StatusUpdate::RollingBack, UpdateEvent::RolledBack) => (
            StatusUpdate::Done { outcome: UpdateOutcome::CommandNotSent },
            UpdateAction::Respond { outcome: UpdateOutcome::CommandNotSent },
        ),
        (StatusUpdate::Requested { .. }, UpdateEvent::DatabaseFailed)
        | (StatusUpdate::Updating, UpdateEvent::DatabaseFailed)
        | (StatusUpdate::Committing, UpdateEvent::DatabaseFailed)
        | (StatusUpdate::RollingBack, UpdateEvent::DatabaseFailed) => (
            StatusUpdate::Done { outcome: UpdateOutcome::DatabaseError },
            UpdateAction::Respond { outcome: UpdateOutcome::DatabaseError },
        ),
        _ => (s, UpdateAction::Wait),
    }
}

/// The states and actions a status update goes through on `events`.
pub open spec fn update_run(s: StatusUpdate, events: Seq<UpdateEvent>) -> (StatusUpdate, Seq<UpdateAction>)
    decreases events.len(),
{
    if events.len() == 0 {
        (s, Seq::empty())
    } else {
        let (next, action) = update_step(s, events[0]);
        let (last, rest) = update_run(next, events.drop_first());
        (last, seq![action] + rest)
    }
}

/// The command after a status change names the bike whose status changed,
/// and unlocks it exactly when it is now rented.
pub proof fn lemma_command_matches_status(bike_id: u128, status: BikeStatus)
    ensures
        (command_for(bike_id, status) == BibeMsg::UnlockBike { bike_id }) <==> status == BikeStatus::Rented,
        (command_for(bike_id, status) == BibeMsg::LockBike { bike_id }) <==> status != BikeStatus::Rented,
{
}

/// What each report moves the transaction to: a sent command is committed
/// and a failed send rolled back; an acknowledged commit answers `Updated`
/// and an acknowledged rollback `CommandNotSent`; a failed database step
/// (opening, updating, committing or rolling back) answers `DatabaseError`.
pub proof fn lemma_transaction_reactions(bike_id: u128, status: BikeStatus)
    ensures
        update_step(StatusUpdate::Notifying, UpdateEvent::CommandSent) == (
            StatusUpdate::Committing,
            UpdateAction::Commit,
        ),
        update_step(StatusUpdate::Notifying, UpdateEvent::SendFailed) == (
            StatusUpdate::RollingBack,
            UpdateAction::Rollback,
        ),
        update_step(StatusUpdate::Committing, UpdateEvent::Committed) == (
            StatusUpdate::Done { outcome: UpdateOutcome::Updated },
            UpdateAction::Respond { outcome: UpdateOutcome::Updated },
        ),
        update_step(StatusUpdate::RollingBack, UpdateEvent::RolledBack) == (
            StatusUpdate::Done { outcome: UpdateOutcome::CommandNotSent },
            UpdateAction::Respond { outcome: UpdateOutcome::CommandNotSent },
        ),
        update_step(StatusUpdate::Requested { bike_id, status }, UpdateEvent::DatabaseFailed) == (
            StatusUpdate::Done { outcome: UpdateOutcome::DatabaseError },
            UpdateAction::Respond { outcome: UpdateOutcome::DatabaseError },
        ),
        update_step(StatusUpdate::Updating, UpdateEvent::DatabaseFailed) == (
            StatusUpdate::Done { outcome: UpdateOutcome::DatabaseError },
            UpdateAction::Respond { outcome: UpdateOutcome::DatabaseError },
        ),
        update_step(StatusUpdate::Committing, UpdateEvent::DatabaseFailed) == (
            StatusUpdate::Done { outcome: UpdateOutcome::DatabaseError },
            UpdateAction::Respond { outcome: UpdateOutcome::DatabaseError },
        ),
        update_step(StatusUpdate::RollingBack, UpdateEvent::DatabaseFailed) == (
            StatusUpdate::Done { outcome: UpdateOutcome::DatabaseError },
            UpdateAction::Respond { outcome: UpdateOutcome::DatabaseError },
        ),
{
}

/// A change is committed only right after its command was sent, and rolled
/// back only right after sending failed.
pub proof fn lemma_commit_only_after_send(s: StatusUpdate, e: UpdateEvent)
    ensures
        update_step(s, e).1 == UpdateAction::Commit ==> s == StatusUpdate::Notifying && e
            == UpdateEvent::CommandSent,
        update_step(s, e).1 == UpdateAction::Rollback ==> s == StatusUpdate::Notifying && e
            == UpdateEvent::SendFailed,
{
}

/// A finished update stays finished and does nothing more.
pub proof fn lemma_done_is_final(outcome: UpdateOutcome, e: UpdateEvent)
    ensures
        update_step(StatusUpdate::Done { outcome }, e) == (
            StatusUpdate::Done { outcome },
            UpdateAction::Wait,
        ),
{
}

/// States from which the update can no longer end as `Updated`.
pub open spec fn cannot_end_updated(s: StatusUpdate) -> bool {
    ||| s is RollingBack
    ||| (s is Done && s->outcome != UpdateOutcome::Updated)
}

/// Once rolling back or finished otherwise, an update never ends as
/// `Updated`.
pub proof fn lemma_no_update_after_rollback(s: StatusUpdate, events: Seq<UpdateEvent>)
    requires
        cannot_end_updated(s),
    ensures
        cannot_end_updated(update_run(s, events).0),
    decreases events.len(),
{
    if events.len() > 0 {
        let (next, action) = update_step(s, events[0]);
        lemma_no_update_after_rollback(next, events.drop_first());
    }
}

/// An update that ends as `Updated` sent its command and committed, and
/// never rolled back.
pub proof fn lemma_updated_run_sent_and_committed(s: StatusUpdate, events: Seq<UpdateEvent>)
    ensures
        ({
            let (last, actions) = update_run(s, events);
            &&& last == (StatusUpdate::Done { outcome: UpdateOutcome::Updated })
                ==> !actions.contains(UpdateAction::Rollback)
            &&& last == (StatusUpdate::Done { outcome: UpdateOutcome::Updated }) && (s is Requested
                || s is Updating || s is Notifying) ==> actions.contains(UpdateAction::Commit)
            &&& last == (StatusUpdate::Done { outcome: UpdateOutcome::Updated }) && (s is Requested
                || s is Updating) ==> exists|i: int| 0 <= i < actions.len() && #[trigger] actions[i] is Send
        }),
    decreases events.len(),
{
    if events.len() > 0 {
        let (next, action) = update_step(s, events[0]);
        let (last, rest) = update_run(next, events.drop_first());
        let actions = seq![action] + rest;
        assert(update_run(s, events) == (last, actions));
        lemma_updated_run_sent_and_committed(next, events.drop_first());
        if action == UpdateAction::Rollback {
            lemma_no_update_after_rollback(next, events.drop_first());
        }
        if cannot_end_updated(next) {
            lemma_no_update_after_rollback(next, events.drop_first());
        }
        if last == (StatusUpdate::Done { outcome: UpdateOutcome::Updated }) {
            if actions.contains(UpdateAction::Rollback) {
                let i = choose|i: int| 0 <= i < actions.len() && actions[i] == UpdateAction::Rollback;
                if i > 0 {
                    assert(rest[i - 1] == UpdateAction::Rollback);
                }
            }
            if (s is Requested || s is Updating || s is Notifying) && action != UpdateAction::Commit {
                assert(next is Requested || next is Updating || next is Notifying);
                let j = choose|j: int| 0 <= j < rest.len() && rest[j] == UpdateAction::Commit;
                assert(actions[j + 1] == UpdateAction::Commit);
            }
            if (s is Requested || s is Updating) && !(action is Send) {
                assert(next is Requested || next is Updating);
                let j = choose|j: int| 0 <= j < rest.len() && #[trigger] rest[j] is Send;
                assert(actions[j + 1] is Send);
            }
            if action is Send {
                assert(actions[0] is Send);
            }
        }
    }
}

/// The update answers `Updated` exactly when the database acknowledged the
/// commit.
pub proof fn lemma_updated_only_on_commit(s: StatusUpdate, e: UpdateEvent)
    ensures
        update_step(s, e).1 == (UpdateAction::Respond { outcome: UpdateOutcome::Updated }) <==> (s
            == StatusUpdate::Committing && e == UpdateEvent::Committed),
{
}

/// A finished update stays finished, with the same outcome, whatever follows.
pub proof fn lemma_done_run_is_final(outcome: UpdateOutcome, events: Seq<UpdateEvent>)
    ensures
        ({
            let (last, actions) = update_run(StatusUpdate::Done { outcome }, events);
            &&& last == (StatusUpdate::Done { outcome })
            &&& forall|i: int| 0 <= i < actions.len() ==> #[trigger] actions[i] == UpdateAction::Wait
        }),
    decreases events.len(),
{
    if events.len() > 0 {
        let (last, rest) = update_run(StatusUpdate::Done { outcome }, events.drop_first());
        lemma_done_run_is_final(outcome, events.drop_first());
        let actions = seq![UpdateAction::Wait] + rest;
        assert(update_run(StatusUpdate::Done { outcome }, events) == (last, actions));
        assert forall|i: int| 0 < i < actions.len() implies actions[i] == rest[i - 1] by {}
    }
}

/// States from which the update can no longer end as `CommandNotSent`.
pub open spec fn cannot_end_not_sent(s: StatusUpdate) -> bool {
    ||| s is Committing
    ||| (s is Done && s->outcome != UpdateOutcome::CommandNotSent)
}

/// Once committing or finished otherwise, an update never ends as
/// `CommandNotSent`.
pub proof fn lemma_no_rollback_after_commit(s: StatusUpdate, events: Seq<UpdateEvent>)
    requires
        cannot_end_not_sent(s),
    ensures
        cannot_end_not_sent(update_run(s, events).0),
    decreases events.len(),
{
    if events.len() > 0 {
        let (next, action) = update_step(s, events[0]);
        lemma_no_rollback_after_commit(next, events.drop_first());
    }
}

/// An update that fails never had its commit acknowledged: a run that does
/// not end as `Updated` never answers `Updated`. One that ends because the
/// command could not be sent rolled back and never asked to commit; so a
/// change is left committed without its command only if the update answered
/// `Updated`, and an error answer follows a commit request only when that
/// commit itself failed.
pub proof fn lemma_failed_run_never_committed(s: StatusUpdate, events: Seq<UpdateEvent>)
    ensures
        ({
            let (last, actions) = update_run(s, events);
            &&& last != (StatusUpdate::Done { outcome: UpdateOutcome::Updated })
                ==> !actions.contains(UpdateAction::Respond { outcome: UpdateOutcome::Updated })
            &&& last == (StatusUpdate::Done { outcome: UpdateOutcome::CommandNotSent }) && (
            s is Requested || s is Updating || s is Notifying || s is RollingBack)
                ==> !actions.contains(UpdateAction::Commit)
            &&& last == (StatusUpdate::Done { outcome: UpdateOutcome::CommandNotSent }) && (
            s is Requested || s is Updating || s is Notifying) ==> actions.contains(
                UpdateAction::Rollback,
            )
        }),
    decreases events.len(),
{
    if events.len() > 0 {
        let (next, action) = update_step(s, events[0]);
        let (last, rest) = update_run(next, events.drop_first());
        let actions = seq![action] + rest;
        assert(update_run(s, events) == (last, actions));
        lemma_failed_run_never_committed(next, events.drop_first());
        assert(actions[0] == action);
        assert forall|i: int| 0 < i < actions.len() implies actions[i] == rest[i - 1] by {}
        if action == (UpdateAction::Respond { outcome: UpdateOutcome::Updated }) {
            lemma_done_run_is_final(UpdateOutcome::Updated, events.drop_first());
        }
        if last != (StatusUpdate::Done { outcome: UpdateOutcome::Updated }) {
            if actions.contains(UpdateAction::Respond { outcome: UpdateOutcome::Updated }) {
                let i = choose|i: int|
                    0 <= i < actions.len() && actions[i] == (UpdateAction::Respond {
                        outcome: UpdateOutcome::Updated,
                    });
                if i > 0 {
                    assert(rest.contains(UpdateAction::Respond { outcome: UpdateOutcome::Updated }));
                }
            }
        }
        if last == (StatusUpdate::Done { outcome: UpdateOutcome::CommandNotSent }) {
            if cannot_end_not_sent(next) {
                lemma_no_rollback_after_commit(next, events.drop_first());
            }
            if next is Done {
                lemma_done_run_is_final(next->outcome, events.drop_first());
            }
            if (s is Requested || s is Updating || s is Notifying) && action != UpdateAction::Rollback {
                assert(next is Requested || next is Updating || next is Notifying);
                let j = choose|j: int| 0 <= j < rest.len() && rest[j] == UpdateAction::Rollback;
                assert(actions[j + 1] == UpdateAction::Rollback);
            }
            if (s is Requested || s is Updating || s is Notifying || s is RollingBack)
                && actions.contains(UpdateAction::Commit) {
                let k = choose|k: int| 0 <= k < actions.len() && actions[k] == UpdateAction::Commit;
                if k > 0 {
                    assert(rest[k - 1] == UpdateAction::Commit);
                    assert(rest.contains(UpdateAction::Commit));
                }
            }
        }
    }
}

/// Opening the transaction for a request to set bike `bike_id` to `status`
/// updates exactly that bike's row to exactly that status.
pub proof fn lemma_row_update_carries_request(bike_id: u128, status: BikeStatus)
    ensures
        update_step(StatusUpdate::Requested { bike_id, status }, UpdateEvent::TransactionBegun) == (
            StatusUpdate::Updating,
            UpdateAction::UpdateRow { bike_id, status },
        ),
{
}

/// The command sent after the row came back follows that row: the bike it
/// names is the row's bike, a rented bike is unlocked, and an available bike
/// or one under maintenance is locked.
pub proof fn lemma_command_follows_returned_row(bike_id: u128, status: BikeStatus)
    ensures
        ({
            let (next, action) = update_step(
                StatusUpdate::Updating,
                UpdateEvent::RowUpdated { bike_id, status },
            );
            &&& next == StatusUpdate::Notifying
            &&& status == BikeStatus::Rented ==> action == (UpdateAction::Send {
                command: BibeMsg::UnlockBike { bike_id },
            })
            &&& status == BikeStatus::Available ==> action == (UpdateAction::Send {
                command: BibeMsg::LockBike { bike_id },
            })
            &&& status == BikeStatus::UnderMaintenance ==> action == (UpdateAction::Send {
                command: BibeMsg::LockBike { bike_id },
            })
        }),
{
}

impl StatusUpdate {
    /// A status update setting bike `bike_id` to `status`, and its first
    /// action: opening a transaction.
    pub fn start(bike_id: u128, status: BikeStatus) -> (r: (StatusUpdate, UpdateAction))
        ensures
            r == (StatusUpdate::Requested { bike_id, status }, UpdateAction::BeginTransaction),
    {
        (StatusUpdate::Requested { bike_id, status }, UpdateAction::BeginTransaction)
    }

    /// The state after `event`, and what to do next.
    pub fn step(self, event: UpdateEvent) -> (r: (StatusUpdate, UpdateAction))
        ensures
            r == update_step(self, event),
            self matches StatusUpdate::Requested { bike_id, status } ==> (event
                == UpdateEvent::TransactionBegun ==> r == (
                StatusUpdate::Updating,
                UpdateAction::UpdateRow { bike_id, status },
            )),
            event matches UpdateEvent::RowUpdated { bike_id, status } ==> (self
                == StatusUpdate::Updating ==> r == (
                StatusUpdate::Notifying,
                UpdateAction::Send {
                    command: if status == BikeStatus::Rented {
                        BibeMsg::UnlockBike { bike_id }
                    } else {
                        BibeMsg::LockBike { bike_id }
                    },
                },
            )),
    {
        match (self, event) {
            (StatusUpdate::Requested { bike_id, status }, UpdateEvent::TransactionBegun) => (
                StatusUpdate::Updating,
                UpdateAction::UpdateRow { bike_id, status },
            ),
            (StatusUpdate::Updating, UpdateEvent::RowUpdated { bike_id, status }) => (
                StatusUpdate::Notifying,
                UpdateAction::Send { command: status_command(bike_id, status) },
            ),
            (StatusUpdate::Notifying, UpdateEvent::CommandSent) => (
                StatusUpdate::Committing,
                UpdateAction::Commit,
            ),
            (StatusUpdate::Notifying, UpdateEvent::SendFailed) => (
                StatusUpdate::RollingBack,
                UpdateAction::Rollback,
            ),
            (StatusUpdate::Committing, UpdateEvent::Committed) => (
                StatusUpdate::Done { outcome: UpdateOutcome::Updated },
                UpdateAction::Respond { outcome: UpdateOutcome::Updated },
            ),
            (StatusUpdate::RollingBack, UpdateEvent::RolledBack) => (
                StatusUpdate::Done { outcome: UpdateOutcome::CommandNotSent },
                UpdateAction::Respond { outcome: UpdateOutcome::CommandNotSent },
            ),
            (StatusUpdate::Requested { .. }, UpdateEvent::DatabaseFailed)
            | (StatusUpdate::Updating, UpdateEvent::DatabaseFailed)
            | (StatusUpdate::Committing, UpdateEvent::DatabaseFailed)
            | (StatusUpdate::RollingBack, UpdateEvent::DatabaseFailed) => (
                StatusUpdate::Done { outcome: UpdateOutcome::DatabaseError },
                UpdateAction::Respond { outcome: UpdateOutcome::DatabaseError },
            ),
            _ => (self, UpdateAction::Wait),
        }
    }
}

} // verus!
