use vstd::prelude::*;
use crate::app_data::AppData;
use crate::command::{DockerAction, DockerMessage};
use crate::gui::{GuiState, Status, StatusEntry, clamped, cursor_ok, pushed_bounded};
use crate::model::{AppError, ContainerRecord, ContainerState, RecordView, records_view};
use crate::reconcile::{
    find_index, has_id, ids_unique, is_first, lemma_first_is_lookup, lemma_lookup_found,
    lemma_reconciled_canonical, lemma_reconciled_covers, lookup, reconciled,
};

verus! {

/// What woke the poller: its interval timer, a command, or the command
/// channel closing.
#[derive(Debug)]
pub enum Wake {
    Tick,
    Message(DockerMessage),
    Closed,
}

/// The poller's next piece of work.
#[derive(Debug)]
pub enum PollerStep {
    /// List the containers and reconcile.
    Reconcile,
    /// Run `action` on container `id`.
    Run { id: String, action: DockerAction },
    /// Leave the loop.
    Exit,
}

/// The poller's next piece of work, given the shutdown flag, the latched
/// fatal error and what woke it.
pub open spec fn poller_decision(shutdown: bool, error: Option<AppError>, wake: Wake) -> PollerStep {
    if shutdown || error is Some {
        PollerStep::Exit
    } else {
        match wake {
            Wake::Tick => PollerStep::Reconcile,
            Wake::Message(DockerMessage::Update) => PollerStep::Reconcile,
            Wake::Message(DockerMessage::ContainerAction { id, action }) => PollerStep::Run { id, action },
            Wake::Message(DockerMessage::Quit) => PollerStep::Exit,
            Wake::Closed => PollerStep::Exit,
        }
    }
}

/// Decides the poller's next piece of work. The shutdown flag and a latched
/// fatal error end the loop before anything else is looked at.
pub fn poller_next(shutdown: bool, app: &AppData, wake: Wake) -> (r: PollerStep)
    ensures
        r == poller_decision(shutdown, app.error, wake),
{
    if shutdown || app.error.is_some() {
        return PollerStep::Exit;
    }
    match wake {
        Wake::Tick => PollerStep::Reconcile,
        Wake::Message(DockerMessage::Update) => PollerStep::Reconcile,
        Wake::Message(DockerMessage::ContainerAction { id, action }) => PollerStep::Run { id, action },
        Wake::Message(DockerMessage::Quit) => PollerStep::Exit,
        Wake::Closed => PollerStep::Exit,
    }
}

/// The result of asking the runtime for the container listing.
#[derive(Debug)]
pub enum ListOutcome {
    Listed(Vec<ContainerRecord>),
    /// This call failed; the connection is otherwise healthy.
    Failed,
    /// The connection itself was lost.
    Disconnected,
}

/// The container collection after a listing outcome is applied.
pub open spec fn containers_after_listing(
    existing: Seq<RecordView>,
    error: Option<AppError>,
    outcome: ListOutcome,
) -> Seq<RecordView> {
    match outcome {
        ListOutcome::Listed(v) => if error is Some {
            existing
        } else {
            reconciled(existing, records_view(v@))
        },
        _ => existing,
    }
}

/// The error latch: a recorded error stays, otherwise `e` is recorded.
pub open spec fn latched(error: Option<AppError>, e: AppError) -> Option<AppError> {
    match error {
        Some(prev) => Some(prev),
        None => Some(e),
    }
}

/// Applies the outcome of a listing call to both snapshots and says
/// whether the poller keeps running. A listing is reconciled into the
/// collection, a failed call becomes a status message, and a lost
/// connection latches a fatal error and ends the loop.
pub fn apply_list_outcome(app: &mut AppData, gui: &mut GuiState, outcome: ListOutcome, expires_at: u64) -> (keep_running: bool)
    ensures
        final(app).containers_view() == containers_after_listing(old(app).containers_view(), old(app).error, outcome),
        final(gui).selected == clamped(old(gui).selected, final(app).containers_view().len()),
        cursor_ok(final(gui).selected, final(app).containers@.len()),
        final(gui).modal == old(gui).modal,
        match outcome {
            ListOutcome::Listed(_) => {
                &&& final(app).error == old(app).error
                &&& final(gui).status == old(gui).status
                &&& keep_running == old(app).error is None
            },
            ListOutcome::Failed => {
                &&& final(app).error == old(app).error
                &&& final(gui).status@ == pushed_bounded(
                    old(gui).status@,
                    StatusEntry { status: Status::UpdateFailed, expires_at },
                )
                &&& keep_running == old(app).error is None
            },
            ListOutcome::Disconnected => {
                &&& final(app).error == latched(old(app).error, AppError::ConnectionLost)
                &&& final(gui).status@ == pushed_bounded(
                    old(gui).status@,
                    StatusEntry { status: Status::ConnectionLost, expires_at },
                )
                &&& !keep_running
            },
        },
{
    let keep = match outcome {
        ListOutcome::Listed(v) => {
            app.apply_listing(&v);
            app.error.is_none()
        },
        ListOutcome::Failed => {
            gui.status_push(Status::UpdateFailed, expires_at);
            app.error.is_none()
        },
        ListOutcome::Disconnected => {
            app.set_error(AppError::ConnectionLost);
            gui.status_push(Status::ConnectionLost, expires_at);
            false
        },
    };
    gui.clamp_selection(app.len());
    keep
}

/// The result of asking the runtime to run an action.
#[derive(Clone, Copy, Debug, PartialEq, Eq, Structural)]
pub enum ActionOutcome {
    Done,
    Failed,
    Disconnected,
}

/// What the poller does after an action.
#[derive(Clone, Copy, Debug, PartialEq, Eq, Structural)]
pub enum AfterAction {
    /// Reconcile at once, so that the action's effect shows promptly.
    Reconcile,
    /// Wait for the next wakeup.
    Idle,
    /// Leave the loop.
    Exit,
}

/// What follows an action with the given outcome.
pub open spec fn after_action(outcome: ActionOutcome) -> AfterAction {
    match outcome {
        ActionOutcome::Done => AfterAction::Reconcile,
        ActionOutcome::Failed => AfterAction::Idle,
        ActionOutcome::Disconnected => AfterAction::Exit,
    }
}

/// The name under which container `id` is shown: its display name where
/// the collection holds it, else the identifier itself.
pub open spec fn label_of(containers: Seq<RecordView>, id: Seq<char>) -> Seq<char> {
    match lookup(containers, id) {
        Some(r) => r.name,
        None => id,
    }
}

/// The name under which container `id` is shown.
pub fn container_label(app: &AppData, id: &String) -> (r: String)
    ensures
        r@ == label_of(app.containers_view(), id@),
{
    match find_index(&app.containers, id) {
        Some(j) => {
            proof {
                lemma_first_is_lookup(app.containers_view(), id@, j as int);
            }
            app.containers[j].name.clone()
        },
        None => {
            proof {
                if lookup(app.containers_view(), id@) is Some {
                    lemma_lookup_found(app.containers_view(), id@);
                    let k = choose|k: int| is_first(app.containers_view(), id@, k);
                    assert(app.containers_view()[k].id == id@);
                }
            }
            id.clone()
        },
    }
}

/// Applies the outcome of running `action` on container `id` and says what
/// the poller does next. Success and failure each leave a status message
/// naming the container and the action; a lost connection latches a fatal
/// error. The container collection is left as it is.
pub fn apply_action_outcome(
    app: &mut AppData,
    gui: &mut GuiState,
    id: &String,
    action: DockerAction,
    outcome: ActionOutcome,
    expires_at: u64,
) -> (r: AfterAction)
    ensures
        r == after_action(outcome),
        final(app).containers == old(app).containers,
        final(gui).selected == old(gui).selected,
        final(gui).modal == old(gui).modal,
        outcome == ActionOutcome::Done ==> final(app).error == old(app).error && exists|n: String|
            n@ == label_of(old(app).containers_view(), id@) && final(gui).status@ == pushed_bounded(
                old(gui).status@,
                StatusEntry { status: Status::ActionDone { name: n, action }, expires_at },
            ),
        outcome == ActionOutcome::Failed ==> final(app).error == old(app).error && exists|n: String|
            n@ == label_of(old(app).containers_view(), id@) && final(gui).status@ == pushed_bounded(
                old(gui).status@,
                StatusEntry { status: Status::ActionFailed { name: n, action }, expires_at },
            ),
        outcome == ActionOutcome::Disconnected ==> final(app).error == latched(
            old(app).error,
            AppError::ConnectionLost,
        ) && final(gui).status@ == pushed_bounded(
            old(gui).status@,
            StatusEntry { status: Status::ConnectionLost, expires_at },
        ),
{
    match outcome {
        ActionOutcome::Done => {
            let name = container_label(app, id);
            gui.status_push(Status::ActionDone { name, action }, expires_at);
            AfterAction::Reconcile
        },
        ActionOutcome::Failed => {
            let name = container_label(app, id);
            gui.status_push(Status::ActionFailed { name, action }, expires_at);
            AfterAction::Idle
        },
        ActionOutcome::Disconnected => {
            app.set_error(AppError::ConnectionLost);
            gui.status_push(Status::ConnectionLost, expires_at);
            AfterAction::Exit
        },
    }
}

/// Once a fatal error is latched, the poller leaves its loop whatever wakes
/// it, and no listing outcome changes the container collection.
pub proof fn lemma_fatal_error_latch(
    shutdown: bool,
    error: Option<AppError>,
    wake: Wake,
    existing: Seq<RecordView>,
    outcome: ListOutcome,
)
    requires
        error is Some,
    ensures
        poller_decision(shutdown, error, wake) is Exit,
        containers_after_listing(existing, error, outcome) == existing,
        latched(error, AppError::ConnectionLost) == error,
{
}

/// A successful stop is followed at once by a reconciliation; if the
/// runtime's next listing (with distinct identifiers) no longer reports the
/// container as running, the reconciled collection still holds the
/// container and no record of it is running.
pub proof fn lemma_stop_then_update(existing: Seq<RecordView>, listing: Seq<RecordView>, id: Seq<char>)
    requires
        has_id(existing, id),
        ids_unique(listing),
        has_id(listing, id),
        forall|j: int| 0 <= j < listing.len() && #[trigger] listing[j].id == id ==> listing[j].state != ContainerState::Running,
    ensures
        after_action(ActionOutcome::Done) == AfterAction::Reconcile,
        has_id(reconciled(existing, listing), id),
        forall|i: int|
            0 <= i < reconciled(existing, listing).len() && #[trigger] reconciled(existing, listing)[i].id == id
                ==> reconciled(existing, listing)[i].state != ContainerState::Running,
{
    let r = reconciled(existing, listing);
    let j = choose|j: int| 0 <= j < listing.len() && #[trigger] listing[j].id == id;
    lemma_reconciled_covers(existing, listing, j);
    lemma_reconciled_canonical(existing, listing);
    assert forall|i: int| 0 <= i < r.len() && #[trigger] r[i].id == id implies r[i].state != ContainerState::Running by {
        assert(lookup(listing, r[i].id) == Some(r[i]));
        lemma_lookup_found(listing, id);
        let k = choose|k: int| is_first(listing, id, k) && listing[k] == lookup(listing, id)->0;
        assert(listing[k].id == id);
    }
}

} // verus!
