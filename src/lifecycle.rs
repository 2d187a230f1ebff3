use vstd::prelude::*;
use crate::app_data::AppData;
use crate::command::InputEvent;
use crate::gui::{GuiState, Modal, Status, StatusEntry, pushed_bounded};
use crate::model::AppError;
use crate::poller::{Wake, latched, poller_decision};

verus! {

/// Exit status of a clean quit.
pub const EXIT_CLEAN: i32 = 0;

/// Exit status after a fatal error.
pub const EXIT_FATAL: i32 = 1;

/// The result of the one connection attempt made at startup.
#[derive(Clone, Copy, Debug, PartialEq, Eq, Structural)]
pub enum Probe {
    /// No connection could be opened.
    ConnectFailed,
    /// A connection was opened but the liveness probe failed.
    PingFailed,
    /// Connected and the daemon answered the probe.
    Alive,
}

/// Records the startup connection attempt and says whether the poller may
/// be started. Where either step failed, a fatal error is latched and a
/// status message pushed; no retry is made.
pub fn supervise(app: &mut AppData, gui: &mut GuiState, probe: Probe, expires_at: u64) -> (spawn: bool)
    ensures
        spawn == (probe == Probe::Alive),
        final(app).containers == old(app).containers,
        final(gui).selected == old(gui).selected,
        final(gui).modal == old(gui).modal,
        spawn ==> final(app).error == old(app).error && final(gui).status == old(gui).status,
        !spawn ==> final(app).error == latched(old(app).error, AppError::DockerConnect)
            && final(gui).status@ == pushed_bounded(
            old(gui).status@,
            StatusEntry { status: Status::DockerConnect, expires_at },
        ),
{
    match probe {
        Probe::Alive => true,
        _ => {
            app.set_error(AppError::DockerConnect);
            gui.status_push(Status::DockerConnect, expires_at);
            false
        },
    }
}

/// The input actor's next step.
#[derive(Clone, Copy, Debug, PartialEq, Eq, Structural)]
pub enum InputStep {
    Handle(InputEvent),
    Exit,
}

/// The input actor's next step, given the shutdown flag and the event
/// received, `None` where its source has closed.
pub open spec fn input_decision(shutdown: bool, received: Option<InputEvent>) -> InputStep {
    if shutdown {
        InputStep::Exit
    } else {
        match received {
            Some(e) => InputStep::Handle(e),
            None => InputStep::Exit,
        }
    }
}

/// Decides the input actor's next step.
pub fn input_next(shutdown: bool, received: Option<InputEvent>) -> (r: InputStep)
    ensures
        r == input_decision(shutdown, received),
{
    if shutdown {
        return InputStep::Exit;
    }
    match received {
        Some(e) => InputStep::Handle(e),
        None => InputStep::Exit,
    }
}

/// The renderer's next step.
#[derive(Clone, Copy, Debug, PartialEq, Eq, Structural)]
pub enum RenderStep {
    Draw,
    /// Leave the loop, restore the terminal and exit with `code`.
    Exit { code: i32 },
}

/// The exit status owed for the given error state.
pub open spec fn exit_code_for(error: Option<AppError>) -> i32 {
    if error is Some {
        EXIT_FATAL
    } else {
        EXIT_CLEAN
    }
}

/// The renderer's next step: on shutdown it leaves; a fatal error is first
/// surfaced in the error overlay for one frame and then ends the process.
pub open spec fn render_decision(shutdown: bool, error: Option<AppError>, modal: Modal) -> RenderStep {
    if shutdown {
        RenderStep::Exit { code: exit_code_for(error) }
    } else if error is Some {
        if modal is Error {
            RenderStep::Exit { code: EXIT_FATAL }
        } else {
            RenderStep::Draw
        }
    } else {
        RenderStep::Draw
    }
}

/// Decides the renderer's next step, opening the error overlay where a
/// fatal error is yet to be shown.
pub fn render_next(shutdown: bool, app: &AppData, gui: &mut GuiState) -> (r: RenderStep)
    ensures
        r == render_decision(shutdown, app.error, old(gui).modal),
        final(gui).selected == old(gui).selected,
        final(gui).status == old(gui).status,
        final(gui).modal == (if !shutdown && app.error is Some {
            Modal::Error
        } else {
            old(gui).modal
        }),
{
    let code = if app.error.is_some() {
        EXIT_FATAL
    } else {
        EXIT_CLEAN
    };
    if shutdown {
        return RenderStep::Exit { code };
    }
    if app.error.is_some() {
        if let Modal::Error = gui.modal {
            return RenderStep::Exit { code: EXIT_FATAL };
        }
        gui.modal = Modal::Error;
    }
    RenderStep::Draw
}

/// The headless loop's next step.
#[derive(Clone, Copy, Debug, PartialEq, Eq, Structural)]
pub enum HeadlessStep {
    /// Ask the poller for a reconciliation, then sleep one interval.
    SendUpdate,
    Exit { code: i32 },
}

/// The headless loop's next step: a fatal error ends the process with a
/// failure status, shutdown with a clean one.
pub open spec fn headless_decision(shutdown: bool, error: Option<AppError>) -> HeadlessStep {
    if error is Some {
        HeadlessStep::Exit { code: EXIT_FATAL }
    } else if shutdown {
        HeadlessStep::Exit { code: EXIT_CLEAN }
    } else {
        HeadlessStep::SendUpdate
    }
}

/// Decides the headless loop's next step.
pub fn headless_next(shutdown: bool, app: &AppData) -> (r: HeadlessStep)
    ensures
        r == headless_decision(shutdown, app.error),
{
    if app.error.is_some() {
        HeadlessStep::Exit { code: EXIT_FATAL }
    } else if shutdown {
        HeadlessStep::Exit { code: EXIT_CLEAN }
    } else {
        HeadlessStep::SendUpdate
    }
}

/// With the shutdown flag set, each long-lived actor leaves its loop at its
/// next decision, whatever else it observes: the poller, the input actor
/// and the renderer.
pub proof fn lemma_shutdown_propagation(
    error: Option<AppError>,
    wake: Wake,
    received: Option<InputEvent>,
    modal: Modal,
)
    ensures
        poller_decision(true, error, wake) is Exit,
        input_decision(true, received) is Exit,
        render_decision(true, error, modal) is Exit,
        headless_decision(true, error) is Exit,
{
}

} // verus!
