use vstd::prelude::*;

verus! {

/// A lifecycle operation on one container.
#[derive(Clone, Copy, Debug, PartialEq, Eq, Structural)]
pub enum DockerAction {
    Start,
    Stop,
    Pause,
    Unpause,
    Restart,
    Remove,
}

/// The verb that names an action.
pub open spec fn verb_of(a: DockerAction) -> Seq<char> {
    match a {
        DockerAction::Start => "start"@,
        DockerAction::Stop => "stop"@,
        DockerAction::Pause => "pause"@,
        DockerAction::Unpause => "unpause"@,
        DockerAction::Restart => "restart"@,
        DockerAction::Remove => "remove"@,
    }
}

impl DockerAction {
    /// Verb shown to the operator.
    pub fn verb(&self) -> (r: &'static str)
        ensures
            r@ == verb_of(*self),
    {
        match self {
            DockerAction::Start => "start",
            DockerAction::Stop => "stop",
            DockerAction::Pause => "pause",
            DockerAction::Unpause => "unpause",
            DockerAction::Restart => "restart",
            DockerAction::Remove => "remove",
        }
    }
}

/// An operation requested of the poller, sent over the command channel.
#[derive(Debug)]
pub enum DockerMessage {
    /// Force a reconciliation.
    Update,
    /// Run `action` on the container with identifier `id`.
    ContainerAction { id: String, action: DockerAction },
    /// Stop consuming commands.
    Quit,
}

/// A decoded keyboard or mouse intent.
#[derive(Clone, Copy, Debug, PartialEq, Eq, Structural)]
pub enum InputEvent {
    Up,
    Down,
    /// Request `action` on the selected container.
    Action(DockerAction),
    /// Open the log view of the selected container.
    Logs,
    Confirm,
    Cancel,
    Help,
    Quit,
    ForceUpdate,
}

} // verus!
