use vstd::prelude::*;
use crate::app_data::AppData;
use crate::command::{DockerAction, DockerMessage, InputEvent};
use crate::gui::{GuiState, Modal, clamped, cursor_ok, moved_down, moved_up};

verus! {

/// What the input actor does after applying one event to the UI snapshot.
pub struct InputEffect {
    /// A command to send to the poller.
    pub send: Option<DockerMessage>,
    /// Whether to raise the process-wide shutdown flag.
    pub shutdown: bool,
}

/// `m` asks the poller to run `action` on the container with identifier `id`.
pub open spec fn is_action(m: Option<DockerMessage>, id: Seq<char>, action: DockerAction) -> bool {
    match m {
        Some(DockerMessage::ContainerAction { id: i, action: a }) => i@ == id && a == action,
        _ => false,
    }
}

/// Applies one decoded input event: navigation moves the cursor, overlay
/// events change the overlay, and action events become commands for the
/// poller. Afterwards the cursor is in range of the container collection.
pub fn handle_input(gui: &mut GuiState, app: &AppData, event: InputEvent) -> (r: InputEffect)
    ensures
        cursor_ok(final(gui).selected, app.containers@.len()),
        final(gui).status == old(gui).status,
        r.shutdown == (event == InputEvent::Quit),
        event == InputEvent::Up ==> final(gui).selected == moved_up(old(gui).selected, app.containers@.len()),
        event == InputEvent::Down ==> final(gui).selected == moved_down(old(gui).selected, app.containers@.len()),
        event != InputEvent::Up && event != InputEvent::Down ==> final(gui).selected == clamped(
            old(gui).selected,
            app.containers@.len(),
        ),
        event == InputEvent::Quit ==> (r.send matches Some(DockerMessage::Quit)) && final(gui).modal == old(gui).modal,
        event == InputEvent::ForceUpdate ==> (r.send matches Some(DockerMessage::Update)) && final(gui).modal == old(gui).modal,
        event == InputEvent::Up || event == InputEvent::Down ==> r.send is None && final(gui).modal == old(gui).modal,
        event == InputEvent::Cancel ==> r.send is None && final(gui).modal is Hidden,
        event == InputEvent::Help ==> r.send is None && final(gui).modal == (match old(gui).modal {
            Modal::Hidden => Modal::Help,
            Modal::Help => Modal::Hidden,
            m => m,
        }),
        event == InputEvent::Confirm ==> match old(gui).modal {
            Modal::Confirm { id, action } => is_action(r.send, id@, action) && final(gui).modal is Hidden,
            _ => r.send is None && final(gui).modal == old(gui).modal,
        },
        event == InputEvent::Logs ==> r.send is None && match clamped(old(gui).selected, app.containers@.len()) {
            Some(i) => final(gui).modal == (if old(gui).modal is Hidden {
                Modal::Logs { id: app.containers@[i as int].id }
            } else {
                old(gui).modal
            }),
            None => final(gui).modal == old(gui).modal,
        },
        forall|a: DockerAction| #![auto] event == InputEvent::Action(a) ==> match clamped(
            old(gui).selected,
            app.containers@.len(),
        ) {
            Some(i) => if !(old(gui).modal is Hidden) {
                r.send is None && final(gui).modal == old(gui).modal
            } else if a == DockerAction::Remove {
                r.send is None && final(gui).modal == (Modal::Confirm {
                    id: app.containers@[i as int].id,
                    action: a,
                })
            } else {
                is_action(r.send, app.containers@[i as int].id@, a) && final(gui).modal == old(gui).modal
            },
            None => r.send is None && final(gui).modal == old(gui).modal,
        },
{
    let len = app.len();
    match event {
        InputEvent::Up => {
            gui.previous(len);
            InputEffect { send: None, shutdown: false }
        },
        InputEvent::Down => {
            gui.next(len);
            InputEffect { send: None, shutdown: false }
        },
        InputEvent::Quit => {
            gui.clamp_selection(len);
            InputEffect { send: Some(DockerMessage::Quit), shutdown: true }
        },
        InputEvent::ForceUpdate => {
            gui.clamp_selection(len);
            InputEffect { send: Some(DockerMessage::Update), shutdown: false }
        },
        InputEvent::Cancel => {
            gui.clamp_selection(len);
            gui.modal = Modal::Hidden;
            InputEffect { send: None, shutdown: false }
        },
        InputEvent::Help => {
            gui.clamp_selection(len);
            match gui.modal {
                Modal::Hidden => {
                    gui.modal = Modal::Help;
                },
                Modal::Help => {
                    gui.modal = Modal::Hidden;
                },
                _ => {},
            }
            InputEffect { send: None, shutdown: false }
        },
        InputEvent::Confirm => {
            gui.clamp_selection(len);
            let mut modal = Modal::Hidden;
            std::mem::swap(&mut modal, &mut gui.modal);
            match modal {
                Modal::Confirm { id, action } => {
                    InputEffect { send: Some(DockerMessage::ContainerAction { id, action }), shutdown: false }
                },
                other => {
                    gui.modal = other;
                    InputEffect { send: None, shutdown: false }
                },
            }
        },
        InputEvent::Logs => {
            gui.clamp_selection(len);
            if let Some(i) = gui.selected {
                if let Modal::Hidden = gui.modal {
                    gui.modal = Modal::Logs { id: app.containers[i].id.clone() };
                }
            }
            InputEffect { send: None, shutdown: false }
        },
        InputEvent::Action(a) => {
            gui.clamp_selection(len);
            match gui.selected {
                Some(i) => {
                    if let Modal::Hidden = gui.modal {
                        let id = app.containers[i].id.clone();
                        match a {
                            DockerAction::Remove => {
                                gui.modal = Modal::Confirm { id, action: a };
                                InputEffect { send: None, shutdown: false }
                            },
                            _ => InputEffect {
                                send: Some(DockerMessage::ContainerAction { id, action: a }),
                                shutdown: false,
                            },
                        }
                    } else {
                        InputEffect { send: None, shutdown: false }
                    }
                },
                None => InputEffect { send: None, shutdown: false },
            }
        },
    }
}

} // verus!
