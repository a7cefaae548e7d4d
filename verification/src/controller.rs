//! The window-visibility state machine: states, commands, and the
//! transition taken for each incoming event.

use crate::events::Event;
use crate::events::MenuId;
use crate::events::TrayGesture;
use crate::events::WindowEvent;
use vstd::prelude::*;

verus! {

/// Visibility of the main window, as the controller models it.
#[derive(Clone, Copy, Debug, PartialEq, Eq, Structural)]
pub enum WindowState {
    Visible,
    Hidden,
}

/// The visibility command a handler issues to the main window.
#[derive(Clone, Copy, Debug, PartialEq, Eq, Structural)]
pub enum WindowCommand {
    /// Make the window visible and give it input focus.
    ShowAndFocus,
    /// Make the window invisible; the window is kept, not destroyed.
    HideOnly,
    /// Leave the window alone.
    NoOp,
}

/// What the window's visibility is taken to be, given the result of a
/// (fallible) visibility query: a failed query counts as not visible.
pub open spec fn spec_state_of_query(q: Option<bool>) -> WindowState {
    if q == Some(true) {
        WindowState::Visible
    } else {
        WindowState::Hidden
    }
}

/// Turn the result of a fallible visibility query into a window state,
/// treating failure as "not visible".
pub fn state_of_query(q: Option<bool>) -> (s: WindowState)
    ensures
        s == spec_state_of_query(q),
{
    match q {
        Some(true) => WindowState::Visible,
        _ => WindowState::Hidden,
    }
}

/// Everything one event causes: the window state afterwards, the command
/// issued to the window, whether a pending close is suppressed, and
/// whether (and with which code) the process exits.
#[derive(Clone, Copy, Debug, PartialEq, Eq)]
pub struct Step {
    /// The window state after the event is handled.
    pub next: WindowState,
    /// The command issued to the main window, best-effort.
    pub command: WindowCommand,
    /// Whether the default action of a pending close request is suppressed.
    pub suppress_close: bool,
    /// `Some(code)`: the process exits with that code, bypassing normal
    /// shutdown; `None`: the process keeps running.
    pub exit_code: Option<i32>,
}

/// The step an ignored event takes: nothing changes, nothing is issued.
pub open spec fn spec_no_change(state: WindowState) -> Step {
    Step { next: state, command: WindowCommand::NoOp, suppress_close: false, exit_code: None }
}

/// The step a menu activation takes. `present` says whether the main
/// window could be resolved: when it could not, show and hide are
/// silently dropped; quit exits either way.
pub open spec fn spec_on_menu_event(state: WindowState, present: bool, id: MenuId) -> Step {
    match id {
        MenuId::Quit => (Step {
            next: state,
            command: WindowCommand::NoOp,
            suppress_close: false,
            exit_code: Some(0),
        }),
        MenuId::ShowWindow => if present {
            Step {
                next: WindowState::Visible,
                command: WindowCommand::ShowAndFocus,
                suppress_close: false,
                exit_code: None,
            }
        } else {
            spec_no_change(state)
        },
        MenuId::HideWindow => if present {
            Step {
                next: WindowState::Hidden,
                command: WindowCommand::HideOnly,
                suppress_close: false,
                exit_code: None,
            }
        } else {
            spec_no_change(state)
        },
        MenuId::Unknown => spec_no_change(state),
    }
}

/// The step a tray-icon gesture takes: a double click toggles the
/// window's visibility; everything else is ignored.
pub open spec fn spec_on_tray_event(state: WindowState, present: bool, g: TrayGesture) -> Step {
    match g {
        TrayGesture::DoubleClick => if present {
            if state == WindowState::Visible {
                Step {
                    next: WindowState::Hidden,
                    command: WindowCommand::HideOnly,
                    suppress_close: false,
                    exit_code: None,
                }
            } else {
                Step {
                    next: WindowState::Visible,
                    command: WindowCommand::ShowAndFocus,
                    suppress_close: false,
                    exit_code: None,
                }
            }
        } else {
            spec_no_change(state)
        },
        TrayGesture::Other => spec_no_change(state),
    }
}

/// The step a window event takes: a close request on a resolvable main
/// window hides it and suppresses the default close, so the process
/// stays in the tray; every other window event passes through.
pub open spec fn spec_on_window_event(state: WindowState, present: bool, ev: WindowEvent) -> Step {
    match ev {
        WindowEvent::CloseRequested => if present {
            Step {
                next: WindowState::Hidden,
                command: WindowCommand::HideOnly,
                suppress_close: true,
                exit_code: None,
            }
        } else {
            spec_no_change(state)
        },
        WindowEvent::Other => spec_no_change(state),
    }
}

/// The step any event takes, by source.
pub open spec fn spec_handle_event(state: WindowState, present: bool, ev: Event) -> Step {
    match ev {
        Event::Menu(id) => spec_on_menu_event(state, present, id),
        Event::Tray(g) => spec_on_tray_event(state, present, g),
        Event::Window(w) => spec_on_window_event(state, present, w),
    }
}

/// Handle a menu activation.
pub fn on_menu_event(state: WindowState, present: bool, id: MenuId) -> (s: Step)
    ensures
        s == spec_on_menu_event(state, present, id),
{
    match id {
        MenuId::Quit => Step {
            next: state,
            command: WindowCommand::NoOp,
            suppress_close: false,
            exit_code: Some(0),
        },
        MenuId::ShowWindow => if present {
            Step {
                next: WindowState::Visible,
                command: WindowCommand::ShowAndFocus,
                suppress_close: false,
                exit_code: None,
            }
        } else {
            no_change(state)
        },
        MenuId::HideWindow => if present {
            Step {
                next: WindowState::Hidden,
                command: WindowCommand::HideOnly,
                suppress_close: false,
                exit_code: None,
            }
        } else {
            no_change(state)
        },
        MenuId::Unknown => no_change(state),
    }
}

/// Handle a tray-icon gesture.
pub fn on_tray_event(state: WindowState, present: bool, g: TrayGesture) -> (s: Step)
    ensures
        s == spec_on_tray_event(state, present, g),
{
    match g {
        TrayGesture::DoubleClick => if present {
            if state == WindowState::Visible {
                Step {
                    next: WindowState::Hidden,
                    command: WindowCommand::HideOnly,
                    suppress_close: false,
                    exit_code: None,
                }
            } else {
                Step {
                    next: WindowState::Visible,
                    command: WindowCommand::ShowAndFocus,
                    suppress_close: false,
                    exit_code: None,
                }
            }
        } else {
            no_change(state)
        },
        TrayGesture::Other => no_change(state),
    }
}

/// Handle a window event.
pub fn on_window_event(state: WindowState, present: bool, ev: WindowEvent) -> (s: Step)
    ensures
        s == spec_on_window_event(state, present, ev),
{
    match ev {
        WindowEvent::CloseRequested => if present {
            Step {
                next: WindowState::Hidden,
                command: WindowCommand::HideOnly,
                suppress_close: true,
                exit_code: None,
            }
        } else {
            no_change(state)
        },
        WindowEvent::Other => no_change(state),
    }
}

/// Handle any event, by source.
pub fn handle_event(state: WindowState, present: bool, ev: Event) -> (s: Step)
    ensures
        s == spec_handle_event(state, present, ev),
{
    match ev {
        Event::Menu(id) => on_menu_event(state, present, id),
        Event::Tray(g) => on_tray_event(state, present, g),
        Event::Window(w) => on_window_event(state, present, w),
    }
}

/// The step an ignored event takes, executably.
fn no_change(state: WindowState) -> (s: Step)
    ensures
        s == spec_no_change(state),
{
    Step { next: state, command: WindowCommand::NoOp, suppress_close: false, exit_code: None }
}

/// The window state after a whole sequence of events is handled in
/// order, each from the state the one before it left.
pub open spec fn spec_run_events(state: WindowState, present: bool, evs: Seq<Event>) -> WindowState
    decreases evs.len(),
{
    if evs.len() == 0 {
        state
    } else {
        spec_run_events(spec_handle_event(state, present, evs[0]).next, present, evs.drop_first())
    }
}

/// Run a sequence of events through the controller and return the final
/// window state.
pub fn run_events(state: WindowState, present: bool, evs: &Vec<Event>) -> (r: WindowState)
    ensures
        r == spec_run_events(state, present, evs@),
{
    let mut cur = state;
    let mut i: usize = 0;
    proof {
        assert(evs@.skip(0) =~= evs@);
    }
    while i < evs.len()
        invariant
            0 <= i <= evs.len(),
            spec_run_events(state, present, evs@) == spec_run_events(
                cur,
                present,
                evs@.skip(i as int),
            ),
        decreases evs.len() - i,
    {
        let tail = Ghost(evs@.skip(i as int));
        cur = handle_event(cur, present, evs[i]).next;
        proof {
            assert(tail@[0] == evs@[i as int]);
            assert(tail@.drop_first() =~= evs@.skip(i as int + 1));
        }
        i = i + 1;
    }
    cur
}

} // verus!
