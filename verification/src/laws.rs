//! The controller's guarantees, stated and proved over the transition
//! functions: idempotence of show and hide, the double-click toggle,
//! the close intercept, quit, and that ignored events change nothing.

use crate::controller::WindowCommand;
use crate::controller::WindowState;
use crate::controller::spec_handle_event;
use crate::controller::spec_no_change;
use crate::controller::spec_run_events;
use crate::events::Event;
use crate::events::MenuId;
use crate::events::TrayGesture;
use crate::events::WindowEvent;
use vstd::prelude::*;

verus! {

/// Law: any non-empty run of `show` menu activations, with the main
/// window resolvable, leaves the window visible — in particular a repeat
/// while already visible keeps it visible — and every one of those
/// activations shows the window and gives it focus.
pub proof fn lemma_show_sequence_makes_visible(state: WindowState, evs: Seq<Event>)
    requires
        evs.len() > 0,
        forall|i: int| 0 <= i < evs.len() ==> evs[i] == Event::Menu(MenuId::ShowWindow),
    ensures
        spec_run_events(state, true, evs) == WindowState::Visible,
        forall|s: WindowState|
            spec_handle_event(s, true, Event::Menu(MenuId::ShowWindow)).command
                == WindowCommand::ShowAndFocus,
    decreases evs.len(),
{
    assert(evs[0] == Event::Menu(MenuId::ShowWindow));
    let after = spec_handle_event(state, true, evs[0]).next;
    let tail = evs.drop_first();
    if evs.len() > 1 {
        assert forall|i: int| 0 <= i < tail.len() implies tail[i] == Event::Menu(
            MenuId::ShowWindow,
        ) by {
            assert(tail[i] == evs[i + 1]);
        }
        lemma_show_sequence_makes_visible(after, tail);
    } else {
        assert(tail.len() == 0);
    }
}

/// Law: any non-empty run of `hide` menu activations, with the main
/// window resolvable, leaves the window hidden — in particular a repeat
/// while already hidden keeps it hidden.
pub proof fn lemma_hide_sequence_makes_hidden(state: WindowState, evs: Seq<Event>)
    requires
        evs.len() > 0,
        forall|i: int| 0 <= i < evs.len() ==> evs[i] == Event::Menu(MenuId::HideWindow),
    ensures
        spec_run_events(state, true, evs) == WindowState::Hidden,
    decreases evs.len(),
{
    assert(evs[0] == Event::Menu(MenuId::HideWindow));
    let after = spec_handle_event(state, true, evs[0]).next;
    let tail = evs.drop_first();
    if evs.len() > 1 {
        assert forall|i: int| 0 <= i < tail.len() implies tail[i] == Event::Menu(
            MenuId::HideWindow,
        ) by {
            assert(tail[i] == evs[i + 1]);
        }
        lemma_hide_sequence_makes_hidden(after, tail);
    } else {
        assert(tail.len() == 0);
    }
}

/// Law: a double click on the tray icon toggles the window's visibility,
/// and two double clicks return it to where it started.
pub proof fn lemma_double_click_toggles(state: WindowState)
    ensures
        spec_handle_event(WindowState::Visible, true, Event::Tray(TrayGesture::DoubleClick)).next
            == WindowState::Hidden,
        spec_handle_event(WindowState::Hidden, true, Event::Tray(TrayGesture::DoubleClick)).next
            == WindowState::Visible,
        spec_handle_event(
            spec_handle_event(state, true, Event::Tray(TrayGesture::DoubleClick)).next,
            true,
            Event::Tray(TrayGesture::DoubleClick),
        ).next == state,
{
}

/// Law: a close request never exits the process, and with the main
/// window resolvable it always leaves the window hidden and suppresses
/// the default close, whatever the state before.
pub proof fn lemma_close_request_hides_not_exits(state: WindowState, present: bool)
    ensures
        spec_handle_event(state, present, Event::Window(WindowEvent::CloseRequested)).exit_code
            is None,
        present ==> spec_handle_event(
            state,
            present,
            Event::Window(WindowEvent::CloseRequested),
        ).next == WindowState::Hidden,
        present ==> spec_handle_event(
            state,
            present,
            Event::Window(WindowEvent::CloseRequested),
        ).suppress_close,
{
}

/// Law: the `quit` menu activation exits the process with code 0 from
/// any window state, whether or not the main window resolves.
pub proof fn lemma_quit_exits_with_zero(state: WindowState, present: bool)
    ensures
        spec_handle_event(state, present, Event::Menu(MenuId::Quit)).exit_code == Some(0i32),
{
}

/// Law: an unknown menu id, a tray gesture other than a double click,
/// and a window event other than a close request all change nothing:
/// same state, no command, no close suppression, no exit.
pub proof fn lemma_ignored_events_change_nothing(state: WindowState, present: bool)
    ensures
        spec_handle_event(state, present, Event::Menu(MenuId::Unknown)) == spec_no_change(state),
        spec_handle_event(state, present, Event::Tray(TrayGesture::Other)) == spec_no_change(
            state,
        ),
        spec_handle_event(state, present, Event::Window(WindowEvent::Other)) == spec_no_change(
            state,
        ),
{
}

} // verus!
