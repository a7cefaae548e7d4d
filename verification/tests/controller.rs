use tray_controller::controller::handle_event;
use tray_controller::controller::on_menu_event;
use tray_controller::controller::on_tray_event;
use tray_controller::controller::on_window_event;
use tray_controller::controller::run_events;
use tray_controller::controller::state_of_query;
use tray_controller::controller::WindowCommand;
use tray_controller::controller::WindowState;
use tray_controller::events::decode_menu_id;
use tray_controller::events::Event;
use tray_controller::events::MenuId;
use tray_controller::events::TrayGesture;
use tray_controller::events::WindowEvent;

#[test]
fn decode_known_menu_ids() {
    assert_eq!(decode_menu_id("show"), MenuId::ShowWindow);
    assert_eq!(decode_menu_id("hide"), MenuId::HideWindow);
    assert_eq!(decode_menu_id("quit"), MenuId::Quit);
}

#[test]
fn decode_unknown_menu_ids() {
    assert_eq!(decode_menu_id(""), MenuId::Unknown);
    assert_eq!(decode_menu_id("Show"), MenuId::Unknown);
    assert_eq!(decode_menu_id("settings"), MenuId::Unknown);
    assert_eq!(decode_menu_id("quit "), MenuId::Unknown);
}

#[test]
fn failed_visibility_query_counts_as_hidden() {
    assert_eq!(state_of_query(Some(true)), WindowState::Visible);
    assert_eq!(state_of_query(Some(false)), WindowState::Hidden);
    assert_eq!(state_of_query(None), WindowState::Hidden);
}

#[test]
fn show_makes_visible_and_focused() {
    let step = on_menu_event(WindowState::Hidden, true, MenuId::ShowWindow);
    assert_eq!(step.next, WindowState::Visible);
    assert_eq!(step.command, WindowCommand::ShowAndFocus);
    assert!(!step.suppress_close);
    assert_eq!(step.exit_code, None);
}

#[test]
fn repeated_show_is_idempotent() {
    let evs = vec![
        Event::Menu(MenuId::ShowWindow),
        Event::Menu(MenuId::ShowWindow),
        Event::Menu(MenuId::ShowWindow),
    ];
    assert_eq!(run_events(WindowState::Hidden, true, &evs), WindowState::Visible);
    assert_eq!(run_events(WindowState::Visible, true, &evs), WindowState::Visible);
}

#[test]
fn hide_makes_hidden() {
    let step = on_menu_event(WindowState::Visible, true, MenuId::HideWindow);
    assert_eq!(step.next, WindowState::Hidden);
    assert_eq!(step.command, WindowCommand::HideOnly);
    assert!(!step.suppress_close);
    assert_eq!(step.exit_code, None);
}

#[test]
fn repeated_hide_is_idempotent() {
    let evs = vec![Event::Menu(MenuId::HideWindow), Event::Menu(MenuId::HideWindow)];
    assert_eq!(run_events(WindowState::Visible, true, &evs), WindowState::Hidden);
    assert_eq!(run_events(WindowState::Hidden, true, &evs), WindowState::Hidden);
}

#[test]
fn double_click_toggles_visibility() {
    let first = on_tray_event(WindowState::Visible, true, TrayGesture::DoubleClick);
    assert_eq!(first.next, WindowState::Hidden);
    assert_eq!(first.command, WindowCommand::HideOnly);
    let second = on_tray_event(first.next, true, TrayGesture::DoubleClick);
    assert_eq!(second.next, WindowState::Visible);
    assert_eq!(second.command, WindowCommand::ShowAndFocus);
}

#[test]
fn close_request_hides_and_never_exits() {
    for state in [WindowState::Visible, WindowState::Hidden] {
        let step = on_window_event(state, true, WindowEvent::CloseRequested);
        assert_eq!(step.next, WindowState::Hidden);
        assert_eq!(step.command, WindowCommand::HideOnly);
        assert!(step.suppress_close);
        assert_eq!(step.exit_code, None);
    }
}

#[test]
fn quit_exits_with_zero_from_any_state() {
    for state in [WindowState::Visible, WindowState::Hidden] {
        for present in [true, false] {
            let step = on_menu_event(state, present, MenuId::Quit);
            assert_eq!(step.exit_code, Some(0));
        }
    }
}

#[test]
fn ignored_events_change_nothing() {
    for state in [WindowState::Visible, WindowState::Hidden] {
        for ev in [
            Event::Menu(decode_menu_id("preferences")),
            Event::Tray(TrayGesture::Other),
            Event::Window(WindowEvent::Other),
        ] {
            let step = handle_event(state, true, ev);
            assert_eq!(step.next, state);
            assert_eq!(step.command, WindowCommand::NoOp);
            assert!(!step.suppress_close);
            assert_eq!(step.exit_code, None);
        }
    }
}

#[test]
fn absent_window_drops_show_and_hide() {
    for state in [WindowState::Visible, WindowState::Hidden] {
        for ev in [
            Event::Menu(MenuId::ShowWindow),
            Event::Menu(MenuId::HideWindow),
            Event::Tray(TrayGesture::DoubleClick),
        ] {
            let step = handle_event(state, false, ev);
            assert_eq!(step.next, state);
            assert_eq!(step.command, WindowCommand::NoOp);
            assert_eq!(step.exit_code, None);
        }
    }
}

#[test]
fn close_then_double_click_then_quit() {
    // App starts with the window visible; the user clicks the close button.
    let closed = handle_event(WindowState::Visible, true, Event::Window(WindowEvent::CloseRequested));
    assert_eq!(closed.next, WindowState::Hidden);
    assert!(closed.suppress_close);
    assert_eq!(closed.exit_code, None);
    // The process keeps running in the tray; a double click brings the window back.
    let reopened = handle_event(closed.next, true, Event::Tray(TrayGesture::DoubleClick));
    assert_eq!(reopened.next, WindowState::Visible);
    assert_eq!(reopened.command, WindowCommand::ShowAndFocus);
    assert_eq!(reopened.exit_code, None);
    // Quit from the tray menu exits with code 0.
    let quit = handle_event(reopened.next, true, Event::Menu(MenuId::Quit));
    assert_eq!(quit.exit_code, Some(0));
}
