//! The events the controller reacts to, and the decoding of raw menu-item
//! ids into a tagged enum, so that stringly-typed dispatch ends here.

use vstd::prelude::*;

verus! {

/// A tray-menu activation, decoded from the menu item's stable string id.
#[derive(Clone, Copy, Debug, PartialEq, Eq, Structural)]
pub enum MenuId {
    /// The "show" item: make the main window visible and focused.
    ShowWindow,
    /// The "hide" item: make the main window invisible.
    HideWindow,
    /// The "quit" item: terminate the process.
    Quit,
    /// Any other id: ignored.
    Unknown,
}

/// A gesture on the tray icon itself. Only a double click acts;
/// single clicks, right clicks and all other gestures are ignored.
#[derive(Clone, Copy, Debug, PartialEq, Eq, Structural)]
pub enum TrayGesture {
    DoubleClick,
    Other,
}

/// An event on the main window. Only a close request is intercepted;
/// every other window event passes through untouched.
#[derive(Clone, Copy, Debug, PartialEq, Eq, Structural)]
pub enum WindowEvent {
    CloseRequested,
    Other,
}

/// Any event the controller handles, from whichever source.
#[derive(Clone, Copy, Debug, PartialEq, Eq, Structural)]
pub enum Event {
    Menu(MenuId),
    Tray(TrayGesture),
    Window(WindowEvent),
}

/// Which menu action a raw menu-item id stands for.
pub open spec fn spec_decode_menu_id(s: Seq<char>) -> MenuId {
    if s == "show"@ {
        MenuId::ShowWindow
    } else if s == "hide"@ {
        MenuId::HideWindow
    } else if s == "quit"@ {
        MenuId::Quit
    } else {
        MenuId::Unknown
    }
}

/// Decode a raw menu-item id into the action it stands for; an id the
/// menu never uses decodes to `Unknown`.
pub fn decode_menu_id(id: &str) -> (m: MenuId)
    ensures
        m == spec_decode_menu_id(id@),
{
    let owned: String = id.to_owned();
    if owned == "show".to_owned() {
        MenuId::ShowWindow
    } else if owned == "hide".to_owned() {
        MenuId::HideWindow
    } else if owned == "quit".to_owned() {
        MenuId::Quit
    } else {
        MenuId::Unknown
    }
}

} // verus!
