//! A tray-icon window controller: the state machine that maps tray-menu
//! activations, tray-icon gestures and window close requests to window
//! visibility commands.
//!
//! The crate owns only the decisions: which command to issue, what the
//! window state becomes, when the process exits. Wiring those decisions
//! to a GUI framework's event loop is left to the embedding application.

pub mod controller;
pub mod events;
pub mod laws;
pub mod menu;
