use tray_controller::events::decode_menu_id;
use tray_controller::events::MenuId;
use tray_controller::menu::tray_menu_entries;
use tray_controller::menu::MenuEntry;

#[test]
fn menu_has_show_hide_separator_quit() {
    let entries = tray_menu_entries();
    assert_eq!(entries.len(), 4);
    match &entries[0] {
        MenuEntry::Action { id, label } => {
            assert_eq!(id.as_str(), "show");
            assert_eq!(label.as_str(), "Show");
        },
        MenuEntry::Separator => panic!("first entry must be the show item"),
    }
    match &entries[1] {
        MenuEntry::Action { id, label } => {
            assert_eq!(id.as_str(), "hide");
            assert_eq!(label.as_str(), "Hide");
        },
        MenuEntry::Separator => panic!("second entry must be the hide item"),
    }
    assert_eq!(entries[2], MenuEntry::Separator);
    match &entries[3] {
        MenuEntry::Action { id, label } => {
            assert_eq!(id.as_str(), "quit");
            assert_eq!(label.as_str(), "Quit");
        },
        MenuEntry::Separator => panic!("fourth entry must be the quit item"),
    }
}

#[test]
fn menu_ids_decode_to_their_actions() {
    let entries = tray_menu_entries();
    let expected = [
        Some(MenuId::ShowWindow),
        Some(MenuId::HideWindow),
        None,
        Some(MenuId::Quit),
    ];
    for (entry, want) in entries.iter().zip(expected.iter()) {
        match entry {
            MenuEntry::Action { id, label: _ } => {
                assert_eq!(Some(decode_menu_id(id.as_str())), *want);
            },
            MenuEntry::Separator => assert_eq!(*want, None),
        }
    }
}
