//! The tray menu built once at startup: Show, Hide, a separator, Quit,
//! each action carrying the stable string id its activation reports.

use crate::events::MenuId;
use crate::events::spec_decode_menu_id;
use vstd::prelude::*;

verus! {

/// One entry of the tray menu.
#[derive(Debug, PartialEq, Eq)]
pub enum MenuEntry {
    /// A clickable item: `id` is the stable id its activation reports,
    /// `label` the text displayed.
    Action { id: String, label: String },
    /// A visual separator.
    Separator,
}

/// Whether an entry is an action with exactly this id and label, whose
/// id decodes back to the given menu action.
pub open spec fn spec_is_action(
    e: MenuEntry,
    id: Seq<char>,
    label: Seq<char>,
    decoded: MenuId,
) -> bool {
    &&& (e matches MenuEntry::Action { id: i, label: l } && i@ == id && l@ == label)
    &&& spec_decode_menu_id(id) == decoded
}

/// Build the tray menu: Show, Hide, a separator, Quit, in that order,
/// with ids that decode to the matching actions. Built once at startup
/// and immutable thereafter.
pub fn tray_menu_entries() -> (v: Vec<MenuEntry>)
    ensures
        v@.len() == 4,
        spec_is_action(v@[0], "show"@, "Show"@, MenuId::ShowWindow),
        spec_is_action(v@[1], "hide"@, "Hide"@, MenuId::HideWindow),
        v@[2] is Separator,
        spec_is_action(v@[3], "quit"@, "Quit"@, MenuId::Quit),
{
    proof {
        reveal_strlit("show");
        reveal_strlit("hide");
        reveal_strlit("quit");
        assert("hide"@ != "show"@) by {
            assert("hide"@[0] != "show"@[0]);
        }
        assert("quit"@ != "show"@) by {
            assert("quit"@[0] != "show"@[0]);
        }
        assert("quit"@ != "hide"@) by {
            assert("quit"@[0] != "hide"@[0]);
        }
    }
    let mut v: Vec<MenuEntry> = Vec::new();
    v.push(MenuEntry::Action { id: "show".to_owned(), label: "Show".to_owned() });
    v.push(MenuEntry::Action { id: "hide".to_owned(), label: "Hide".to_owned() });
    v.push(MenuEntry::Separator);
    v.push(MenuEntry::Action { id: "quit".to_owned(), label: "Quit".to_owned() });
    v
}

} // verus!
