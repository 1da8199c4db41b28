//! A platform-neutral description of a popup menu: the program that shows
//! it turns each entry into a native menu item.

use vstd::prelude::*;

verus! {

/// One line of a popup menu.
#[derive(Debug)]
pub enum MenuEntry {
    /// A command with the identifier reported when it is chosen.
    Item { id: usize, label: String, checked: bool },
    /// A submenu.
    Popup { label: String, entries: Vec<MenuEntry> },
    /// A separator line.
    Separator,
}

/// `e` is a command entry with exactly these id, label and check state.
pub open spec fn is_item(e: MenuEntry, id: int, label: Seq<char>, checked: bool) -> bool {
    match e {
        MenuEntry::Item { id: i, label: l, checked: c } => i == id && l@ == label && c == checked,
        _ => false,
    }
}

/// `e` is a separator.
pub open spec fn is_separator(e: MenuEntry) -> bool {
    e is Separator
}

/// `e` is a submenu titled `label`.
pub open spec fn is_popup_titled(e: MenuEntry, label: Seq<char>) -> bool {
    match e {
        MenuEntry::Popup { label: l, entries: _ } => l@ == label,
        _ => false,
    }
}

/// The entries of a submenu (empty for any other entry).
pub open spec fn popup_entries(e: MenuEntry) -> Seq<MenuEntry> {
    match e {
        MenuEntry::Popup { label: _, entries } => entries@,
        _ => Seq::empty(),
    }
}

/// A command entry.
pub fn item(id: usize, label: String, checked: bool) -> (e: MenuEntry)
    ensures
        is_item(e, id as int, label@, checked),
{
    MenuEntry::Item { id, label, checked }
}

} // verus!
