//! The fixed tray menu: six entries in a fixed order — pause, resume, a
//! separator, dashboard, a second separator, quit. Entries are built once
//! at startup and never change; the separator is the only entry that is
//! not interactive, and the only identifier that repeats.

use vstd::prelude::*;
use vstd::string::*;

verus! {

use crate::dispatch::Directive;
use crate::dispatch::lemma_identifiers_distinct;
use crate::dispatch::lemma_separator_ignored;
use crate::dispatch::menu_directive;

/// One entry of the tray menu: an identifier, a display label, and
/// whether the entry is interactive (the separator is not).
pub struct MenuItem {
    /// The identifier the platform hands back when the entry is selected.
    pub id: String,
    /// The label shown to the user; empty for the separator.
    pub label: String,
    /// Whether the entry can be selected.
    pub enabled: bool,
}

/// The fixed layout of the tray menu: for each entry in order, its
/// identifier, its label, and whether it is interactive.
pub open spec fn menu_layout() -> Seq<(Seq<char>, Seq<char>, bool)> {
    seq![
        ("pause"@, "Pause Agent-0"@, true),
        ("resume"@, "Resume Agent-0"@, true),
        ("separator"@, ""@, false),
        ("dashboard"@, "Open Dashboard"@, true),
        ("separator"@, ""@, false),
        ("quit"@, "Quit"@, true),
    ]
}

/// Whether `item` is the entry that `entry` describes.
pub open spec fn item_matches(item: MenuItem, entry: (Seq<char>, Seq<char>, bool)) -> bool {
    &&& item.id@ == entry.0
    &&& item.label@ == entry.1
    &&& item.enabled == entry.2
}

/// Whether `items` is exactly the fixed tray menu, entry for entry.
pub open spec fn is_tray_menu(items: Seq<MenuItem>) -> bool {
    &&& items.len() == menu_layout().len()
    &&& forall|i: int| 0 <= i < items.len() ==> item_matches(#[trigger] items[i], menu_layout()[i])
}

/// Builds one menu entry.
fn menu_item(id: &str, label: &str, enabled: bool) -> (r: MenuItem)
    ensures
        r.id@ == id@,
        r.label@ == label@,
        r.enabled == enabled,
{
    MenuItem { id: String::from_str(id), label: String::from_str(label), enabled }
}

/// Builds the fixed tray menu: pause, resume, separator, dashboard,
/// separator, quit, in that order, with their display labels; the two
/// separators are the only entries that cannot be selected.
pub fn tray_menu_items() -> (r: Vec<MenuItem>)
    ensures
        is_tray_menu(r@),
{
    let mut items: Vec<MenuItem> = Vec::new();
    items.push(menu_item("pause", "Pause Agent-0", true));
    items.push(menu_item("resume", "Resume Agent-0", true));
    items.push(menu_item("separator", "", false));
    items.push(menu_item("dashboard", "Open Dashboard", true));
    items.push(menu_item("separator", "", false));
    items.push(menu_item("quit", "Quit", true));
    items
}

/// Law: among the interactive entries of the menu, identifiers are
/// unique; the only identifier that occurs twice belongs to the two
/// non-interactive separators.
pub proof fn lemma_interactive_ids_unique()
    ensures
        forall|i: int, j: int|
            0 <= i < menu_layout().len() && 0 <= j < menu_layout().len() && i != j
                && (#[trigger] menu_layout()[i]).2 && (#[trigger] menu_layout()[j]).2
                ==> menu_layout()[i].0 != menu_layout()[j].0,
{
    lemma_identifiers_distinct();
}

/// Law: a menu entry is interactive exactly when the dispatcher
/// recognizes its identifier: selecting any interactive entry produces a
/// real directive, and selecting a separator does nothing.
pub proof fn lemma_menu_dispatch_coherent()
    ensures
        forall|i: int|
            0 <= i < menu_layout().len()
                ==> ((#[trigger] menu_layout()[i]).2
                    <==> menu_directive(menu_layout()[i].0) != Directive::Ignore),
{
    lemma_identifiers_distinct();
    lemma_separator_ignored();
}

} // verus!
