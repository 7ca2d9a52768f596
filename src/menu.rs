//! The fixed contents of the tray: its menu, in display order, its tooltip,
//! and the label of the window that the menu acts on.

use vstd::prelude::*;
use crate::dispatch::{Action, lemma_menu_ids_distinct, menu_action_of};

verus! {

/// One item of the tray menu: the id that its clicks carry, and the text
/// shown.
#[derive(Clone, Debug)]
pub struct MenuEntry {
    pub id: String,
    pub label: String,
}

/// The tray menu as (id, label) pairs, in display order.
pub open spec fn menu_layout() -> Seq<(Seq<char>, Seq<char>)> {
    seq![("show"@, "Show Vortex"@), ("hide"@, "Hide"@), ("quit"@, "Quit"@)]
}

pub fn tray_menu() -> (r: Vec<MenuEntry>)
    ensures
        r@.len() == menu_layout().len(),
        forall|i: int| 0 <= i < r@.len() ==> (#[trigger] r@[i].id@, r@[i].label@) == menu_layout()[i],
{
    let r = vec![
        MenuEntry { id: "show".to_owned(), label: "Show Vortex".to_owned() },
        MenuEntry { id: "hide".to_owned(), label: "Hide".to_owned() },
        MenuEntry { id: "quit".to_owned(), label: "Quit".to_owned() },
    ];
    r
}

pub fn tray_tooltip() -> (r: String)
    ensures
        r@ == "Vortex"@,
{
    "Vortex".to_owned()
}

/// The label of the window that the shell shows, hides and focuses.
pub fn main_window_label() -> (r: String)
    ensures
        r@ == "main"@,
{
    "main".to_owned()
}

/// Each item of the tray menu has an action of its own: "show" reveals the
/// main window, "hide" hides it, and "quit" exits with status 0.
pub proof fn lemma_menu_items_act()
    ensures
        menu_action_of(menu_layout()[0].0) == Action::RevealMainWindow,
        menu_action_of(menu_layout()[1].0) == Action::HideMainWindow,
        menu_action_of(menu_layout()[2].0) == Action::Exit(0),
{
    lemma_menu_ids_distinct();
}

} // verus!
