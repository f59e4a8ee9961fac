//! The tray menu: an ordered list of labelled items and separators.

use vstd::prelude::*;

verus! {

/// Identifier of the item that brings the main window to the front.
pub const SHOW_ITEM_ID: &'static str = "show_ad4min";

/// Label of the item that brings the main window to the front.
pub const SHOW_ITEM_TITLE: &'static str = "Show Ad4min";

/// Identifier of the item that ends the application.
pub const QUIT_ITEM_ID: &'static str = "quit";

/// Label of the item that ends the application.
pub const QUIT_ITEM_TITLE: &'static str = "Quit";

/// One line of the tray menu.
#[derive(Clone, Debug, PartialEq, Eq)]
pub enum MenuEntry {
    /// A line the user can activate; `id` is what a click reports.
    Item { id: String, title: String },
    /// A visual divider; it cannot be activated.
    Separator,
}

/// What a `MenuEntry` stands for in contracts.
pub enum MenuEntryModel {
    Item { id: Seq<char>, title: Seq<char> },
    Separator,
}

impl View for MenuEntry {
    type V = MenuEntryModel;

    open spec fn view(&self) -> MenuEntryModel {
        match self {
            MenuEntry::Item { id, title } => MenuEntryModel::Item { id: id@, title: title@ },
            MenuEntry::Separator => MenuEntryModel::Separator,
        }
    }
}

/// The menu shown under the tray icon, top to bottom.
#[derive(Clone, Debug, PartialEq, Eq)]
pub struct TrayMenu {
    pub entries: Vec<MenuEntry>,
}

impl View for TrayMenu {
    type V = Seq<MenuEntryModel>;

    open spec fn view(&self) -> Seq<MenuEntryModel> {
        Seq::new(self.entries@.len(), |i: int| self.entries@[i]@)
    }
}

/// No two items of `menu` share an identifier.
pub open spec fn ids_unique(menu: Seq<MenuEntryModel>) -> bool {
    forall|i: int, j: int|
        0 <= i < j < menu.len() && menu[i] is Item && menu[j] is Item
            ==> menu[i]->id != menu[j]->id
}

/// The menu of this application: show, a divider, quit.
pub open spec fn tray_menu_model() -> Seq<MenuEntryModel> {
    seq![
        MenuEntryModel::Item { id: SHOW_ITEM_ID@, title: SHOW_ITEM_TITLE@ },
        MenuEntryModel::Separator,
        MenuEntryModel::Item { id: QUIT_ITEM_ID@, title: QUIT_ITEM_TITLE@ },
    ]
}

/// Builds the tray menu: the show item, a divider and the quit item, in
/// this order.
pub fn build_system_tray() -> (tray: TrayMenu)
    ensures
        tray@ == tray_menu_model(),
        tray@.len() == 3,
        ids_unique(tray@),
{
    let mut entries: Vec<MenuEntry> = Vec::new();
    entries.push(MenuEntry::Item { id: SHOW_ITEM_ID.to_owned(), title: SHOW_ITEM_TITLE.to_owned() });
    entries.push(MenuEntry::Separator);
    entries.push(MenuEntry::Item { id: QUIT_ITEM_ID.to_owned(), title: QUIT_ITEM_TITLE.to_owned() });
    let tray = TrayMenu { entries };
    proof {
        assert(tray@ =~= tray_menu_model());
        lemma_menu_ids_are_unique();
    }
    tray
}

/// The menu has three entries, in this order: the show item, a divider, the
/// quit item.
pub proof fn lemma_menu_has_three_entries()
    ensures
        tray_menu_model().len() == 3,
        tray_menu_model()[0] == (MenuEntryModel::Item {
            id: SHOW_ITEM_ID@,
            title: SHOW_ITEM_TITLE@,
        }),
        tray_menu_model()[1] == MenuEntryModel::Separator,
        tray_menu_model()[2] == (MenuEntryModel::Item {
            id: QUIT_ITEM_ID@,
            title: QUIT_ITEM_TITLE@,
        }),
{
}

/// The show item and the quit item go by different identifiers.
pub proof fn lemma_item_ids_differ()
    ensures
        SHOW_ITEM_ID@ != QUIT_ITEM_ID@,
{
    reveal_strlit("show_ad4min");
    reveal_strlit("quit");
    assert(SHOW_ITEM_ID@.len() == 11);
    assert(QUIT_ITEM_ID@.len() == 4);
}

/// No two items of the menu share an identifier.
pub proof fn lemma_menu_ids_are_unique()
    ensures
        ids_unique(tray_menu_model()),
{
    lemma_item_ids_differ();
}

/// Building the menu twice gives the same menu: the same entries in the
/// same order, each item under the same identifier.
pub proof fn lemma_menu_is_stable(first: TrayMenu, second: TrayMenu)
    requires
        call_ensures(build_system_tray, (), first),
        call_ensures(build_system_tray, (), second),
    ensures
        first@ == second@,
        forall|i: int|
            0 <= i < first@.len() && #[trigger] first@[i] is Item ==> second@[i] is Item
                && second@[i]->id == first@[i]->id,
{
}

} // verus!
