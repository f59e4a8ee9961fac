use ad4min_tray::menu::{
    build_system_tray, MenuEntry, TrayMenu, QUIT_ITEM_ID, QUIT_ITEM_TITLE, SHOW_ITEM_ID,
    SHOW_ITEM_TITLE,
};

fn item_ids(menu: &TrayMenu) -> Vec<String> {
    let mut ids = Vec::new();
    for entry in &menu.entries {
        if let MenuEntry::Item { id, .. } = entry {
            ids.push(id.clone());
        }
    }
    ids
}

#[test]
fn menu_has_show_separator_quit_in_order() {
    let tray = build_system_tray();
    assert_eq!(
        tray.entries,
        vec![
            MenuEntry::Item { id: "show_ad4min".to_string(), title: "Show Ad4min".to_string() },
            MenuEntry::Separator,
            MenuEntry::Item { id: "quit".to_string(), title: "Quit".to_string() },
        ]
    );
}

#[test]
fn menu_has_exactly_three_entries() {
    assert_eq!(build_system_tray().entries.len(), 3);
}

#[test]
fn menu_separator_sits_between_the_items() {
    let tray = build_system_tray();
    assert!(matches!(tray.entries[0], MenuEntry::Item { .. }));
    assert_eq!(tray.entries[1], MenuEntry::Separator);
    assert!(matches!(tray.entries[2], MenuEntry::Item { .. }));
}

#[test]
fn menu_item_ids_are_unique() {
    let ids = item_ids(&build_system_tray());
    assert_eq!(ids, vec!["show_ad4min".to_string(), "quit".to_string()]);
    assert_ne!(ids[0], ids[1]);
}

#[test]
fn menu_is_the_same_on_every_build() {
    let first = build_system_tray();
    let second = build_system_tray();
    let third = build_system_tray();
    assert_eq!(first, second);
    assert_eq!(second, third);
    assert_eq!(item_ids(&first), item_ids(&third));
}

#[test]
fn menu_constants_have_their_values() {
    assert_eq!(SHOW_ITEM_ID, "show_ad4min");
    assert_eq!(SHOW_ITEM_TITLE, "Show Ad4min");
    assert_eq!(QUIT_ITEM_ID, "quit");
    assert_eq!(QUIT_ITEM_TITLE, "Quit");
}
