use lorewyld::content::display_categories;
use lorewyld::web::{
    breadcrumb_items, compendium_subitem_class, compendium_subitems, dice_button_class, nav_item_class,
    settings_subitem_class, Crumb, DiceType, StyleVersion,
};

#[test]
fn dice_in_roller_order_with_labels_and_sides() {
    let dice = DiceType::all();
    let labels: Vec<&str> = dice.iter().map(|d| d.label()).collect();
    assert_eq!(labels, vec!["d4", "d6", "d8", "d10", "d100", "d12", "d20"]);
    let sides: Vec<u32> = dice.iter().map(|d| d.sides()).collect();
    assert_eq!(sides, vec![4, 6, 8, 10, 100, 12, 20]);
    for d in dice {
        assert_eq!(d.label(), format!("d{}", d.sides()));
    }
}

#[test]
fn breadcrumb_segments() {
    let l = Crumb::link("Compendium", "/compendium");
    assert_eq!(l.label, "Compendium");
    assert_eq!(l.href.as_deref(), Some("/compendium"));
    assert_eq!(l.id, None);
    let s = Crumb::slot("lw-crumb-entry");
    assert_eq!(s.label, "…");
    assert_eq!(s.href, None);
    assert_eq!(s.id, Some("lw-crumb-entry"));
    let ls = Crumb::link_slot("lw-crumb-setting", "/lore/s1");
    assert_eq!(ls.label, "…");
    assert_eq!(ls.href.as_deref(), Some("/lore/s1"));
}

#[test]
fn only_the_last_unlinked_crumb_is_the_page() {
    let trail = vec![Crumb::link("Home", "/"), Crumb::here("Lore"), Crumb::here("Notes")];
    let items = breadcrumb_items(trail);
    let flags: Vec<bool> = items.iter().map(|i| i.current_page).collect();
    assert_eq!(flags, vec![false, false, true]);
    assert_eq!(items[1].crumb.label, "Lore");
    let linked_last = breadcrumb_items(vec![Crumb::here("A"), Crumb::link("B", "/b")]);
    assert!(!linked_last[0].current_page && !linked_last[1].current_page);
    assert!(breadcrumb_items(vec![]).is_empty());
}

#[test]
fn navigation_highlighting() {
    assert_eq!(nav_item_class("/", "/"), "lw-nav-item lw-nav-item-active");
    assert_eq!(nav_item_class("/lore", "/"), "lw-nav-item");
    assert_eq!(nav_item_class("/lore/abc", "/lore"), "lw-nav-item lw-nav-item-active");
    assert_eq!(nav_item_class("/search", "/lore"), "lw-nav-item");
    assert_eq!(dice_button_class("/roll"), "lw-nav-dice-btn lw-nav-dice-btn-active");
    assert_eq!(dice_button_class("/rolls"), "lw-nav-dice-btn");
    assert_eq!(settings_subitem_class("/lore", "/settings/users"), "lw-nav-subitem lw-hidden");
    assert_eq!(settings_subitem_class("/settings/users", "/settings/users"), "lw-nav-item lw-nav-subitem lw-nav-item-active");
    assert_eq!(settings_subitem_class("/settings/server", "/settings/users"), "lw-nav-item lw-nav-subitem");
    assert_eq!(compendium_subitem_class("/", "/compendium/spell"), "lw-nav-subitem lw-hidden");
    assert_eq!(
        compendium_subitem_class("/compendium/spell/abc", "/compendium/spell"),
        "lw-nav-item lw-nav-subitem lw-nav-item-active"
    );
    // A longer category name sharing the prefix is not highlighted.
    assert_eq!(compendium_subitem_class("/compendium/spellbook", "/compendium/spell"), "lw-nav-item lw-nav-subitem");
}

#[test]
fn compendium_menu_matches_the_tiles() {
    let items = compendium_subitems();
    let tiles = display_categories();
    assert_eq!(items.len(), tiles.len());
    for (item, tile) in items.iter().zip(tiles.iter()) {
        assert_eq!(item.0, format!("/compendium/{tile}"));
    }
    let labels: Vec<&str> = items.iter().map(|i| i.1).collect();
    assert_eq!(
        labels,
        vec![
            "Spells", "Creatures", "Classes & subclasses", "Species", "Backgrounds", "Feats",
            "Items & gear", "Weapons", "Armor", "Conditions", "Languages",
        ]
    );
}

#[test]
fn style_version_token() {
    assert_eq!(StyleVersion::from_mtime(Some(1_700_000_000), "0.3.1").0, "1700000000");
    assert_eq!(StyleVersion::from_mtime(None, "0.3.1").0, "0.3.1");
    let v = StyleVersion::from_mtime(Some(42), "x");
    assert_eq!(v.asset_href("/assets/style.css"), "/assets/style.css?v=42");
}
