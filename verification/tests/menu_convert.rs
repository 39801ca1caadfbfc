//! Menu conversion: label cleaning, field mappings, recursion with the
//! depth cap, and the renderable row projection.

use clammy::menu::clean_label;
use clammy::menu::convert_menu;
use clammy::menu::convert_menu_item;
use clammy::menu::menu_rows;
use clammy::menu::MenuItem;
use clammy::menu::WireMenu;
use clammy::menu::WireMenuItem;
use clammy::menu::WireMenuType;
use clammy::menu::WireToggleState;
use clammy::menu::WireToggleType;
use clammy::menu::MENU_DEPTH_LIMIT;

fn wire_entry(id: i32, label: Option<&str>) -> WireMenuItem {
    WireMenuItem {
        id,
        menu_type: WireMenuType::Standard,
        label: label.map(|l| l.to_string()),
        enabled: true,
        toggle_type: WireToggleType::CannotBeToggled,
        toggle_state: WireToggleState::Off,
        submenu: Vec::new(),
    }
}

#[test]
fn label_cleaning_strips_access_key_markers() {
    assert_eq!(clean_label(&Some("_Open File".to_string())), "Open File");
    assert_eq!(clean_label(&Some("No Markers".to_string())), "No Markers");
    assert_eq!(clean_label(&Some(String::new())), "");
    assert_eq!(clean_label(&None), "");
    assert_eq!(clean_label(&Some("__Two_And_More_".to_string())), "TwoAndMore");
}

#[test]
fn field_mappings_are_direct() {
    let mut checkable = wire_entry(3, Some("_File"));
    checkable.toggle_type = WireToggleType::Checkmark;
    checkable.toggle_state = WireToggleState::On;
    checkable.enabled = false;
    let m = convert_menu_item(&checkable, MENU_DEPTH_LIMIT);
    assert_eq!(m.id, 3);
    assert_eq!(m.label, "File");
    assert!(!m.enabled);
    assert!(!m.is_separator);
    assert!(m.is_checkable);
    assert!(m.is_checked);
    assert!(m.submenu.is_empty());

    let mut radio = wire_entry(4, Some("Radio"));
    radio.toggle_type = WireToggleType::Radio;
    radio.toggle_state = WireToggleState::Indeterminate;
    let r = convert_menu_item(&radio, MENU_DEPTH_LIMIT);
    assert!(r.is_checkable);
    assert!(!r.is_checked);
}

#[test]
fn separators_carry_no_label() {
    let mut sep = wire_entry(9, Some("_stray"));
    sep.menu_type = WireMenuType::Separator;
    let m = convert_menu_item(&sep, MENU_DEPTH_LIMIT);
    assert!(m.is_separator);
    assert_eq!(m.label, "");
}

#[test]
fn structure_and_order_are_preserved() {
    let mut parent = wire_entry(1, Some("Parent"));
    parent.submenu = vec![wire_entry(2, Some("A")), wire_entry(3, Some("B"))];
    let menu = WireMenu { submenus: vec![parent, wire_entry(4, Some("C"))] };
    let items = convert_menu(&menu);
    assert_eq!(items.len(), 2);
    assert_eq!(items[0].label, "Parent");
    assert_eq!(items[0].submenu.len(), 2);
    assert_eq!(items[0].submenu[0].label, "A");
    assert_eq!(items[0].submenu[1].label, "B");
    assert_eq!(items[1].label, "C");
}

fn nested_chain(depth: u32) -> WireMenuItem {
    let mut node = wire_entry(depth as i32, Some("leaf"));
    for level in (0..depth).rev() {
        let mut parent = wire_entry(level as i32, Some("node"));
        parent.submenu = vec![node];
        node = parent;
    }
    node
}

#[test]
fn pathological_depth_is_truncated_not_overflowed() {
    // A chain nested far past the cap converts without overflow, and
    // children past the cap are dropped.
    let menu = WireMenu { submenus: vec![nested_chain(300)] };
    let items = convert_menu(&menu);
    let mut depth = 0u32;
    let mut cursor: &MenuItem = &items[0];
    while !cursor.submenu.is_empty() {
        assert_eq!(cursor.submenu.len(), 1);
        cursor = &cursor.submenu[0];
        depth += 1;
    }
    assert_eq!(depth, MENU_DEPTH_LIMIT - 1);
}

#[test]
fn rows_keep_visible_entries_in_order() {
    let wire = vec![
        wire_entry(1, Some("Shown")),
        wire_entry(2, None),  // empty label, not a separator: dropped
        {
            let mut sep = wire_entry(3, None);
            sep.menu_type = WireMenuType::Separator;
            sep
        },
        {
            let mut checked = wire_entry(4, Some("Checked"));
            checked.toggle_type = WireToggleType::Checkmark;
            checked.toggle_state = WireToggleState::On;
            checked
        },
    ];
    let menu = WireMenu { submenus: wire };
    let items = convert_menu(&menu);
    let rows = menu_rows(&items);
    assert_eq!(rows.len(), 3);
    assert_eq!(rows[0].label, "Shown");
    assert!(rows[0].clickable);
    assert!(!rows[0].show_checked);
    assert!(rows[1].is_separator);
    assert!(!rows[1].clickable);
    assert_eq!(rows[2].label, "Checked");
    assert!(rows[2].show_checked);
}

#[test]
fn disabled_and_separator_rows_are_not_clickable() {
    let mut disabled = wire_entry(1, Some("Grey"));
    disabled.enabled = false;
    let mut sep = wire_entry(2, None);
    sep.menu_type = WireMenuType::Separator;
    sep.enabled = true;
    let menu = WireMenu { submenus: vec![disabled, sep] };
    let rows = menu_rows(&convert_menu(&menu));
    assert_eq!(rows.len(), 2);
    assert!(!rows[0].clickable);
    assert!(!rows[1].clickable);
}
