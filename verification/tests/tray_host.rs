//! Tray state store, popup lifecycle, and the host routing between them.

use clammy::host::ClickAction;
use clammy::host::TrayHost;
use clammy::icon::IconHandle;
use clammy::listener::snapshot_messages;
use clammy::listener::translate_update;
use clammy::listener::SnapshotEntry;
use clammy::listener::WireUpdate;
use clammy::menu::convert_menu;
use clammy::menu::WireMenu;
use clammy::menu::WireMenuItem;
use clammy::menu::WireMenuType;
use clammy::menu::WireToggleState;
use clammy::menu::WireToggleType;
use clammy::popup::PopupManager;
use clammy::tray::ActivateRequest;
use clammy::tray::CustomIndicator;
use clammy::tray::Message;
use clammy::tray::SystemTray;

fn added(address: &str, title: Option<&str>) -> Message {
    Message::ItemAdded {
        address: address.to_string(),
        title: title.map(|t| t.to_string()),
        icon_handle: None,
        item_is_menu: false,
    }
}

fn wire_entry(id: i32, label: &str) -> WireMenuItem {
    WireMenuItem {
        id,
        menu_type: WireMenuType::Standard,
        label: Some(label.to_string()),
        enabled: true,
        toggle_type: WireToggleType::CannotBeToggled,
        toggle_state: WireToggleState::Off,
        submenu: Vec::new(),
    }
}

fn menu_update(address: &str, labels: &[(i32, &str)]) -> Message {
    let menu = WireMenu {
        submenus: labels.iter().map(|(id, l)| wire_entry(*id, l)).collect(),
    };
    Message::MenuUpdated { address: address.to_string(), menu_items: convert_menu(&menu) }
}

#[test]
fn partial_update_merges_instead_of_replacing() {
    let mut tray = SystemTray::default();
    tray.update(added("X", None));
    tray.update(Message::ItemUpdated {
        address: "X".to_string(),
        title: Some("A".to_string()),
        icon_handle: None,
    });
    tray.update(Message::ItemUpdated {
        address: "X".to_string(),
        title: None,
        icon_handle: None,
    });
    let view = tray.view_model();
    assert_eq!(view.len(), 1);
    assert_eq!(view[0].tooltip.as_deref(), Some("A"));
}

#[test]
fn duplicate_add_overwrites_last_write_wins() {
    let mut tray = SystemTray::default();
    tray.update(added("X", Some("first")));
    tray.update(menu_update("X", &[(1, "Entry")]));
    assert!(tray.has_menu(&"X".to_string()));
    tray.update(added("X", Some("second")));
    let view = tray.view_model();
    assert_eq!(view.len(), 1);
    assert_eq!(view[0].tooltip.as_deref(), Some("second"));
    // The overwrite starts from a fresh entry: the old menu is gone.
    assert!(!tray.has_menu(&"X".to_string()));
}

#[test]
fn updates_to_unknown_addresses_are_silent_noops() {
    let mut tray = SystemTray::default();
    tray.update(Message::ItemUpdated {
        address: "ghost".to_string(),
        title: Some("t".to_string()),
        icon_handle: None,
    });
    tray.update(menu_update("ghost", &[(1, "Entry")]));
    tray.update(Message::ItemRemoved("ghost".to_string()));
    assert!(tray.view_model().is_empty());
}

#[test]
fn left_click_always_asks_default_activation() {
    let mut tray = SystemTray::default();
    tray.update(added("X", None));
    let effect = tray.update(Message::ItemClicked("X".to_string()));
    match effect {
        Some(ActivateRequest::DefaultActivation { address, x, y }) => {
            assert_eq!(address, "X");
            assert_eq!((x, y), (0, 0));
        }
        other => panic!("expected a default activation, got {:?}", other),
    }
}

#[test]
fn right_click_toggles_open_menu_marker() {
    let mut tray = SystemTray::default();
    tray.update(added("X", None));
    tray.update(Message::ItemRightClicked("X".to_string()));
    assert_eq!(tray.open_menu_target().as_deref(), Some("X"));
    assert!(tray.view_model()[0].menu_open);
    tray.update(Message::ItemRightClicked("X".to_string()));
    assert_eq!(tray.open_menu_target(), None);
    // Independent of menu presence: an unknown address opens too.
    tray.update(Message::ItemRightClicked("Y".to_string()));
    assert_eq!(tray.open_menu_target().as_deref(), Some("Y"));
}

#[test]
fn removing_open_menu_target_clears_marker_then_other_opens() {
    let mut tray = SystemTray::default();
    tray.update(added("X", None));
    tray.update(added("Y", None));
    tray.update(Message::ItemRightClicked("X".to_string()));
    assert_eq!(tray.open_menu_target().as_deref(), Some("X"));
    tray.update(Message::ItemRemoved("X".to_string()));
    assert_eq!(tray.open_menu_target(), None);
    tray.update(Message::ItemRightClicked("Y".to_string()));
    assert_eq!(tray.open_menu_target().as_deref(), Some("Y"));
    // Removing an item the marker does not point at leaves it alone.
    tray.update(added("Z", None));
    tray.update(Message::ItemRemoved("Z".to_string()));
    assert_eq!(tray.open_menu_target().as_deref(), Some("Y"));
}

#[test]
fn menu_item_click_closes_and_activates() {
    let mut tray = SystemTray::default();
    tray.update(added("X", None));
    tray.update(Message::ItemRightClicked("X".to_string()));
    let effect = tray.update(Message::MenuItemClicked {
        address: "X".to_string(),
        menu_id: 7,
    });
    assert_eq!(tray.open_menu_target(), None);
    match effect {
        Some(ActivateRequest::MenuItemActivation { address, menu_path, item_id }) => {
            assert_eq!(address, "X");
            assert_eq!(menu_path, "/MenuBar");
            assert_eq!(item_id, 7);
        }
        other => panic!("expected a menu activation, got {:?}", other),
    }
}

#[test]
fn has_menu_counts_entries_or_menu_only_flag() {
    let mut tray = SystemTray::default();
    tray.update(added("plain", None));
    assert!(!tray.has_menu(&"plain".to_string()));
    tray.update(menu_update("plain", &[(1, "Entry")]));
    assert!(tray.has_menu(&"plain".to_string()));
    tray.update(Message::ItemAdded {
        address: "menuonly".to_string(),
        title: None,
        icon_handle: None,
        item_is_menu: true,
    });
    assert!(tray.has_menu(&"menuonly".to_string()));
    assert!(!tray.has_menu(&"ghost".to_string()));
}

#[test]
fn custom_indicators_add_and_remove() {
    let mut tray = SystemTray::default();
    let ind = |id: &str| CustomIndicator {
        id: id.to_string(),
        icon: IconHandle::FilePath(format!("/icons/{}.png", id)),
        tooltip: format!("tip {}", id),
    };
    tray.add_custom_indicator(ind("a"));
    tray.add_custom_indicator(ind("b"));
    tray.add_custom_indicator(ind("a"));
    assert_eq!(tray.indicator_views().len(), 3);
    tray.remove_custom_indicator(&"a".to_string());
    let left = tray.indicator_views();
    assert_eq!(left.len(), 1);
    assert_eq!(left[0].id, "b");
    // Removal of an absent id is a no-op.
    tray.remove_custom_indicator(&"zzz".to_string());
    assert_eq!(tray.indicator_views().len(), 1);
}

#[test]
fn popup_animation_progress_clamps_at_full() {
    let mut popups = PopupManager::new();
    popups.open(1, "X".to_string(), Vec::new());
    assert_eq!(popups.progress_of(1), Some(0));
    for n in 1..=6u32 {
        popups.tick();
        assert_eq!(popups.progress_of(1), Some((15 * n).min(100) as u8));
    }
    popups.tick();
    assert_eq!(popups.progress_of(1), Some(100));
    popups.tick();
    assert_eq!(popups.progress_of(1), Some(100));
    assert!(!popups.any_animating());
}

#[test]
fn popup_sizes_and_visible_height() {
    let mut popups = PopupManager::new();
    let menu = WireMenu { submenus: vec![wire_entry(1, "A"), wire_entry(2, "B")] };
    let size = popups.open(5, "X".to_string(), convert_menu(&menu));
    // Two rows: 2 * 28 + 16 content, + 22 offset.
    assert_eq!(size, (200, 2 * 28 + 16 + 22));
    // Linear progress 0: the eased height floor is one pixel.
    assert_eq!(popups.visible_height(5), Some(1));
    for _ in 0..7 {
        popups.tick();
    }
    // Fully open: the full content height.
    assert_eq!(popups.visible_height(5), Some(2 * 28 + 16));

    // A tall menu is capped at the window height limit.
    let mut tall = PopupManager::new();
    let many: Vec<(i32, &str)> = (0..50).map(|i| (i, "row")).collect();
    let menu = WireMenu {
        submenus: many.iter().map(|(id, l)| wire_entry(*id, l)).collect(),
    };
    let size = tall.open(6, "X".to_string(), convert_menu(&menu));
    assert_eq!(size, (200, 400));
}

#[test]
fn eased_height_is_quadratic_in_progress() {
    let mut popups = PopupManager::new();
    let many: Vec<WireMenuItem> = (0..3).map(|i| wire_entry(i, "row")).collect();
    popups.open(9, "X".to_string(), convert_menu(&WireMenu { submenus: many }));
    // content = 3 * 28 + 16 = 100 px; after two ticks progress is 30,
    // eased = 1 - 0.7^2 = 0.51, so 51 px.
    popups.tick();
    popups.tick();
    assert_eq!(popups.visible_height(9), Some(51));
}

#[test]
fn cancel_key_closes_first_open_popup() {
    let mut host = TrayHost::new();
    host.apply(added("X", None));
    host.apply(added("Y", None));
    host.open_popup(1, &"X".to_string());
    host.open_popup(2, &"Y".to_string());
    assert_eq!(host.cancel_key(), Some(1));
    assert_eq!(host.cancel_key(), Some(2));
    assert_eq!(host.cancel_key(), None);
}

#[test]
fn item_removal_drops_its_popups() {
    let mut host = TrayHost::new();
    host.apply(added("X", None));
    host.apply(added("Y", None));
    host.open_popup(1, &"X".to_string());
    host.open_popup(2, &"Y".to_string());
    host.open_popup(3, &"X".to_string());
    let (_, closed) = host.apply(Message::ItemRemoved("X".to_string()));
    assert_eq!(closed, vec![1, 3]);
    assert!(host.popup_rows(1).is_none());
    assert!(host.popup_rows(2).is_some());
    assert!(host.popup_rows(3).is_none());
}

#[test]
fn left_click_routes_by_menu_presence() {
    let mut host = TrayHost::new();
    host.apply(added("plain", None));
    host.apply(added("menued", None));
    host.apply(menu_update("menued", &[(1, "Entry")]));
    match host.left_click("plain".to_string()) {
        ClickAction::Activate(ActivateRequest::DefaultActivation { address, .. }) => {
            assert_eq!(address, "plain");
        }
        other => panic!("expected an activation, got {:?}", other),
    }
    match host.left_click("menued".to_string()) {
        ClickAction::OpenMenu(address) => assert_eq!(address, "menued"),
        other => panic!("expected a menu open, got {:?}", other),
    }
}

#[test]
fn popup_snapshot_survives_later_menu_updates() {
    let mut host = TrayHost::new();
    host.apply(added("X", None));
    host.apply(menu_update("X", &[(1, "Old")]));
    host.open_popup(1, &"X".to_string());
    host.apply(menu_update("X", &[(2, "New")]));
    let rows = host.popup_rows(1).expect("popup is open");
    assert_eq!(rows.len(), 1);
    assert_eq!(rows[0].label, "Old");
    assert_eq!(rows[0].item_id, 1);
}

#[test]
fn end_to_end_right_click_opens_click_activates_and_closes() {
    let mut host = TrayHost::new();
    host.apply(added("steam", Some("Steam")));
    host.apply(menu_update("steam", &[(1, "Quit")]));

    // Right-click: the open-menu routing decision.
    let outcome = host.right_click("steam".to_string());
    assert_eq!(outcome.open_menu.as_deref(), Some("steam"));
    assert!(outcome.closed_windows.is_empty());

    // The environment assigns window id 1 and the popup opens.
    let size = host.open_popup(1, &"steam".to_string()).expect("known address");
    assert_eq!(size, (200, 28 + 16 + 22));

    // Rendered popup: exactly one enabled row labelled "Quit".
    let rows = host.popup_rows(1).expect("popup is open");
    assert_eq!(rows.len(), 1);
    assert_eq!(rows[0].label, "Quit");
    assert!(rows[0].enabled);
    assert!(rows[0].clickable);
    assert!(!rows[0].is_separator);

    // Clicking the row emits exactly the expected activation and closes.
    let (effect, was_open) = host.menu_row_click(1, "steam".to_string(), 1);
    assert!(was_open);
    match effect {
        Some(ActivateRequest::MenuItemActivation { address, menu_path, item_id }) => {
            assert_eq!(address, "steam");
            assert_eq!(menu_path, "/MenuBar");
            assert_eq!(item_id, 1);
        }
        other => panic!("expected a menu activation, got {:?}", other),
    }
    // The next frame shows no popup for "steam".
    assert!(host.popup_rows(1).is_none());
    assert_eq!(host.tray.open_menu_target(), None);
}

#[test]
fn right_click_again_closes_the_menu_and_its_popup() {
    let mut host = TrayHost::new();
    host.apply(added("X", None));
    let first = host.right_click("X".to_string());
    assert!(first.open_menu.is_some());
    host.open_popup(4, &"X".to_string());
    let second = host.right_click("X".to_string());
    assert_eq!(second.open_menu, None);
    assert_eq!(second.closed_windows, vec![4]);
    assert!(host.popup_rows(4).is_none());
}

#[test]
fn translate_update_honours_menu_and_title_drops_icon() {
    let menu = WireMenu { submenus: vec![wire_entry(1, "Quit")] };
    match translate_update("a".to_string(), WireUpdate::Menu(menu)) {
        Some(Message::MenuUpdated { address, menu_items }) => {
            assert_eq!(address, "a");
            assert_eq!(menu_items.len(), 1);
            assert_eq!(menu_items[0].label, "Quit");
        }
        other => panic!("expected a menu event, got {:?}", other),
    }
    match translate_update("a".to_string(), WireUpdate::Title(Some("T".to_string()))) {
        Some(Message::ItemUpdated { address, title, icon_handle }) => {
            assert_eq!(address, "a");
            assert_eq!(title.as_deref(), Some("T"));
            assert!(icon_handle.is_none());
        }
        other => panic!("expected an item update, got {:?}", other),
    }
    // Icon-only updates are deliberately ignored.
    assert!(translate_update("a".to_string(), WireUpdate::Other).is_none());
}

#[test]
fn snapshot_emits_item_before_its_own_menu() {
    let entries = vec![
        SnapshotEntry {
            address: "one".to_string(),
            title: Some("One".to_string()),
            icon_handle: None,
            item_is_menu: false,
            menu: Some(convert_menu(&WireMenu { submenus: vec![wire_entry(1, "Quit")] })),
        },
        SnapshotEntry {
            address: "two".to_string(),
            title: None,
            icon_handle: None,
            item_is_menu: true,
            menu: None,
        },
    ];
    let msgs = snapshot_messages(entries);
    assert_eq!(msgs.len(), 3);
    match &msgs[0] {
        Message::ItemAdded { address, title, item_is_menu, .. } => {
            assert_eq!(address, "one");
            assert_eq!(title.as_deref(), Some("One"));
            assert!(!item_is_menu);
        }
        other => panic!("expected the first item, got {:?}", other),
    }
    match &msgs[1] {
        Message::MenuUpdated { address, menu_items } => {
            assert_eq!(address, "one");
            assert_eq!(menu_items[0].label, "Quit");
        }
        other => panic!("expected the first item's menu, got {:?}", other),
    }
    match &msgs[2] {
        Message::ItemAdded { address, item_is_menu, .. } => {
            assert_eq!(address, "two");
            assert!(item_is_menu);
        }
        other => panic!("expected the second item, got {:?}", other),
    }
}

#[test]
fn view_model_orders_items_by_arrival() {
    let mut tray = SystemTray::default();
    tray.update(added("b", Some("B")));
    tray.update(added("a", Some("A")));
    let view = tray.view_model();
    assert_eq!(view.len(), 2);
    assert_eq!(view[0].address, "b");
    assert_eq!(view[1].address, "a");
    assert!(view[0].icon.is_none());
}
