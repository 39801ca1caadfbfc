//! Display widget state and the event-subscription builder.

use clammy::battery::Battery;
use clammy::hyprland_events::HyprlandSubscription;
use clammy::notification_toggle;
use clammy::notification_toggle::NotificationToggle;
use clammy::strutil::u8_to_string;
use clammy::volume::Volume;
use clammy::window_title;
use clammy::window_title::WindowTitle;

#[test]
fn decimal_formatting_is_exact() {
    assert_eq!(u8_to_string(0), "0");
    assert_eq!(u8_to_string(7), "7");
    assert_eq!(u8_to_string(10), "10");
    assert_eq!(u8_to_string(42), "42");
    assert_eq!(u8_to_string(99), "99");
    assert_eq!(u8_to_string(100), "100");
    assert_eq!(u8_to_string(255), "255");
}

#[test]
fn battery_display_and_icons() {
    let b = Battery::new(Some(95), false);
    assert_eq!(b.display_text, "\u{f0079} 95%");
    let charging = Battery::new(Some(50), true);
    assert_eq!(charging.display_text, "\u{f0084} 50%");
    let absent = Battery::new(None, false);
    assert_eq!(absent.display_text, "");

    let probe = Battery::new(Some(0), false);
    assert_eq!(probe.get_icon(85), "\u{f0082}");
    assert_eq!(probe.get_icon(15), "\u{f007b}");
    assert_eq!(probe.get_icon(5), "\u{f0083}");

    let mut b = Battery::new(Some(95), false);
    b.update(Some(20), true);
    assert_eq!(b.percentage, Some(20));
    assert!(b.charging);
    assert_eq!(b.display_text, "\u{f0084} 20%");
}

#[test]
fn volume_display_and_icons() {
    let high = Volume::new(80, false);
    assert_eq!(high.display_text, "\u{f057e} 80%");
    let medium = Volume::new(50, false);
    assert_eq!(medium.display_text, "\u{f0580} 50%");
    let low = Volume::new(10, false);
    assert_eq!(low.display_text, "\u{f057f} 10%");
    let muted = Volume::new(80, true);
    assert_eq!(muted.display_text, "\u{f075f} 80%");

    let mut v = Volume::new(10, false);
    v.update(70, false);
    assert_eq!(v.display_text, "\u{f057e} 70%");
}

#[test]
fn window_title_joins_class_and_title() {
    let mut w = WindowTitle::default();
    assert_eq!(w.display_text, "");
    w.update(window_title::Message::ActiveWindowChanged(
        Some("readme.md".to_string()),
        Some("editor".to_string()),
    ));
    assert_eq!(w.display_text, "editor - readme.md");
    w.update(window_title::Message::ActiveWindowChanged(None, None));
    assert_eq!(w.display_text, "");
    w.update(window_title::Message::ActiveWindowChanged(
        Some("lonely".to_string()),
        None,
    ));
    assert_eq!(w.display_text, "");
}

#[test]
fn notification_toggle_runs_only_on_toggle() {
    let mut n = NotificationToggle::default();
    assert!(n.update(notification_toggle::Message::Toggle));
    assert!(!n.update(notification_toggle::Message::Toggled));
}

#[test]
fn subscription_builder_records_handlers() {
    #[derive(Debug, Clone, PartialEq, Eq)]
    enum Msg {
        Refresh,
        Changed,
    }

    let sub = HyprlandSubscription::new("workspace-events");
    assert_eq!(sub.id, "workspace-events");
    assert!(sub.workspace_added.is_none());
    assert!(sub.workspace_deleted.is_none());
    assert!(sub.workspace_changed.is_none());

    let sub = sub.on_workspace_added(Msg::Refresh).on_workspace_changed(Msg::Changed);
    assert_eq!(sub.workspace_added, Some(Msg::Refresh));
    assert_eq!(sub.workspace_deleted, None);
    assert_eq!(sub.workspace_changed, Some(Msg::Changed));

    let all = HyprlandSubscription::new("all").on_any_workspace_event(Msg::Refresh);
    assert_eq!(all.workspace_added, Some(Msg::Refresh));
    assert_eq!(all.workspace_deleted, Some(Msg::Refresh));
    assert_eq!(all.workspace_changed, Some(Msg::Refresh));
}
