//! Core logic of a status-bar tray host.
//!
//! The crate owns the protocol-facing state of a desktop status bar's tray:
//! resolving heterogeneous icon encodings, converting remote menu trees,
//! tracking tray items and custom indicators, and driving ephemeral popup
//! windows with a timed opening animation.  Everything here is plain data
//! and synchronous logic; connections, filesystem probes and rendering live
//! in the surrounding application.

pub mod battery;
pub mod host;
pub mod hyprland_events;
pub mod icon;
pub mod listener;
pub mod menu;
pub mod notification_toggle;
pub mod popup;
pub mod strutil;
pub mod tray;
pub mod volume;
pub mod window_title;
