//! Notification-toggle widget state: decides when the notification
//! panel's toggle command should run.  Spawning the command is the
//! surrounding application's job.

use vstd::prelude::*;

verus! {

/// Notification-toggle widget state (stateless: the panel itself owns
/// its visibility).
#[derive(Debug, Clone, Default)]
pub struct NotificationToggle;

/// Toggle intents: the user asked to toggle, or a toggle just finished.
#[derive(Debug, Clone)]
pub enum Message {
    Toggle,
    Toggled,
}

impl NotificationToggle {
    /// Decide whether this message should launch the panel's toggle
    /// command: only a fresh toggle request does.
    pub fn update(&mut self, message: Message) -> (run_toggle: bool)
        ensures
            *final(self) == *old(self),
            run_toggle == (message is Toggle),
    {
        match message {
            Message::Toggle => true,
            Message::Toggled => false,
        }
    }
}

} // verus!
