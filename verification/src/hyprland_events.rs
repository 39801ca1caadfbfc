//! Builder for window-manager event subscriptions: which workspace
//! events are handled and which message each one emits.
//!
//! The builder is plain data; the surrounding application hands it to
//! its event listener, which emits the recorded message whenever the
//! matching event fires.  Focused-window events carry data and so take a
//! mapping function; that registration lives with the listener in the
//! application.

use vstd::prelude::*;

verus! {

/// Builder for a window-manager event subscription with the given
/// identifier: records, per workspace event kind, the message to emit.
#[derive(Debug)]
pub struct HyprlandSubscription<M> {
    /// Stable identifier of the subscription.
    pub id: &'static str,
    /// Message emitted when a workspace is added, if handled.
    pub workspace_added: Option<M>,
    /// Message emitted when a workspace is deleted, if handled.
    pub workspace_deleted: Option<M>,
    /// Message emitted when the active workspace changes, if handled.
    pub workspace_changed: Option<M>,
}

impl<M> HyprlandSubscription<M> {
    /// A subscription builder handling no events yet.
    pub fn new(id: &'static str) -> (r: Self)
        ensures
            r.id == id,
            r.workspace_added is None,
            r.workspace_deleted is None,
            r.workspace_changed is None,
    {
        HyprlandSubscription {
            id,
            workspace_added: None,
            workspace_deleted: None,
            workspace_changed: None,
        }
    }

    /// Emit `message` when a workspace is added.
    pub fn on_workspace_added(self, message: M) -> (r: Self)
        ensures
            r.id == self.id,
            r.workspace_added == Some(message),
            r.workspace_deleted == self.workspace_deleted,
            r.workspace_changed == self.workspace_changed,
    {
        HyprlandSubscription { workspace_added: Some(message), ..self }
    }

    /// Emit `message` when a workspace is deleted.
    pub fn on_workspace_deleted(self, message: M) -> (r: Self)
        ensures
            r.id == self.id,
            r.workspace_added == self.workspace_added,
            r.workspace_deleted == Some(message),
            r.workspace_changed == self.workspace_changed,
    {
        HyprlandSubscription { workspace_deleted: Some(message), ..self }
    }

    /// Emit `message` when the active workspace changes.
    pub fn on_workspace_changed(self, message: M) -> (r: Self)
        ensures
            r.id == self.id,
            r.workspace_added == self.workspace_added,
            r.workspace_deleted == self.workspace_deleted,
            r.workspace_changed == Some(message),
    {
        HyprlandSubscription { workspace_changed: Some(message), ..self }
    }

    /// Emit copies of one message for every workspace event: added,
    /// deleted, and changed.
    pub fn on_any_workspace_event(self, message: M) -> (r: Self) where M: Clone
        ensures
            r.id == self.id,
            r.workspace_added matches Some(a) && cloned(message, a),
            r.workspace_deleted matches Some(d) && cloned(message, d),
            r.workspace_changed == Some(message),
    {
        let added = message.clone();
        let deleted = message.clone();
        self.on_workspace_added(added).on_workspace_deleted(deleted).on_workspace_changed(message)
    }
}

} // verus!
