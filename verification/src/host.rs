//! The tray host shell: routing between user intents, the state store,
//! and the popup lifecycle.
//!
//! The shell owns the policy the store itself deliberately does not
//! carry: a left-click opens a menu instead of activating when the item
//! has one; a right-click toggles the open-menu marker and opens or
//! closes the matching popup; removing a tray item drops every popup it
//! owns; the cancellation key closes the first open popup.  The host
//! environment drives it with plain calls and performs the returned
//! effects (sending activation requests, creating and destroying popup
//! windows).

use vstd::prelude::*;

use crate::menu::lemma_rows_respect_eq;
use crate::menu::menu_list_eq;
use crate::popup::popup_find;
use crate::popup::popup_lookup;
use crate::popup::spec_close;
use crate::popup::spec_content_height;
use crate::popup::spec_drop_address;
use crate::popup::spec_tick;
use crate::popup::spec_window_height;
use crate::popup::spec_windows_of_address;
use crate::popup::PopupManager;
use crate::popup::PopupModel;
use crate::popup::MAX_POPUP_ROWS;
use crate::popup::POPUP_WIDTH;
use crate::tray::item_lookup;
use crate::tray::spec_has_menu;
use crate::tray::spec_toggle;
use crate::tray::ActivateRequest;
use crate::tray::Message;
use crate::tray::SystemTray;

verus! {

/// What a left-click on a tray icon turns into.
#[derive(Debug)]
pub enum ClickAction {
    /// The item has a menu: open a popup for this address instead of
    /// activating.
    OpenMenu(String),
    /// Plain item: dispatch this activation request.
    Activate(ActivateRequest),
}

/// What a right-click on a tray icon turns into.
#[derive(Debug)]
pub struct RightClickOutcome {
    /// The address whose menu should now open in a popup, if the click
    /// turned the marker on.
    pub open_menu: Option<String>,
    /// Window ids of popups to destroy, if the click turned the marker
    /// off.
    pub closed_windows: Vec<u64>,
}

/// The tray host: the state store and the popup lifecycle, coordinated.
#[derive(Debug)]
pub struct TrayHost {
    /// The tray state store.
    pub tray: SystemTray,
    /// The popup lifecycle manager.
    pub popups: PopupManager,
}

impl TrayHost {
    /// Well-formedness of both halves.
    pub open spec fn wf(&self) -> bool {
        &&& self.tray.wf()
        &&& self.popups.wf()
    }

    /// A host with an empty store and no popups.
    pub fn new() -> (r: TrayHost)
        ensures
            r.wf(),
            r.tray.items_model() == Seq::<crate::tray::ItemModel>::empty(),
            r.tray.indicators_model() == Seq::<crate::tray::IndicatorModel>::empty(),
            r.tray.open_menu_model() is None,
            r.popups.model() == Seq::<PopupModel>::empty(),
    {
        TrayHost { tray: SystemTray::default(), popups: PopupManager::new() }
    }

    /// Apply one protocol event or store intent, and keep the popups in
    /// step: removing a tray item also drops every popup it owns.
    /// Returns the store's outbound effect and the window ids of any
    /// popups the event closed.
    pub fn apply(&mut self, message: Message) -> (r: (Option<ActivateRequest>, Vec<u64>))
        requires
            old(self).wf(),
        ensures
            final(self).wf(),
            crate::tray::spec_update_step(old(self).tray, message, final(self).tray, r.0),
            match message {
                Message::ItemRemoved(address) => {
                    &&& final(self).popups.model() == spec_drop_address(
                        old(self).popups.model(),
                        address@,
                    )
                    &&& r.1@ == spec_windows_of_address(old(self).popups.model(), address@)
                },
                _ => {
                    &&& final(self).popups.model() == old(self).popups.model()
                    &&& r.1@.len() == 0
                },
            },
    {
        let closed: Vec<u64> = match &message {
            Message::ItemRemoved(address) => self.popups.close_for_address(address),
            _ => Vec::new(),
        };
        let effect = self.tray.update(message);
        (effect, closed)
    }

    /// Route a left-click on a tray icon: open the item's menu when it
    /// has one, otherwise ask for the item's default activation with a
    /// zero position hint.
    pub fn left_click(&mut self, address: String) -> (r: ClickAction)
        requires
            old(self).wf(),
        ensures
            final(self).wf(),
            final(self).tray.items_model() == old(self).tray.items_model(),
            final(self).tray.indicators_model() == old(self).tray.indicators_model(),
            final(self).tray.open_menu_model() == old(self).tray.open_menu_model(),
            final(self).popups.model() == old(self).popups.model(),
            if spec_has_menu(old(self).tray.items_model(), address@) {
                r matches ClickAction::OpenMenu(a) && a@ == address@
            } else {
                r matches ClickAction::Activate(ActivateRequest::DefaultActivation {
                    address: a,
                    x,
                    y,
                }) && a@ == address@ && x == 0 && y == 0
            },
    {
        if self.tray.has_menu(&address) {
            ClickAction::OpenMenu(address)
        } else {
            let effect = self.tray.update(Message::ItemClicked(address));
            match effect {
                Some(req) => ClickAction::Activate(req),
                None => unreached(),
            }
        }
    }

    /// Route a right-click on a tray icon: toggle the open-menu marker,
    /// independent of menu presence.  Turning the marker on asks the
    /// caller to open this address's menu; turning it off closes the
    /// address's popups.
    pub fn right_click(&mut self, address: String) -> (r: RightClickOutcome)
        requires
            old(self).wf(),
        ensures
            final(self).wf(),
            final(self).tray.items_model() == old(self).tray.items_model(),
            final(self).tray.indicators_model() == old(self).tray.indicators_model(),
            final(self).tray.open_menu_model() == spec_toggle(
                old(self).tray.open_menu_model(),
                address@,
            ),
            if old(self).tray.open_menu_model() == Some(address@) {
                &&& r.open_menu is None
                &&& final(self).popups.model() == spec_drop_address(
                    old(self).popups.model(),
                    address@,
                )
                &&& r.closed_windows@ == spec_windows_of_address(
                    old(self).popups.model(),
                    address@,
                )
            } else {
                &&& r.open_menu matches Some(a) && a@ == address@
                &&& final(self).popups.model() == old(self).popups.model()
                &&& r.closed_windows@.len() == 0
            },
    {
        let was_open = match self.tray.open_menu_target() {
            Some(open) => open == address,
            None => false,
        };
        if was_open {
            let closed = self.popups.close_for_address(&address);
            let _ = self.tray.update(Message::ItemRightClicked(address));
            RightClickOutcome { open_menu: None, closed_windows: closed }
        } else {
            let opened = address.clone();
            let _ = self.tray.update(Message::ItemRightClicked(address));
            RightClickOutcome { open_menu: Some(opened), closed_windows: Vec::new() }
        }
    }

    /// Open a popup window for an address under a fresh window id,
    /// snapshotting the item's current menu; returns the window size to
    /// request, or nothing for an unknown address (no popup appears).
    pub fn open_popup(&mut self, window: u64, address: &String) -> (r: Option<(u32, u32)>)
        requires
            old(self).wf(),
            popup_find(old(self).popups.model(), window) is None,
            match item_lookup(old(self).tray.items_model(), address@) {
                Some(it) => it.menu.len() <= MAX_POPUP_ROWS,
                None => true,
            },
        ensures
            final(self).wf(),
            final(self).tray == old(self).tray,
            match item_lookup(old(self).tray.items_model(), address@) {
                Some(it) => {
                    &&& r == Some((POPUP_WIDTH, spec_window_height(it.menu.len()) as u32))
                    &&& final(self).popups.model().len() == old(self).popups.model().len() + 1
                    &&& forall|k: int|
                        0 <= k < old(self).popups.model().len() ==> final(self).popups.model()[k]
                            == old(self).popups.model()[k]
                    &&& ({
                        let p = final(self).popups.model().last();
                        &&& p.window == window
                        &&& p.address == address@
                        &&& p.progress == 0
                        &&& p.content_height == spec_content_height(it.menu.len())
                        &&& menu_list_eq(it.menu, p.items)
                        &&& crate::menu::spec_rows(p.items) == crate::menu::spec_rows(it.menu)
                    })
                },
                None => {
                    &&& r is None
                    &&& final(self).popups.model() == old(self).popups.model()
                },
            },
    {
        match self.tray.get_menu_items(address) {
            Some(items) => {
                let ghost stored = item_lookup(self.tray.items_model(), address@)->Some_0;
                proof {
                    lemma_rows_respect_eq(stored.menu, items@);
                }
                let size = self.popups.open(window, address.clone(), items);
                Some(size)
            },
            None => None,
        }
    }

    /// Route a click on one row of an open popup: always close that
    /// popup and the open-menu marker, and ask for the menu entry's
    /// activation.
    pub fn menu_row_click(&mut self, window: u64, address: String, item_id: i32) -> (r: (
        Option<ActivateRequest>,
        bool,
    ))
        requires
            old(self).wf(),
        ensures
            final(self).wf(),
            final(self).tray.items_model() == old(self).tray.items_model(),
            final(self).tray.indicators_model() == old(self).tray.indicators_model(),
            final(self).tray.open_menu_model() is None,
            final(self).popups.model() == spec_close(old(self).popups.model(), window),
            r.0 matches Some(ActivateRequest::MenuItemActivation {
                address: a,
                menu_path,
                item_id: id,
            }) && a@ == address@ && menu_path@ == "/MenuBar"@ && id == item_id,
            r.1 == (popup_find(old(self).popups.model(), window) is Some),
    {
        let closed = self.popups.close(window);
        let effect = self.tray.update(
            Message::MenuItemClicked { address, menu_id: item_id },
        );
        (effect, closed)
    }

    /// Route the cancellation key: close the first open popup, if any,
    /// and report its window id so the caller can destroy the window.
    pub fn cancel_key(&mut self) -> (r: Option<u64>)
        requires
            old(self).wf(),
        ensures
            final(self).wf(),
            final(self).tray == old(self).tray,
            match r {
                Some(w) => {
                    &&& old(self).popups.model().len() > 0
                    &&& w == old(self).popups.model()[0].window
                    &&& final(self).popups.model() == spec_close(old(self).popups.model(), w)
                },
                None => {
                    &&& old(self).popups.model().len() == 0
                    &&& final(self).popups.model() == old(self).popups.model()
                },
            },
    {
        match self.popups.cancel_target() {
            Some(w) => {
                let _ = self.popups.close(w);
                Some(w)
            },
            None => None,
        }
    }

    /// Advance every opening popup's animation by one step.
    pub fn tick(&mut self)
        requires
            old(self).wf(),
        ensures
            final(self).wf(),
            final(self).tray == old(self).tray,
            final(self).popups.model() == spec_tick(old(self).popups.model()),
    {
        self.popups.tick();
    }

    /// The rows an open popup shows, from its snapshot.
    pub fn popup_rows(&self, window: u64) -> (r: Option<Vec<crate::menu::MenuRow>>)
        ensures
            match popup_lookup(self.popups.model(), window) {
                Some(p) => r matches Some(v) && crate::menu::row_models(v@)
                    == crate::menu::spec_rows(p.items),
                None => r is None,
            },
    {
        self.popups.rows(window)
    }
}

} // verus!
