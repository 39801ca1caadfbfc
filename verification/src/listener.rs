//! Listener decisions: how protocol traffic becomes store events.
//!
//! The background task that talks to the protocol client is plain
//! asynchronous plumbing in the surrounding application; everything it
//! decides is here.  [`translate_update`] maps one update sub-event to
//! the store event it forwards — menu and title updates are honoured,
//! icon-only updates are deliberately dropped (a documented limitation:
//! such an item shows a stale icon until removed and re-added).
//! [`snapshot_messages`] orders the initial population: one item-added
//! event per snapshot entry, followed by that entry's menu event if it
//! already had a menu, so an item always precedes its own menu.

use vstd::prelude::*;

use crate::icon::opt_icon_model;
use crate::icon::opt_str_view;
use crate::icon::IconHandle;
use crate::icon::IconModel;
use crate::menu::all_converted;
use crate::menu::convert_menu;
use crate::menu::MenuItem;
use crate::menu::WireMenu;
use crate::menu::MENU_DEPTH_LIMIT;
use crate::tray::Message;

verus! {

/// One update sub-event from the protocol subscription, as plain values.
#[derive(Debug)]
pub enum WireUpdate {
    /// The item's menu layout changed; the entire tree is sent.
    Menu(WireMenu),
    /// The item's title changed.
    Title(Option<String>),
    /// Any other sub-event (icon, attention, status, tooltip…): ignored.
    Other,
}

/// One entry of the protocol client's initial item snapshot, copied out
/// as plain values while the client's lock was held.
#[derive(Debug)]
pub struct SnapshotEntry {
    pub address: String,
    pub title: Option<String>,
    pub icon_handle: Option<IconHandle>,
    pub item_is_menu: bool,
    /// The entry's menu, already converted, if it had one.
    pub menu: Option<Vec<MenuItem>>,
}

/// Mathematical image of a snapshot entry.
pub ghost struct EntryModel {
    pub address: Seq<char>,
    pub title: Option<Seq<char>>,
    pub icon: Option<IconModel>,
    pub item_is_menu: bool,
    pub menu: Option<Seq<MenuItem>>,
}

impl SnapshotEntry {
    pub open spec fn model(&self) -> EntryModel {
        EntryModel {
            address: self.address@,
            title: opt_str_view(self.title),
            icon: opt_icon_model(self.icon_handle),
            item_is_menu: self.item_is_menu,
            menu: match self.menu {
                Some(m) => Some(m@),
                None => None,
            },
        }
    }
}

/// Mathematical image of a store event.
pub ghost enum MsgModel {
    Added { address: Seq<char>, title: Option<Seq<char>>, icon: Option<IconModel>, item_is_menu: bool },
    Updated { address: Seq<char>, title: Option<Seq<char>>, icon: Option<IconModel> },
    MenuSet { address: Seq<char>, menu: Seq<MenuItem> },
    Removed(Seq<char>),
    Clicked(Seq<char>),
    RightClicked(Seq<char>),
    MenuClicked { address: Seq<char>, menu_id: i32 },
    Close,
    Done,
}

impl Message {
    pub open spec fn model(&self) -> MsgModel {
        match self {
            Message::ItemAdded { address, title, icon_handle, item_is_menu } => MsgModel::Added {
                address: address@,
                title: opt_str_view(*title),
                icon: opt_icon_model(*icon_handle),
                item_is_menu: *item_is_menu,
            },
            Message::ItemUpdated { address, title, icon_handle } => MsgModel::Updated {
                address: address@,
                title: opt_str_view(*title),
                icon: opt_icon_model(*icon_handle),
            },
            Message::MenuUpdated { address, menu_items } => MsgModel::MenuSet {
                address: address@,
                menu: menu_items@,
            },
            Message::ItemRemoved(address) => MsgModel::Removed(address@),
            Message::ItemClicked(address) => MsgModel::Clicked(address@),
            Message::ItemRightClicked(address) => MsgModel::RightClicked(address@),
            Message::MenuItemClicked { address, menu_id } => MsgModel::MenuClicked {
                address: address@,
                menu_id: *menu_id,
            },
            Message::CloseMenu => MsgModel::Close,
            Message::ActivationComplete => MsgModel::Done,
        }
    }
}

/// The contents of each message in a list.
pub open spec fn msg_models(s: Seq<Message>) -> Seq<MsgModel> {
    Seq::new(s.len(), |i: int| s[i].model())
}

/// The store events one snapshot entry emits: the item itself, then its
/// menu if it already had one.
pub open spec fn spec_entry_msgs(e: EntryModel) -> Seq<MsgModel> {
    seq![
        MsgModel::Added {
            address: e.address,
            title: e.title,
            icon: e.icon,
            item_is_menu: e.item_is_menu,
        },
    ] + (match e.menu {
        Some(m) => seq![MsgModel::MenuSet { address: e.address, menu: m }],
        None => Seq::<MsgModel>::empty(),
    })
}

/// The store events a whole snapshot emits, entry by entry in order.
pub open spec fn spec_snapshot_msgs(es: Seq<EntryModel>) -> Seq<MsgModel>
    decreases es.len(),
{
    if es.len() == 0 {
        Seq::empty()
    } else {
        spec_snapshot_msgs(es.drop_last()) + spec_entry_msgs(es.last())
    }
}

/// Translate one protocol update sub-event into the store event it
/// forwards: menu updates are converted and forwarded, title updates are
/// forwarded as a partial item update, anything else is dropped.
pub fn translate_update(address: String, update: WireUpdate) -> (r: Option<Message>)
    ensures
        match update {
            WireUpdate::Menu(menu) => r matches Some(m) && (m matches Message::MenuUpdated {
                address: a,
                menu_items,
            } && a@ == address@ && all_converted(
                menu.submenus@,
                menu_items@,
                (MENU_DEPTH_LIMIT - 1) as nat,
            )),
            WireUpdate::Title(title) => r matches Some(m) && (m matches Message::ItemUpdated {
                address: a,
                title: t,
                icon_handle,
            } && a@ == address@ && opt_str_view(t) == opt_str_view(title) && icon_handle is None),
            WireUpdate::Other => r is None,
        },
{
    match update {
        WireUpdate::Menu(menu) => {
            let menu_items = convert_menu(&menu);
            Some(Message::MenuUpdated { address, menu_items })
        },
        WireUpdate::Title(title) => Some(
            Message::ItemUpdated { address, title, icon_handle: None },
        ),
        WireUpdate::Other => None,
    }
}

/// Turn the initial snapshot into the ordered list of store events to
/// forward: each item's added event, immediately followed by its menu
/// event when it already had a menu.  Per-item ordering is what matters;
/// entries keep their snapshot order.
pub fn snapshot_messages(entries: Vec<SnapshotEntry>) -> (r: Vec<Message>)
    ensures
        msg_models(r@) == spec_snapshot_msgs(
            Seq::new(entries@.len(), |i: int| entries@[i].model()),
        ),
{
    let ghost es = Seq::new(entries@.len(), |i: int| entries@[i].model());
    let mut pending = entries;
    let mut out: Vec<Message> = Vec::new();
    let n = pending.len();
    let mut i: usize = 0;
    while i < n
        invariant
            i <= n,
            n == es.len(),
            pending@.len() == n - i,
            forall|k: int| 0 <= k < n - i ==> (#[trigger] pending@[k]).model() == es[i + k],
            msg_models(out@) == spec_snapshot_msgs(es.subrange(0, i as int)),
        decreases n - i,
    {
        proof {
            assert(es.subrange(0, i + 1 as int).drop_last() =~= es.subrange(0, i as int));
            assert(pending@[0].model() == es[i as int]);
        }
        let ghost outpre = out@;
        let entry = pending.remove(0);
        let address_for_menu = entry.address.clone();
        out.push(
            Message::ItemAdded {
                address: entry.address,
                title: entry.title,
                icon_handle: entry.icon_handle,
                item_is_menu: entry.item_is_menu,
            },
        );
        match entry.menu {
            Some(menu_items) => {
                out.push(Message::MenuUpdated { address: address_for_menu, menu_items });
            },
            None => {},
        }
        proof {
            assert(msg_models(out@) =~= spec_snapshot_msgs(es.subrange(0, i + 1 as int)));
        }
        i = i + 1;
    }
    proof {
        assert(es.subrange(0, n as int) =~= es);
    }
    out
}

} // verus!
