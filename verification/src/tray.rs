//! The tray state store: the single owner of all known tray items, the
//! custom indicators, and the open-menu marker.
//!
//! [`SystemTray::update`] is the one state-mutation entry point.  It is
//! driven by protocol events and user intents and returns the outbound
//! effect each intent asks for; the surrounding application performs the
//! effect (sending an activation request over its channel).  Operations
//! on unknown or stale addresses are silent no-ops, never failures.

use vstd::prelude::*;

use crate::icon::opt_icon_model;
use crate::icon::opt_str_view;
use crate::icon::IconHandle;
use crate::icon::IconModel;
use crate::menu::clone_menu_list;
use crate::menu::menu_list_eq;
use crate::menu::MenuItem;

verus! {

/// One tray item's state: protocol address, merged display fields, and
/// the item's current menu tree.
#[derive(Debug)]
pub struct TrayItemState {
    /// Opaque protocol-assigned address, stable for the item's lifetime.
    pub address: String,
    /// Display title, if one was ever supplied.
    pub title: Option<String>,
    /// Resolved icon, if one was ever supplied.
    pub icon_handle: Option<IconHandle>,
    /// The item's menu, replaced wholesale on each menu update.
    pub menu_items: Vec<MenuItem>,
    /// Whether the item has no primary click action, only a menu.
    pub item_is_menu: bool,
}

/// Mathematical image of one tray item.
pub ghost struct ItemModel {
    pub address: Seq<char>,
    pub title: Option<Seq<char>>,
    pub icon: Option<IconModel>,
    pub menu: Seq<MenuItem>,
    pub item_is_menu: bool,
}

impl TrayItemState {
    pub open spec fn model(&self) -> ItemModel {
        ItemModel {
            address: self.address@,
            title: opt_str_view(self.title),
            icon: opt_icon_model(self.icon_handle),
            menu: self.menu_items@,
            item_is_menu: self.item_is_menu,
        }
    }
}

/// A locally created status indicator, independent of the protocol.
#[derive(Debug)]
pub struct CustomIndicator {
    /// Caller-chosen identifier.
    pub id: String,
    /// Icon to display.
    pub icon: IconHandle,
    /// Tooltip text.
    pub tooltip: String,
}

/// Mathematical image of a custom indicator.
pub ghost struct IndicatorModel {
    pub id: Seq<char>,
    pub icon: IconModel,
    pub tooltip: Seq<char>,
}

impl CustomIndicator {
    pub open spec fn model(&self) -> IndicatorModel {
        IndicatorModel { id: self.id@, icon: self.icon.model(), tooltip: self.tooltip@ }
    }
}

/// An outbound activation request, dispatched to a tray item's
/// application by the surrounding layer.
#[derive(Debug)]
pub enum ActivateRequest {
    /// The item's default action, with a screen position hint.
    DefaultActivation { address: String, x: i32, y: i32 },
    /// One entry of the item's menu, by menu root and numeric id.
    MenuItemActivation { address: String, menu_path: String, item_id: i32 },
}

/// Protocol events and user intents the store applies.
#[derive(Debug)]
pub enum Message {
    /// A tray item appeared (or re-announced itself).
    ItemAdded {
        address: String,
        title: Option<String>,
        icon_handle: Option<IconHandle>,
        item_is_menu: bool,
    },
    /// Fields of a known item changed; absent fields keep their value.
    ItemUpdated { address: String, title: Option<String>, icon_handle: Option<IconHandle> },
    /// A known item's menu was replaced wholesale.
    MenuUpdated { address: String, menu_items: Vec<MenuItem> },
    /// A tray item disappeared.
    ItemRemoved(String),
    /// The user left-clicked a tray icon.
    ItemClicked(String),
    /// The user right-clicked a tray icon.
    ItemRightClicked(String),
    /// The user clicked one entry of an item's menu.
    MenuItemClicked { address: String, menu_id: i32 },
    /// Close the open menu.
    CloseMenu,
    /// An activation request finished; nothing to do.
    ActivationComplete,
}

// ---------------------------------------------------------------------------
// Model-level definitions
// ---------------------------------------------------------------------------

/// Index of the first item with the given address at or after `i`.
pub open spec fn item_find_from(s: Seq<ItemModel>, addr: Seq<char>, i: int) -> Option<int>
    decreases s.len() - i,
    when 0 <= i <= s.len()
{
    if i >= s.len() {
        None
    } else if s[i].address == addr {
        Some(i)
    } else {
        item_find_from(s, addr, i + 1)
    }
}

/// Index of the first item with the given address, if any.
pub open spec fn item_find(s: Seq<ItemModel>, addr: Seq<char>) -> Option<int> {
    item_find_from(s, addr, 0)
}

/// The item stored under an address, if any.
pub open spec fn item_lookup(s: Seq<ItemModel>, addr: Seq<char>) -> Option<ItemModel> {
    match item_find(s, addr) {
        Some(i) => Some(s[i]),
        None => None,
    }
}

/// Whether a left-click on this address should open a menu instead of
/// activating: the item has a non-empty menu or is flagged menu-only;
/// false for an unknown address.
pub open spec fn spec_has_menu(s: Seq<ItemModel>, addr: Seq<char>) -> bool {
    match item_lookup(s, addr) {
        Some(it) => it.menu.len() > 0 || it.item_is_menu,
        None => false,
    }
}

/// No two items share an address.
pub open spec fn distinct_addresses(s: Seq<ItemModel>) -> bool {
    forall|i: int, j: int| 0 <= i < j < s.len() ==> s[i].address != s[j].address
}

/// The items after an item-added event: an entry under the same address
/// is overwritten (last write wins), otherwise the item is appended.
pub open spec fn spec_add_item(s: Seq<ItemModel>, m: ItemModel) -> Seq<ItemModel> {
    match item_find(s, m.address) {
        Some(i) => s.update(i, m),
        None => s.push(m),
    }
}

/// One item after a partial update: a field carrying a value replaces the
/// stored one, a field carrying none leaves it alone.
pub open spec fn spec_merge(
    it: ItemModel,
    title: Option<Seq<char>>,
    icon: Option<IconModel>,
) -> ItemModel {
    ItemModel {
        title: if title is Some {
            title
        } else {
            it.title
        },
        icon: if icon is Some {
            icon
        } else {
            it.icon
        },
        ..it
    }
}

/// The items after an item-updated event: merged in place for a known
/// address, untouched for an unknown one.
pub open spec fn spec_update_item(
    s: Seq<ItemModel>,
    addr: Seq<char>,
    title: Option<Seq<char>>,
    icon: Option<IconModel>,
) -> Seq<ItemModel> {
    match item_find(s, addr) {
        Some(i) => s.update(i, spec_merge(s[i], title, icon)),
        None => s,
    }
}

/// The items after a menu-updated event: the whole menu tree replaced for
/// a known address, untouched for an unknown one.
pub open spec fn spec_set_menu(s: Seq<ItemModel>, addr: Seq<char>, menu: Seq<MenuItem>) -> Seq<
    ItemModel,
> {
    match item_find(s, addr) {
        Some(i) => s.update(i, ItemModel { menu, ..s[i] }),
        None => s,
    }
}

/// The items after an item-removed event.
pub open spec fn spec_remove_item(s: Seq<ItemModel>, addr: Seq<char>) -> Seq<ItemModel> {
    match item_find(s, addr) {
        Some(i) => s.remove(i),
        None => s,
    }
}

/// The open-menu marker after the item it points at goes away.
pub open spec fn spec_clear_if(open: Option<Seq<char>>, addr: Seq<char>) -> Option<Seq<char>> {
    if open == Some(addr) {
        None
    } else {
        open
    }
}

/// The open-menu marker after a right-click: open becomes closed, closed
/// (or pointing elsewhere) becomes open on the clicked address.
pub open spec fn spec_toggle(open: Option<Seq<char>>, addr: Seq<char>) -> Option<Seq<char>> {
    if open == Some(addr) {
        None
    } else {
        Some(addr)
    }
}

/// The indicators after removing those with a given id.
pub open spec fn spec_retain_indicators(s: Seq<IndicatorModel>, id: Seq<char>) -> Seq<
    IndicatorModel,
>
    decreases s.len(),
{
    if s.len() == 0 {
        Seq::empty()
    } else {
        spec_retain_indicators(s.drop_last(), id) + (if s.last().id == id {
            Seq::<IndicatorModel>::empty()
        } else {
            seq![s.last()]
        })
    }
}

/// The store's one-step transition relation: how one event or intent
/// maps the store's items, indicators and open-menu marker of `pre` to
/// those of `post`, and which outbound effect it carries.
pub open spec fn spec_update_step(
    pre: SystemTray,
    message: Message,
    post: SystemTray,
    effect: Option<ActivateRequest>,
) -> bool {
    &&& post.indicators_model() == pre.indicators_model()
    &&&     match message {
        Message::ItemAdded { address, title, icon_handle, item_is_menu } => {
            &&& post.items_model() == spec_add_item(
                pre.items_model(),
                ItemModel {
                    address: address@,
                    title: opt_str_view(title),
                    icon: opt_icon_model(icon_handle),
                    menu: Seq::empty(),
                    item_is_menu: item_is_menu,
                },
            )
            &&& post.open_menu_model() == pre.open_menu_model()
            &&& effect is None
        },
        Message::ItemUpdated { address, title, icon_handle } => {
            &&& post.items_model() == spec_update_item(
                pre.items_model(),
                address@,
                opt_str_view(title),
                opt_icon_model(icon_handle),
            )
            &&& post.open_menu_model() == pre.open_menu_model()
            &&& effect is None
        },
        Message::MenuUpdated { address, menu_items } => {
            &&& post.items_model() == spec_set_menu(
                pre.items_model(),
                address@,
                menu_items@,
            )
            &&& post.open_menu_model() == pre.open_menu_model()
            &&& effect is None
        },
        Message::ItemRemoved(address) => {
            &&& post.items_model() == spec_remove_item(
                pre.items_model(),
                address@,
            )
            &&& post.open_menu_model() == spec_clear_if(
                pre.open_menu_model(),
                address@,
            )
            &&& effect is None
        },
        Message::ItemClicked(address) => {
            &&& post.items_model() == pre.items_model()
            &&& post.open_menu_model() == pre.open_menu_model()
            &&& effect matches Some(ActivateRequest::DefaultActivation { address: a, x, y })
                && a@ == address@ && x == 0 && y == 0
        },
        Message::ItemRightClicked(address) => {
            &&& post.items_model() == pre.items_model()
            &&& post.open_menu_model() == spec_toggle(
                pre.open_menu_model(),
                address@,
            )
            &&& effect is None
        },
        Message::MenuItemClicked { address, menu_id } => {
            &&& post.items_model() == pre.items_model()
            &&& post.open_menu_model() is None
            &&& effect matches Some(ActivateRequest::MenuItemActivation {
                address: a,
                menu_path,
                item_id,
            }) && a@ == address@ && menu_path@ == "/MenuBar"@ && item_id == menu_id
        },
        Message::CloseMenu => {
            &&& post.items_model() == pre.items_model()
            &&& post.open_menu_model() is None
            &&& effect is None
        },
        Message::ActivationComplete => {
            &&& post.items_model() == pre.items_model()
            &&& post.open_menu_model() == pre.open_menu_model()
            &&& effect is None
        },
    }
}

// ---------------------------------------------------------------------------
// Lemmas about item_find
// ---------------------------------------------------------------------------

pub proof fn lemma_item_find_props(s: Seq<ItemModel>, addr: Seq<char>, i: int)
    requires
        0 <= i <= s.len(),
    ensures
        match item_find_from(s, addr, i) {
            Some(j) => i <= j < s.len() && s[j].address == addr && forall|k: int|
                i <= k < j ==> (#[trigger] s[k]).address != addr,
            None => forall|k: int| i <= k < s.len() ==> (#[trigger] s[k]).address != addr,
        },
    decreases s.len() - i,
{
    if i < s.len() && s[i].address != addr {
        lemma_item_find_props(s, addr, i + 1);
    }
}

/// A same-address update leaves every address search unchanged.
pub proof fn lemma_item_find_update(
    s: Seq<ItemModel>,
    x: ItemModel,
    u: int,
    addr: Seq<char>,
    i: int,
)
    requires
        0 <= u < s.len(),
        x.address == s[u].address,
        0 <= i <= s.len(),
    ensures
        item_find_from(s.update(u, x), addr, i) == item_find_from(s, addr, i),
    decreases s.len() - i,
{
    if i < s.len() {
        lemma_item_find_update(s, x, u, addr, i + 1);
    }
}

pub proof fn lemma_item_find_push(s: Seq<ItemModel>, x: ItemModel, addr: Seq<char>, i: int)
    requires
        0 <= i <= s.len(),
    ensures
        item_find_from(s.push(x), addr, i) == match item_find_from(s, addr, i) {
            Some(j) => Some(j),
            None => if x.address == addr {
                Some(s.len() as int)
            } else {
                None
            },
        },
    decreases s.len() - i,
{
    if i < s.len() {
        lemma_item_find_push(s, x, addr, i + 1);
    } else {
        assert(item_find_from(s.push(x), addr, i + 1) is None);
    }
}

// ---------------------------------------------------------------------------
// The store
// ---------------------------------------------------------------------------

/// The tray state store.
#[derive(Debug)]
pub struct SystemTray {
    /// All tray items, in arrival order, addresses pairwise distinct.
    items: Vec<TrayItemState>,
    /// Custom status indicators, in insertion order.
    custom_indicators: Vec<CustomIndicator>,
    /// Address whose menu is currently marked open, if any.
    open_menu: Option<String>,
}

impl SystemTray {
    /// Mathematical contents of the item map, in arrival order.
    pub closed spec fn items_model(&self) -> Seq<ItemModel> {
        Seq::new(self.items@.len(), |i: int| self.items@[i].model())
    }

    /// Mathematical contents of the indicator list.
    pub closed spec fn indicators_model(&self) -> Seq<IndicatorModel> {
        Seq::new(self.custom_indicators@.len(), |i: int| self.custom_indicators@[i].model())
    }

    /// The open-menu marker.
    pub closed spec fn open_menu_model(&self) -> Option<Seq<char>> {
        opt_str_view(self.open_menu)
    }

    /// Well-formedness: no two items share an address.
    pub open spec fn wf(&self) -> bool {
        distinct_addresses(self.items_model())
    }

    fn find_index(&self, address: &String) -> (r: Option<usize>)
        ensures
            match r {
                Some(i) => i < self.items@.len() && item_find(self.items_model(), address@)
                    == Some(i as int),
                None => item_find(self.items_model(), address@) is None,
            },
    {
        let mut i: usize = 0;
        let n = self.items.len();
        while i < n
            invariant
                i <= n,
                n == self.items.len(),
                forall|k: int| 0 <= k < i ==> (#[trigger] self.items_model()[k]).address != address@,
            decreases n - i,
        {
            proof {
                assert(self.items_model()[i as int] == self.items@[i as int].model());
            }
            if self.items[i].address == *address {
                proof {
                    lemma_item_find_props(self.items_model(), address@, 0);
                    match item_find(self.items_model(), address@) {
                        Some(j) => {
                            if j < i {
                                assert(self.items_model()[j].address != address@);
                            }
                            if j > i {
                                assert(self.items_model()[i as int].address != address@);
                            }
                        },
                        None => {
                            assert(self.items_model()[i as int].address != address@);
                        },
                    }
                }
                return Some(i);
            }
            i = i + 1;
        }
        proof {
            lemma_item_find_props(self.items_model(), address@, 0);
        }
        None
    }

    /// Append a custom status indicator.
    pub fn add_custom_indicator(&mut self, indicator: CustomIndicator)
        ensures
            final(self).indicators_model() == old(self).indicators_model().push(indicator.model()),
            final(self).items_model() == old(self).items_model(),
            final(self).open_menu_model() == old(self).open_menu_model(),
            old(self).wf() ==> final(self).wf(),
    {
        let ghost m = indicator.model();
        self.custom_indicators.push(indicator);
        proof {
            assert(self.indicators_model() =~= old(self).indicators_model().push(m));
            assert(self.items_model() =~= old(self).items_model());
        }
    }

    /// Remove every custom indicator with the given id; a no-op when none
    /// carries it.
    pub fn remove_custom_indicator(&mut self, id: &String)
        ensures
            final(self).indicators_model() == spec_retain_indicators(
                old(self).indicators_model(),
                id@,
            ),
            final(self).items_model() == old(self).items_model(),
            final(self).open_menu_model() == old(self).open_menu_model(),
            old(self).wf() ==> final(self).wf(),
    {
        let mut kept: Vec<CustomIndicator> = Vec::new();
        let n = self.custom_indicators.len();
        let mut i: usize = 0;
        while i < n
            invariant
                i <= n,
                n == self.custom_indicators.len(),
                Seq::new(kept@.len(), |k: int| kept@[k].model()) == spec_retain_indicators(
                    self.indicators_model().subrange(0, i as int),
                    id@,
                ),
            decreases n - i,
        {
            let ghost pre = Seq::new(kept@.len(), |k: int| kept@[k].model());
            proof {
                assert(self.indicators_model().subrange(0, i + 1 as int).drop_last()
                    =~= self.indicators_model().subrange(0, i as int));
                assert(self.indicators_model()[i as int]
                    == self.custom_indicators@[i as int].model());
            }
            let ind = &self.custom_indicators[i];
            if !(ind.id == *id) {
                let copy = CustomIndicator {
                    id: ind.id.clone(),
                    icon: ind.icon.clone(),
                    tooltip: ind.tooltip.clone(),
                };
                kept.push(copy);
            }
            proof {
                assert(Seq::new(kept@.len(), |k: int| kept@[k].model()) =~= spec_retain_indicators(
                    self.indicators_model().subrange(0, i + 1 as int),
                    id@,
                ));
            }
            i = i + 1;
        }
        self.custom_indicators = kept;
        proof {
            assert(old(self).indicators_model().subrange(0, n as int) =~= old(
                self,
            ).indicators_model());
            assert(self.items_model() =~= old(self).items_model());
        }
    }

    /// Read-only snapshot of the current menu for an address; nothing for
    /// an unknown address.
    pub fn get_menu_items(&self, address: &String) -> (r: Option<Vec<MenuItem>>)
        ensures
            match item_lookup(self.items_model(), address@) {
                Some(it) => r matches Some(v) && menu_list_eq(it.menu, v@),
                None => r is None,
            },
    {
        match self.find_index(address) {
            Some(i) => {
                proof {
                    assert(self.items_model()[i as int] == self.items@[i as int].model());
                }
                Some(clone_menu_list(&self.items[i].menu_items))
            },
            None => None,
        }
    }

    /// Whether a left-click on this address should open a menu instead of
    /// activating: the item has a non-empty menu or is flagged menu-only.
    /// False for an unknown address.
    pub fn has_menu(&self, address: &String) -> (r: bool)
        ensures
            r == spec_has_menu(self.items_model(), address@),
    {
        match self.find_index(address) {
            Some(i) => {
                proof {
                    assert(self.items_model()[i as int] == self.items@[i as int].model());
                }
                self.items[i].menu_items.len() > 0 || self.items[i].item_is_menu
            },
            None => false,
        }
    }

    /// The address whose menu is currently marked open, if any.
    pub fn open_menu_target(&self) -> (r: Option<String>)
        ensures
            opt_str_view(r) == self.open_menu_model(),
    {
        match &self.open_menu {
            Some(a) => Some(a.clone()),
            None => None,
        }
    }

    /// Apply one event or intent; returns the outbound activation request
    /// the intent asks for, if any.
    ///
    /// Adding an address already present overwrites that entry (last
    /// write wins); updates to unknown addresses are silent no-ops;
    /// removing the open-menu target clears the marker.  A left-click
    /// always asks for a default activation — menu interception happens
    /// one layer up, this store never special-cases menu presence.
    pub fn update(&mut self, message: Message) -> (effect: Option<ActivateRequest>)
        requires
            old(self).wf(),
        ensures
            final(self).wf(),
            spec_update_step(*old(self), message, *final(self), effect),
    {
        match message {
            Message::ItemAdded { address, title, icon_handle, item_is_menu } => {
                let entry = TrayItemState {
                    address,
                    title,
                    icon_handle,
                    menu_items: Vec::new(),
                    item_is_menu,
                };
                let ghost m = entry.model();
                let ghost s0 = self.items_model();
                match self.find_index(&entry.address) {
                    Some(i) => {
                        self.items[i] = entry;
                        proof {
                            assert(self.items_model() =~= s0.update(i as int, m));
                            lemma_item_find_props(s0, m.address, 0);
                            assert(s0[i as int].address == m.address);
                            assert forall|a: int, b: int|
                                0 <= a < b < self.items_model().len() implies self.items_model()[a].address
                                != self.items_model()[b].address by {
                                assert(s0[a].address != s0[b].address);
                            }
                        }
                    },
                    None => {
                        self.items.push(entry);
                        proof {
                            assert(self.items_model() =~= s0.push(m));
                            lemma_item_find_props(s0, m.address, 0);
                            assert forall|a: int, b: int|
                                0 <= a < b < self.items_model().len() implies self.items_model()[a].address
                                != self.items_model()[b].address by {
                                if b < s0.len() {
                                    assert(s0[a].address != s0[b].address);
                                } else {
                                    assert(s0[a].address != m.address);
                                }
                            }
                        }
                    },
                }
                None
            },
            Message::ItemUpdated { address, title, icon_handle } => {
                let ghost s0 = self.items_model();
                match self.find_index(&address) {
                    Some(i) => {
                        let entry = self.items.remove(i);
                        let has_title = title.is_some();
                        let has_icon = icon_handle.is_some();
                        let merged = TrayItemState {
                            address: entry.address,
                            title: if has_title {
                                title
                            } else {
                                entry.title
                            },
                            icon_handle: if has_icon {
                                icon_handle
                            } else {
                                entry.icon_handle
                            },
                            menu_items: entry.menu_items,
                            item_is_menu: entry.item_is_menu,
                        };
                        let ghost m = merged.model();
                        self.items.insert(i, merged);
                        proof {
                            assert(s0[i as int] == old(self).items@[i as int].model());
                            assert(self.items_model() =~= s0.update(i as int, m));
                            assert(m == spec_merge(
                                s0[i as int],
                                opt_str_view(title),
                                opt_icon_model(icon_handle),
                            ));
                            assert forall|a: int, b: int|
                                0 <= a < b < self.items_model().len() implies self.items_model()[a].address
                                != self.items_model()[b].address by {
                                assert(s0[a].address != s0[b].address);
                            }
                        }
                    },
                    None => {},
                }
                None
            },
            Message::MenuUpdated { address, menu_items } => {
                let ghost s0 = self.items_model();
                let ghost menu = menu_items@;
                match self.find_index(&address) {
                    Some(i) => {
                        let entry = self.items.remove(i);
                        let replaced = TrayItemState {
                            address: entry.address,
                            title: entry.title,
                            icon_handle: entry.icon_handle,
                            menu_items,
                            item_is_menu: entry.item_is_menu,
                        };
                        let ghost m = replaced.model();
                        self.items.insert(i, replaced);
                        proof {
                            assert(s0[i as int] == old(self).items@[i as int].model());
                            assert(self.items_model() =~= s0.update(i as int, m));
                            assert(m == ItemModel { menu, ..s0[i as int] });
                            assert forall|a: int, b: int|
                                0 <= a < b < self.items_model().len() implies self.items_model()[a].address
                                != self.items_model()[b].address by {
                                assert(s0[a].address != s0[b].address);
                            }
                        }
                    },
                    None => {},
                }
                None
            },
            Message::ItemRemoved(address) => {
                let ghost s0 = self.items_model();
                match self.find_index(&address) {
                    Some(i) => {
                        let _ = self.items.remove(i);
                        proof {
                            assert(self.items_model() =~= s0.remove(i as int));
                            assert forall|a: int, b: int|
                                0 <= a < b < self.items_model().len() implies self.items_model()[a].address
                                != self.items_model()[b].address by {
                                let a2 = if a < i as int { a } else { a + 1 };
                                let b2 = if b < i as int { b } else { b + 1 };
                                assert(self.items_model()[a] == s0[a2]);
                                assert(self.items_model()[b] == s0[b2]);
                                assert(s0[a2].address != s0[b2].address);
                            }
                        }
                    },
                    None => {},
                }
                let clear = match &self.open_menu {
                    Some(open) => *open == address,
                    None => false,
                };
                if clear {
                    self.open_menu = None;
                }
                None
            },
            Message::ItemClicked(address) => {
                Some(ActivateRequest::DefaultActivation { address, x: 0, y: 0 })
            },
            Message::ItemRightClicked(address) => {
                let same = match &self.open_menu {
                    Some(open) => *open == address,
                    None => false,
                };
                if same {
                    self.open_menu = None;
                } else {
                    self.open_menu = Some(address);
                }
                None
            },
            Message::MenuItemClicked { address, menu_id } => {
                self.open_menu = None;
                Some(
                    ActivateRequest::MenuItemActivation {
                        address,
                        menu_path: String::from_str("/MenuBar"),
                        item_id: menu_id,
                    },
                )
            },
            Message::CloseMenu => {
                self.open_menu = None;
                None
            },
            Message::ActivationComplete => None,
        }
    }
}

/// One visible tray icon, as the renderer sees it: the per-frame
/// read-only projection of one item.
#[derive(Debug)]
pub struct TrayIconView {
    /// The item's address, carried into click intents.
    pub address: String,
    /// Tooltip text: the item's title, when it has one.
    pub tooltip: Option<String>,
    /// The item's resolved icon; a placeholder glyph renders when absent.
    pub icon: Option<IconHandle>,
    /// Whether this item's menu is the open one (active visual state).
    pub menu_open: bool,
}

/// Mathematical image of one visible tray icon.
pub ghost struct TrayIconModel {
    pub address: Seq<char>,
    pub tooltip: Option<Seq<char>>,
    pub icon: Option<IconModel>,
    pub menu_open: bool,
}

impl TrayIconView {
    pub open spec fn model(&self) -> TrayIconModel {
        TrayIconModel {
            address: self.address@,
            tooltip: opt_str_view(self.tooltip),
            icon: opt_icon_model(self.icon),
            menu_open: self.menu_open,
        }
    }
}

/// The icon one item projects to, under the current open-menu marker.
pub open spec fn spec_icon_view(it: ItemModel, open: Option<Seq<char>>) -> TrayIconModel {
    TrayIconModel {
        address: it.address,
        tooltip: it.title,
        icon: it.icon,
        menu_open: open == Some(it.address),
    }
}

/// The ordered icon list the whole store projects to.
pub open spec fn spec_tray_view(items: Seq<ItemModel>, open: Option<Seq<char>>) -> Seq<
    TrayIconModel,
> {
    Seq::new(items.len(), |i: int| spec_icon_view(items[i], open))
}

impl Clone for CustomIndicator {
    /// Copy an indicator, preserving its contents.
    fn clone(&self) -> (r: Self)
        ensures
            r.model() == self.model(),
    {
        CustomIndicator {
            id: self.id.clone(),
            icon: self.icon.clone(),
            tooltip: self.tooltip.clone(),
        }
    }
}

impl SystemTray {
    /// The per-frame read-only projection: one icon per tray item, in
    /// arrival order, with tooltip text and the open-menu visual state.
    /// Custom indicators follow separately (see [`Self::indicator_views`]).
    pub fn view_model(&self) -> (r: Vec<TrayIconView>)
        ensures
            Seq::new(r@.len(), |i: int| r@[i].model()) == spec_tray_view(
                self.items_model(),
                self.open_menu_model(),
            ),
    {
        let mut out: Vec<TrayIconView> = Vec::new();
        let n = self.items.len();
        let mut i: usize = 0;
        while i < n
            invariant
                i <= n,
                n == self.items@.len(),
                out@.len() == i,
                forall|k: int|
                    0 <= k < i ==> (#[trigger] out@[k]).model() == spec_icon_view(
                        self.items_model()[k],
                        self.open_menu_model(),
                    ),
            decreases n - i,
        {
            proof {
                assert(self.items_model()[i as int] == self.items@[i as int].model());
            }
            let it = &self.items[i];
            let menu_open = match &self.open_menu {
                Some(open) => *open == it.address,
                None => false,
            };
            let tooltip = match &it.title {
                Some(t) => Some(t.clone()),
                None => None,
            };
            let icon = match &it.icon_handle {
                Some(h) => Some(h.clone()),
                None => None,
            };
            let view = TrayIconView { address: it.address.clone(), tooltip, icon, menu_open };
            proof {
                assert(menu_open == (self.open_menu_model() == Some(
                    self.items_model()[i as int].address,
                )));
                assert(view.model() == spec_icon_view(
                    self.items_model()[i as int],
                    self.open_menu_model(),
                ));
            }
            out.push(view);
            i = i + 1;
        }
        proof {
            assert(Seq::new(out@.len(), |i: int| out@[i].model()) =~= spec_tray_view(
                self.items_model(),
                self.open_menu_model(),
            ));
        }
        out
    }

    /// The custom indicators, in insertion order, for rendering after the
    /// tray icons.
    pub fn indicator_views(&self) -> (r: Vec<CustomIndicator>)
        ensures
            Seq::new(r@.len(), |i: int| r@[i].model()) == self.indicators_model(),
    {
        let mut out: Vec<CustomIndicator> = Vec::new();
        let n = self.custom_indicators.len();
        let mut i: usize = 0;
        while i < n
            invariant
                i <= n,
                n == self.custom_indicators@.len(),
                out@.len() == i,
                forall|k: int|
                    0 <= k < i ==> (#[trigger] out@[k]).model() == self.indicators_model()[k],
            decreases n - i,
        {
            proof {
                assert(self.indicators_model()[i as int]
                    == self.custom_indicators@[i as int].model());
            }
            out.push(self.custom_indicators[i].clone());
            i = i + 1;
        }
        proof {
            assert(Seq::new(out@.len(), |i: int| out@[i].model()) =~= self.indicators_model());
        }
        out
    }
}

impl Default for SystemTray {
    /// An empty store: no items, no indicators, no open menu.
    fn default() -> (r: Self)
        ensures
            r.items_model() == Seq::<ItemModel>::empty(),
            r.indicators_model() == Seq::<IndicatorModel>::empty(),
            r.open_menu_model() is None,
            r.wf(),
    {
        let r = SystemTray { items: Vec::new(), custom_indicators: Vec::new(), open_menu: None };
        proof {
            assert(r.items_model() =~= Seq::<ItemModel>::empty());
            assert(r.indicators_model() =~= Seq::<IndicatorModel>::empty());
        }
        r
    }
}

// ---------------------------------------------------------------------------
// Laws
// ---------------------------------------------------------------------------

/// Law: partial updates are a merge, not a replace.  Applying an update
/// that carries a title and then one that carries no title leaves the
/// first title in place.
pub proof fn lemma_update_title_merge(
    s: Seq<ItemModel>,
    addr: Seq<char>,
    t: Seq<char>,
    icon1: Option<IconModel>,
    icon2: Option<IconModel>,
)
    requires
        item_find(s, addr) is Some,
    ensures
        ({
            let s1 = spec_update_item(s, addr, Some(t), icon1);
            let s2 = spec_update_item(s1, addr, None, icon2);
            &&& item_lookup(s2, addr) matches Some(it) && it.title == Some(t)
        }),
{
    let i = item_find(s, addr)->Some_0;
    lemma_item_find_props(s, addr, 0);
    let m1 = spec_merge(s[i], Some(t), icon1);
    let s1 = spec_update_item(s, addr, Some(t), icon1);
    lemma_item_find_update(s, m1, i, addr, 0);
    let m2 = spec_merge(s1[i], None, icon2);
    let s2 = spec_update_item(s1, addr, None, icon2);
    lemma_item_find_update(s1, m2, i, addr, 0);
}

/// Law: removing the open-menu target clears the marker, and a later
/// right-click on a different address opens that address's menu.
pub proof fn lemma_remove_then_right_click(
    s: Seq<ItemModel>,
    open: Option<Seq<char>>,
    x: Seq<char>,
    y: Seq<char>,
)
    requires
        open == Some(x),
        y != x,
        distinct_addresses(s),
    ensures
        spec_clear_if(open, x) is None,
        spec_toggle(spec_clear_if(open, x), y) == Some(y),
        item_lookup(spec_remove_item(s, x), x) is None,
{
    lemma_item_find_props(s, x, 0);
    match item_find(s, x) {
        Some(i) => {
            let s2 = s.remove(i);
            lemma_item_find_props(s2, x, 0);
            match item_find(s2, x) {
                Some(j) => {
                    assert(s2[j] == if j < i {
                        s[j]
                    } else {
                        s[j + 1]
                    });
                },
                None => {},
            }
        },
        None => {},
    }
}

} // verus!
