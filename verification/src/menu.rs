//! Menu conversion: from the protocol's wire menu representation to the
//! internal, render-agnostic menu model.
//!
//! The wire types mirror, as plain values, the fields of the protocol
//! client's menu tree that this conversion reads.  The surrounding
//! application copies a received menu into them field by field before
//! calling [`convert_menu`].

use vstd::prelude::*;

verus! {

/// How deep a remote menu tree is followed before deeper children are
/// truncated, guarding against pathological or adversarial nesting.
pub const MENU_DEPTH_LIMIT: u32 = 64;

/// Wire form of a menu node kind: an activatable entry or a separator line.
#[derive(Debug, PartialEq, Eq, Structural, Clone, Copy)]
pub enum WireMenuType {
    Standard,
    Separator,
}

/// Wire form of how an entry may be toggled.
#[derive(Debug, PartialEq, Eq, Structural, Clone, Copy)]
pub enum WireToggleType {
    Checkmark,
    Radio,
    CannotBeToggled,
}

/// Wire form of an entry's toggle position.
#[derive(Debug, PartialEq, Eq, Structural, Clone, Copy)]
pub enum WireToggleState {
    On,
    Off,
    Indeterminate,
}

/// One node of the protocol's menu tree, as plain values.
#[derive(Debug)]
pub struct WireMenuItem {
    pub id: i32,
    pub menu_type: WireMenuType,
    pub label: Option<String>,
    pub enabled: bool,
    pub toggle_type: WireToggleType,
    pub toggle_state: WireToggleState,
    pub submenu: Vec<WireMenuItem>,
}

/// The protocol's menu tree for one tray item.
#[derive(Debug)]
pub struct WireMenu {
    pub submenus: Vec<WireMenuItem>,
}

/// Internal menu model node, ready for rendering.
///
/// Separators carry no label and are never independently activatable;
/// the label of an ordinary entry has its access-key markers stripped.
#[derive(Debug)]
pub struct MenuItem {
    /// Menu item id, unique within one tray item's menu; used for activation.
    pub id: i32,
    /// Display label, access-key markers removed.
    pub label: String,
    /// Whether the item is enabled/clickable.
    pub enabled: bool,
    /// Whether this is a separator line.
    pub is_separator: bool,
    /// Whether this item can be checked.
    pub is_checkable: bool,
    /// Whether this item is currently checked.
    pub is_checked: bool,
    /// Nested submenu items.
    pub submenu: Vec<MenuItem>,
}

/// Message type for menu interactions.
#[derive(Debug, Clone)]
pub enum MenuMessage {
    /// A menu item was clicked.
    ItemClicked(i32),
    /// Close the menu.
    Close,
}

/// `s` with every access-key marker character removed.
pub open spec fn strip_marker(s: Seq<char>) -> Seq<char>
    decreases s.len(),
{
    if s.len() == 0 {
        Seq::empty()
    } else {
        strip_marker(s.drop_last()) + (if s.last() == '_' {
            Seq::<char>::empty()
        } else {
            seq![s.last()]
        })
    }
}

/// The cleaned label an optional wire label maps to.
pub open spec fn spec_clean_label(label: Option<String>) -> Seq<char> {
    match label {
        Some(l) => strip_marker(l@),
        None => Seq::empty(),
    }
}

/// Strip access-key markers from a wire label; an absent label becomes
/// the empty string.  Total: there is no failure mode.
pub fn clean_label(label: &Option<String>) -> (r: String)
    ensures
        r@ == spec_clean_label(*label),
{
    let mut out = String::new();
    match label {
        None => {},
        Some(l) => {
            let s = l.as_str();
            let n = s.unicode_len();
            let mut i: usize = 0;
            while i < n
                invariant
                    i <= n,
                    n == s@.len(),
                    s@ == l@,
                    out@ == strip_marker(s@.subrange(0, i as int)),
                decreases n - i,
            {
                let c = s.get_char(i);
                proof {
                    assert(s@.subrange(0, i + 1 as int).drop_last() =~= s@.subrange(0, i as int));
                    assert(s@.subrange(0, i + 1 as int).last() == s@[i as int]);
                }
                if c != '_' {
                    out.append(s.substring_char(i, i + 1));
                    proof {
                        assert(out@ =~= strip_marker(s@.subrange(0, i + 1 as int)));
                    }
                }
                i = i + 1;
            }
            proof {
                assert(s@.subrange(0, n as int) =~= l@);
            }
        },
    }
    out
}

/// Whether a wire node is a separator.
pub open spec fn spec_is_separator(w: WireMenuItem) -> bool {
    w.menu_type is Separator
}

/// Whether a wire node can be checked.
pub open spec fn spec_is_checkable(w: WireMenuItem) -> bool {
    !(w.toggle_type is CannotBeToggled)
}

/// Whether a wire node is currently checked.
pub open spec fn spec_is_checked(w: WireMenuItem) -> bool {
    w.toggle_state is On
}

/// The label the model keeps for a wire node: separators carry no label,
/// other entries keep their cleaned label.
pub open spec fn spec_item_label(w: WireMenuItem) -> Seq<char> {
    if spec_is_separator(w) {
        Seq::empty()
    } else {
        spec_clean_label(w.label)
    }
}

/// `m` is the conversion of wire node `w`, with children followed to at
/// most `depth` further levels and deeper children truncated.
pub open spec fn converted(w: WireMenuItem, m: MenuItem, depth: nat) -> bool
    decreases w,
{
    &&& m.id == w.id
    &&& m.label@ == spec_item_label(w)
    &&& m.enabled == w.enabled
    &&& m.is_separator == spec_is_separator(w)
    &&& m.is_checkable == spec_is_checkable(w)
    &&& m.is_checked == spec_is_checked(w)
    &&& if depth == 0 {
        m.submenu@.len() == 0
    } else {
        &&& m.submenu@.len() == w.submenu@.len()
        &&& forall|i: int|
            0 <= i < w.submenu@.len() ==> converted(
                #[trigger] w.submenu@[i],
                m.submenu@[i],
                (depth - 1) as nat,
            )
    }
}

/// Every element of `ms` is the conversion of the matching element of `ws`.
pub open spec fn all_converted(ws: Seq<WireMenuItem>, ms: Seq<MenuItem>, depth: nat) -> bool {
    &&& ms.len() == ws.len()
    &&& forall|i: int| 0 <= i < ws.len() ==> converted(#[trigger] ws[i], ms[i], depth)
}

/// Convert a single wire menu node, following children to at most `depth`
/// further levels.
pub fn convert_menu_item(item: &WireMenuItem, depth: u32) -> (r: MenuItem)
    ensures
        converted(*item, r, depth as nat),
    decreases *item,
{
    let mut children: Vec<MenuItem> = Vec::new();
    if depth > 0 {
        let mut i: usize = 0;
        while i < item.submenu.len()
            invariant
                i <= item.submenu.len(),
                depth > 0,
                children@.len() == i,
                forall|j: int|
                    0 <= j < i ==> converted(
                        #[trigger] item.submenu@[j],
                        children@[j],
                        (depth - 1) as nat,
                    ),
            decreases item.submenu.len() - i,
        {
            let child = convert_menu_item(&item.submenu[i], depth - 1);
            children.push(child);
            i = i + 1;
        }
    }
    let is_separator = match item.menu_type {
        WireMenuType::Separator => true,
        WireMenuType::Standard => false,
    };
    let label = if is_separator {
        String::new()
    } else {
        clean_label(&item.label)
    };
    let is_checkable = match item.toggle_type {
        WireToggleType::CannotBeToggled => false,
        _ => true,
    };
    let is_checked = match item.toggle_state {
        WireToggleState::On => true,
        _ => false,
    };
    MenuItem {
        id: item.id,
        label,
        enabled: item.enabled,
        is_separator,
        is_checkable,
        is_checked,
        submenu: children,
    }
}

/// Convert a wire menu tree into the internal menu model, preserving
/// structure and order.
pub fn convert_menu(menu: &WireMenu) -> (r: Vec<MenuItem>)
    ensures
        all_converted(menu.submenus@, r@, (MENU_DEPTH_LIMIT - 1) as nat),
{
    let mut out: Vec<MenuItem> = Vec::new();
    let mut i: usize = 0;
    while i < menu.submenus.len()
        invariant
            i <= menu.submenus.len(),
            out@.len() == i,
            forall|j: int|
                0 <= j < i ==> converted(
                    #[trigger] menu.submenus@[j],
                    out@[j],
                    (MENU_DEPTH_LIMIT - 1) as nat,
                ),
        decreases menu.submenus.len() - i,
    {
        let item = convert_menu_item(&menu.submenus[i], MENU_DEPTH_LIMIT - 1);
        out.push(item);
        i = i + 1;
    }
    out
}

/// One renderable row of an open menu: a clickable entry or a separator
/// line.  Rows are the render-agnostic projection of a menu list.
#[derive(Debug)]
pub struct MenuRow {
    /// Menu item id, carried into the activation request on a click.
    pub item_id: i32,
    /// Display label (empty for separators).
    pub label: String,
    /// Whether the entry is enabled.
    pub enabled: bool,
    /// Whether the row is a separator line.
    pub is_separator: bool,
    /// Whether a check mark is shown beside the label.
    pub show_checked: bool,
    /// Whether a click on the row activates it: enabled entries only,
    /// never separators.
    pub clickable: bool,
}

/// Mathematical image of a menu row.
pub ghost struct RowModel {
    pub item_id: i32,
    pub label: Seq<char>,
    pub enabled: bool,
    pub is_separator: bool,
    pub show_checked: bool,
    pub clickable: bool,
}

impl MenuRow {
    pub open spec fn model(&self) -> RowModel {
        RowModel {
            item_id: self.item_id,
            label: self.label@,
            enabled: self.enabled,
            is_separator: self.is_separator,
            show_checked: self.show_checked,
            clickable: self.clickable,
        }
    }
}

/// The contents of each row in a list.
pub open spec fn row_models(s: Seq<MenuRow>) -> Seq<RowModel> {
    Seq::new(s.len(), |i: int| s[i].model())
}

/// Whether a menu node produces a row at all: entries with an empty label
/// are dropped unless they are separators.
pub open spec fn row_visible(m: MenuItem) -> bool {
    m.label@.len() > 0 || m.is_separator
}

/// The row a visible menu node renders to.
pub open spec fn spec_row(m: MenuItem) -> RowModel {
    RowModel {
        item_id: m.id,
        label: m.label@,
        enabled: m.enabled,
        is_separator: m.is_separator,
        show_checked: m.is_checkable && m.is_checked,
        clickable: m.enabled && !m.is_separator,
    }
}

/// The rows a menu list renders to, in order: every visible node, each
/// mapped to its row.
pub open spec fn spec_rows(s: Seq<MenuItem>) -> Seq<RowModel>
    decreases s.len(),
{
    if s.len() == 0 {
        Seq::empty()
    } else {
        spec_rows(s.drop_last()) + (if row_visible(s.last()) {
            seq![spec_row(s.last())]
        } else {
            Seq::<RowModel>::empty()
        })
    }
}

/// Project a menu list onto its renderable rows, preserving order.
pub fn menu_rows(items: &Vec<MenuItem>) -> (r: Vec<MenuRow>)
    ensures
        row_models(r@) == spec_rows(items@),
{
    let mut out: Vec<MenuRow> = Vec::new();
    let n = items.len();
    let mut i: usize = 0;
    while i < n
        invariant
            i <= n,
            n == items@.len(),
            row_models(out@) == spec_rows(items@.subrange(0, i as int)),
        decreases n - i,
    {
        proof {
            assert(items@.subrange(0, i + 1 as int).drop_last() =~= items@.subrange(0, i as int));
        }
        let m = &items[i];
        let visible = m.label.as_str().unicode_len() > 0 || m.is_separator;
        if visible {
            let row = MenuRow {
                item_id: m.id,
                label: m.label.clone(),
                enabled: m.enabled,
                is_separator: m.is_separator,
                show_checked: m.is_checkable && m.is_checked,
                clickable: m.enabled && !m.is_separator,
            };
            out.push(row);
        }
        proof {
            assert(row_models(out@) =~= spec_rows(items@.subrange(0, i + 1 as int)));
        }
        i = i + 1;
    }
    proof {
        assert(items@.subrange(0, n as int) =~= items@);
    }
    out
}

/// Structural equality of two menu model nodes, label compared by contents.
pub open spec fn menu_eq(a: MenuItem, b: MenuItem) -> bool
    decreases a,
{
    &&& a.id == b.id
    &&& a.label@ == b.label@
    &&& a.enabled == b.enabled
    &&& a.is_separator == b.is_separator
    &&& a.is_checkable == b.is_checkable
    &&& a.is_checked == b.is_checked
    &&& a.submenu@.len() == b.submenu@.len()
    &&& forall|i: int|
        0 <= i < a.submenu@.len() ==> menu_eq(#[trigger] a.submenu@[i], b.submenu@[i])
}

/// Elementwise [`menu_eq`] over two menu lists.
pub open spec fn menu_list_eq(a: Seq<MenuItem>, b: Seq<MenuItem>) -> bool {
    &&& a.len() == b.len()
    &&& forall|i: int| 0 <= i < a.len() ==> menu_eq(#[trigger] a[i], b[i])
}

/// Equal menu lists render to the same rows.
pub proof fn lemma_rows_respect_eq(a: Seq<MenuItem>, b: Seq<MenuItem>)
    requires
        menu_list_eq(a, b),
    ensures
        spec_rows(a) == spec_rows(b),
    decreases a.len(),
{
    if a.len() > 0 {
        assert forall|k: int| 0 <= k < a.drop_last().len() implies menu_eq(
            #[trigger] a.drop_last()[k],
            b.drop_last()[k],
        ) by {
            assert(menu_eq(a[k], b[k]));
        }
        lemma_rows_respect_eq(a.drop_last(), b.drop_last());
        assert(menu_eq(a.last(), b.last()));
    } else {
        assert(spec_rows(a) == Seq::<RowModel>::empty());
        assert(spec_rows(b) == Seq::<RowModel>::empty());
    }
}

/// Copy a whole menu list, preserving every node.
pub fn clone_menu_list(v: &Vec<MenuItem>) -> (r: Vec<MenuItem>)
    ensures
        menu_list_eq(v@, r@),
    decreases *v,
{
    let mut out: Vec<MenuItem> = Vec::new();
    let mut i: usize = 0;
    while i < v.len()
        invariant
            i <= v.len(),
            out@.len() == i,
            forall|j: int| 0 <= j < i ==> menu_eq(#[trigger] v@[j], out@[j]),
        decreases v.len() - i,
    {
        let item = v[i].clone();
        out.push(item);
        i = i + 1;
    }
    out
}

impl Clone for MenuItem {
    /// Copy one menu node and its whole subtree.
    fn clone(&self) -> (r: Self)
        ensures
            menu_eq(*self, r),
        decreases *self,
    {
        MenuItem {
            id: self.id,
            label: self.label.clone(),
            enabled: self.enabled,
            is_separator: self.is_separator,
            is_checkable: self.is_checkable,
            is_checked: self.is_checked,
            submenu: clone_menu_list(&self.submenu),
        }
    }
}

} // verus!
