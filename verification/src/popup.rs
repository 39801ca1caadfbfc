//! Popup lifecycle: ephemeral menu windows keyed by an opaque window id,
//! each holding a snapshot of one tray item's menu and an opening
//! animation that runs linearly from zero to full.
//!
//! Only opening is animated: a periodic tick advances every in-progress
//! popup by a fixed increment, clamped at full.  Closing is immediate and
//! unconditional — an explicit close, the cancellation key, a menu click,
//! or the owning tray item's removal simply deletes the popup's state.
//! Progress is stored linearly, in hundredths of full, so it stays
//! resumable; the ease-out curve is applied only when a visible height is
//! derived.

use vstd::prelude::*;

use crate::menu::menu_rows;
use crate::menu::row_models;
use crate::menu::spec_rows;
use crate::menu::MenuItem;
use crate::menu::MenuRow;

verus! {

/// Height of one menu row, in pixels.
pub const POPUP_ROW_HEIGHT: u64 = 28;

/// Vertical padding around the rows, in pixels.
pub const POPUP_PADDING: u64 = 16;

/// Extra window height above the menu: offset from the bar plus the
/// connector tab.
pub const POPUP_TOP_OFFSET: u64 = 22;

/// Fixed popup window width, in pixels.
pub const POPUP_WIDTH: u32 = 200;

/// The popup window height is capped here, in pixels.
pub const POPUP_MAX_HEIGHT: u64 = 400;

/// Animation progress is stored in hundredths of full.
pub const PROGRESS_FULL: u8 = 100;

/// How much one tick adds to a popup's progress, in hundredths.
pub const PROGRESS_STEP: u8 = 15;

/// A menu with more rows than this is refused a popup; it keeps every
/// height computation comfortably inside machine integers.
pub const MAX_POPUP_ROWS: usize = 100000000;

/// Animation state of one popup: linear progress from 0 (just opened) to
/// [`PROGRESS_FULL`], and the pixel height of the full menu content.
#[derive(Debug)]
pub struct PopupAnimationState {
    pub progress: u8,
    pub content_height: u64,
}

/// One ephemeral popup window: the owning tray address and a snapshot of
/// its menu, both captured at open time — later menu updates on that
/// address do not affect an already-open popup.
#[derive(Debug)]
pub struct PopupState {
    /// Opaque window id assigned by the host environment.
    pub window: u64,
    /// Address of the owning tray item.
    pub address: String,
    /// The menu list as it stood when the popup opened.
    pub items: Vec<MenuItem>,
    /// Opening animation state.
    pub anim: PopupAnimationState,
}

/// Mathematical image of one popup.
pub ghost struct PopupModel {
    pub window: u64,
    pub address: Seq<char>,
    pub items: Seq<MenuItem>,
    pub progress: u8,
    pub content_height: u64,
}

impl PopupState {
    pub open spec fn model(&self) -> PopupModel {
        PopupModel {
            window: self.window,
            address: self.address@,
            items: self.items@,
            progress: self.anim.progress,
            content_height: self.anim.content_height,
        }
    }
}

// ---------------------------------------------------------------------------
// Model-level definitions
// ---------------------------------------------------------------------------

/// Index of the first popup with the given window id at or after `i`.
pub open spec fn popup_find_from(s: Seq<PopupModel>, window: u64, i: int) -> Option<int>
    decreases s.len() - i,
    when 0 <= i <= s.len()
{
    if i >= s.len() {
        None
    } else if s[i].window == window {
        Some(i)
    } else {
        popup_find_from(s, window, i + 1)
    }
}

/// Index of the first popup with the given window id, if any.
pub open spec fn popup_find(s: Seq<PopupModel>, window: u64) -> Option<int> {
    popup_find_from(s, window, 0)
}

/// The popup keyed by a window id, if any.
pub open spec fn popup_lookup(s: Seq<PopupModel>, window: u64) -> Option<PopupModel> {
    match popup_find(s, window) {
        Some(i) => Some(s[i]),
        None => None,
    }
}

/// The content height of a menu with `n` rows.
pub open spec fn spec_content_height(n: nat) -> int {
    n * POPUP_ROW_HEIGHT + POPUP_PADDING
}

/// The window height requested for a menu with `n` rows: content plus the
/// top offset, capped at [`POPUP_MAX_HEIGHT`].
pub open spec fn spec_window_height(n: nat) -> int {
    if spec_content_height(n) + POPUP_TOP_OFFSET > POPUP_MAX_HEIGHT {
        POPUP_MAX_HEIGHT as int
    } else {
        spec_content_height(n) + POPUP_TOP_OFFSET
    }
}

/// One popup's progress after a tick: one step further, clamped at full.
pub open spec fn spec_tick_progress(p: u8) -> u8 {
    if p + PROGRESS_STEP >= PROGRESS_FULL {
        PROGRESS_FULL
    } else {
        (p + PROGRESS_STEP) as u8
    }
}

/// Every popup after a tick.
pub open spec fn spec_tick(s: Seq<PopupModel>) -> Seq<PopupModel> {
    Seq::new(s.len(), |i: int| PopupModel { progress: spec_tick_progress(s[i].progress), ..s[i] })
}

/// A popup's progress after `n` ticks.
pub open spec fn spec_progress_after(p: u8, n: nat) -> u8
    decreases n,
{
    if n == 0 {
        p
    } else {
        spec_tick_progress(spec_progress_after(p, (n - 1) as nat))
    }
}

/// The popups left after the ones owned by an address close.
pub open spec fn spec_drop_address(s: Seq<PopupModel>, addr: Seq<char>) -> Seq<PopupModel>
    decreases s.len(),
{
    if s.len() == 0 {
        Seq::empty()
    } else {
        spec_drop_address(s.drop_last(), addr) + (if s.last().address == addr {
            Seq::<PopupModel>::empty()
        } else {
            seq![s.last()]
        })
    }
}

/// The window ids of the popups an address's removal closes, in order.
pub open spec fn spec_windows_of_address(s: Seq<PopupModel>, addr: Seq<char>) -> Seq<u64>
    decreases s.len(),
{
    if s.len() == 0 {
        Seq::empty()
    } else {
        spec_windows_of_address(s.drop_last(), addr) + (if s.last().address == addr {
            seq![s.last().window]
        } else {
            Seq::<u64>::empty()
        })
    }
}

/// The popups left after one window closes.
pub open spec fn spec_close(s: Seq<PopupModel>, window: u64) -> Seq<PopupModel> {
    match popup_find(s, window) {
        Some(i) => s.remove(i),
        None => s,
    }
}

/// The eased opening fraction, in ten-thousandths of full: the ease-out
/// quadratic `1 - (1 - p)^2` of the linear progress.
pub open spec fn spec_eased(p: u8) -> int {
    10000 - (100 - p) * (100 - p)
}

/// The visible pixel height of a popup's content while it opens: the
/// eased fraction of the full content height, never less than one pixel.
pub open spec fn spec_visible_height(content: u64, p: u8) -> int {
    let h = content * spec_eased(p) / 10000;
    if h < 1 {
        1
    } else {
        h
    }
}

// ---------------------------------------------------------------------------
// Lemmas
// ---------------------------------------------------------------------------

pub proof fn lemma_popup_find_props(s: Seq<PopupModel>, window: u64, i: int)
    requires
        0 <= i <= s.len(),
    ensures
        match popup_find_from(s, window, i) {
            Some(j) => i <= j < s.len() && s[j].window == window && forall|k: int|
                i <= k < j ==> (#[trigger] s[k]).window != window,
            None => forall|k: int| i <= k < s.len() ==> (#[trigger] s[k]).window != window,
        },
    decreases s.len() - i,
{
    if i < s.len() && s[i].window != window {
        lemma_popup_find_props(s, window, i + 1);
    }
}

/// Law: starting from fresh progress, `n` ticks reach one step times `n`,
/// clamped at full — and once full, further ticks do not move it.
pub proof fn lemma_progress_after_ticks(n: nat)
    ensures
        spec_progress_after(0, n) == if PROGRESS_STEP * n >= PROGRESS_FULL {
            PROGRESS_FULL as int
        } else {
            PROGRESS_STEP * n
        },
    decreases n,
{
    if n > 0 {
        lemma_progress_after_ticks((n - 1) as nat);
    }
}

// ---------------------------------------------------------------------------
// The manager
// ---------------------------------------------------------------------------

/// Owner of all popup state, keyed by opaque window id.
#[derive(Debug)]
pub struct PopupManager {
    popups: Vec<PopupState>,
}

impl PopupManager {
    /// Mathematical contents of the manager, in opening order.
    pub closed spec fn model(&self) -> Seq<PopupModel> {
        Seq::new(self.popups@.len(), |i: int| self.popups@[i].model())
    }

    /// Well-formedness: window ids are pairwise distinct, progress never
    /// exceeds full, and content heights stay within machine bounds.
    pub open spec fn wf(&self) -> bool {
        &&& forall|i: int, j: int|
            0 <= i < j < self.model().len() ==> (#[trigger] self.model()[i]).window != (
            #[trigger] self.model()[j]).window
        &&& forall|i: int|
            0 <= i < self.model().len() ==> (#[trigger] self.model()[i]).progress <= PROGRESS_FULL
        &&& forall|i: int|
            0 <= i < self.model().len() ==> (#[trigger] self.model()[i]).content_height
                < 0x100000000
    }

    /// A manager with no popups.
    pub fn new() -> (r: PopupManager)
        ensures
            r.model() == Seq::<PopupModel>::empty(),
            r.wf(),
    {
        let r = PopupManager { popups: Vec::new() };
        proof {
            assert(r.model() =~= Seq::<PopupModel>::empty());
        }
        r
    }

    fn find_index(&self, window: u64) -> (r: Option<usize>)
        ensures
            match r {
                Some(i) => i < self.popups@.len() && popup_find(self.model(), window) == Some(
                    i as int,
                ),
                None => popup_find(self.model(), window) is None,
            },
    {
        let mut i: usize = 0;
        let n = self.popups.len();
        while i < n
            invariant
                i <= n,
                n == self.popups.len(),
                forall|k: int| 0 <= k < i ==> (#[trigger] self.model()[k]).window != window,
            decreases n - i,
        {
            proof {
                assert(self.model()[i as int] == self.popups@[i as int].model());
            }
            if self.popups[i].window == window {
                proof {
                    lemma_popup_find_props(self.model(), window, 0);
                    match popup_find(self.model(), window) {
                        Some(j) => {
                            if j < i {
                                assert(self.model()[j].window != window);
                            }
                            if j > i {
                                assert(self.model()[i as int].window != window);
                            }
                        },
                        None => {
                            assert(self.model()[i as int].window != window);
                        },
                    }
                }
                return Some(i);
            }
            i = i + 1;
        }
        proof {
            lemma_popup_find_props(self.model(), window, 0);
        }
        None
    }

    /// Whether a popup is keyed by this window id.
    pub fn has_popup(&self, window: u64) -> (r: bool)
        ensures
            r == (popup_find(self.model(), window) is Some),
    {
        match self.find_index(window) {
            Some(_) => true,
            None => false,
        }
    }

    /// Open a popup: snapshot the owning address and its menu, start the
    /// animation at zero, and return the window size to request from the
    /// host environment.
    pub fn open(&mut self, window: u64, address: String, items: Vec<MenuItem>) -> (size: (
        u32,
        u32,
    ))
        requires
            old(self).wf(),
            popup_find(old(self).model(), window) is None,
            items@.len() <= MAX_POPUP_ROWS,
        ensures
            final(self).wf(),
            final(self).model() == old(self).model().push(
                PopupModel {
                    window,
                    address: address@,
                    items: items@,
                    progress: 0,
                    content_height: spec_content_height(items@.len()) as u64,
                },
            ),
            size.0 == POPUP_WIDTH,
            size.1 == spec_window_height(items@.len()),
    {
        let rows: u64 = items.len() as u64;
        let content_height: u64 = rows * POPUP_ROW_HEIGHT + POPUP_PADDING;
        let total: u64 = content_height + POPUP_TOP_OFFSET;
        let height: u32 = if total > POPUP_MAX_HEIGHT {
            POPUP_MAX_HEIGHT as u32
        } else {
            total as u32
        };
        let entry = PopupState {
            window,
            address,
            items,
            anim: PopupAnimationState { progress: 0, content_height },
        };
        let ghost m = entry.model();
        let ghost s0 = self.model();
        proof {
            lemma_popup_find_props(s0, window, 0);
        }
        self.popups.push(entry);
        proof {
            assert(self.model() =~= s0.push(m));
            assert forall|a: int, b: int|
                0 <= a < b < self.model().len() implies (#[trigger] self.model()[a]).window != (
            #[trigger] self.model()[b]).window by {
                if b < s0.len() {
                    assert(s0[a].window != s0[b].window);
                } else {
                    assert(s0[a].window != window);
                }
            }
        }
        (POPUP_WIDTH, height)
    }

    /// The renderable rows of an open popup, from its snapshot.
    pub fn rows(&self, window: u64) -> (r: Option<Vec<MenuRow>>)
        ensures
            match popup_lookup(self.model(), window) {
                Some(p) => r matches Some(v) && row_models(v@) == spec_rows(p.items),
                None => r is None,
            },
    {
        match self.find_index(window) {
            Some(i) => {
                proof {
                    assert(self.model()[i as int] == self.popups@[i as int].model());
                }
                Some(menu_rows(&self.popups[i].items))
            },
            None => None,
        }
    }

    /// The owning tray address of an open popup.
    pub fn address_of(&self, window: u64) -> (r: Option<String>)
        ensures
            match popup_lookup(self.model(), window) {
                Some(p) => r matches Some(a) && a@ == p.address,
                None => r is None,
            },
    {
        match self.find_index(window) {
            Some(i) => {
                proof {
                    assert(self.model()[i as int] == self.popups@[i as int].model());
                }
                Some(self.popups[i].address.clone())
            },
            None => None,
        }
    }

    /// A popup's linear opening progress, in hundredths of full.
    pub fn progress_of(&self, window: u64) -> (r: Option<u8>)
        ensures
            match popup_lookup(self.model(), window) {
                Some(p) => r == Some(p.progress),
                None => r is None,
            },
    {
        match self.find_index(window) {
            Some(i) => {
                proof {
                    assert(self.model()[i as int] == self.popups@[i as int].model());
                }
                Some(self.popups[i].anim.progress)
            },
            None => None,
        }
    }

    /// The visible content height of an open popup at this instant: the
    /// ease-out quadratic of its linear progress, applied to the full
    /// content height, never under one pixel.
    pub fn visible_height(&self, window: u64) -> (r: Option<u64>)
        requires
            self.wf(),
        ensures
            match popup_lookup(self.model(), window) {
                Some(p) => r == Some(spec_visible_height(p.content_height, p.progress) as u64),
                None => r is None,
            },
    {
        match self.find_index(window) {
            Some(i) => {
                proof {
                    assert(self.model()[i as int] == self.popups@[i as int].model());
                    lemma_popup_find_props(self.model(), window, 0);
                }
                let p = &self.popups[i];
                proof {
                    assert(p.anim.progress <= PROGRESS_FULL);
                    assert(p.anim.content_height < 0x100000000);
                }
                let back: u64 = (100 - p.anim.progress) as u64;
                proof {
                    assert(back * back <= 10000) by (nonlinear_arith)
                        requires
                            back <= 100,
                    ;
                }
                let eased: u64 = 10000 - back * back;
                proof {
                    assert(p.anim.content_height * eased <= 0xffffffffu64 * 10000)
                        by (nonlinear_arith)
                        requires
                            p.anim.content_height < 0x100000000u64,
                            eased <= 10000,
                    ;
                }
                let h: u64 = p.anim.content_height * eased / 10000;
                let r: u64 = if h < 1 {
                    1
                } else {
                    h
                };
                Some(r)
            },
            None => None,
        }
    }

    /// Whether any popup is still opening; the periodic tick runs only
    /// while this holds, so an idle bar draws nothing.
    pub fn any_animating(&self) -> (r: bool)
        ensures
            r == exists|i: int|
                0 <= i < self.model().len() && (#[trigger] self.model()[i]).progress
                    < PROGRESS_FULL,
    {
        let mut i: usize = 0;
        let n = self.popups.len();
        while i < n
            invariant
                i <= n,
                n == self.popups.len(),
                forall|k: int| 0 <= k < i ==> (#[trigger] self.model()[k]).progress >= PROGRESS_FULL,
            decreases n - i,
        {
            proof {
                assert(self.model()[i as int] == self.popups@[i as int].model());
            }
            if self.popups[i].anim.progress < PROGRESS_FULL {
                return true;
            }
            i = i + 1;
        }
        false
    }

    /// Advance every in-progress popup by one step, clamped at full.
    pub fn tick(&mut self)
        requires
            old(self).wf(),
        ensures
            final(self).wf(),
            final(self).model() == spec_tick(old(self).model()),
    {
        let ghost s0 = self.model();
        let n = self.popups.len();
        let mut i: usize = 0;
        while i < n
            invariant
                i <= n,
                n == self.popups@.len(),
                self.model().len() == s0.len(),
                forall|k: int| i <= k < n ==> self.model()[k] == s0[k],
                forall|k: int|
                    0 <= k < i ==> self.model()[k] == (PopupModel {
                        progress: spec_tick_progress(s0[k].progress),
                        ..s0[k]
                    }),
                forall|k: int| 0 <= k < n ==> (#[trigger] s0[k]).progress <= PROGRESS_FULL,
            decreases n - i,
        {
            let ghost pre = self.model();
            let ghost prepops = self.popups@;
            let cur: u8 = self.popups[i].anim.progress;
            proof {
                assert(self.model()[i as int] == self.popups@[i as int].model());
                assert(self.model()[i as int] == s0[i as int]);
                assert(s0[i as int].progress <= PROGRESS_FULL);
                assert(cur <= PROGRESS_FULL);
            }
            let np: u8 = if cur >= PROGRESS_FULL - PROGRESS_STEP {
                PROGRESS_FULL
            } else {
                cur + PROGRESS_STEP
            };
            let p = vstd::std_specs::vec::vec_index_mut(&mut self.popups, i);
            p.anim.progress = np;
            proof {
                assert(np == spec_tick_progress(s0[i as int].progress));
                assert forall|k: int| 0 <= k < n implies #[trigger] self.model()[k] == (if k < i + 1 {
                    PopupModel { progress: spec_tick_progress(s0[k].progress), ..s0[k] }
                } else {
                    s0[k]
                }) by {
                    assert(self.model()[k] == self.popups@[k].model());
                    assert(pre[k] == prepops[k].model());
                    if k != i as int {
                        assert(self.popups@[k] == prepops[k]);
                    }
                }
            }
            i = i + 1;
        }
        proof {
            assert(self.model() =~= spec_tick(s0));
        }
    }

    /// Close one popup, deleting its state entirely; reports whether the
    /// window id was known.
    pub fn close(&mut self, window: u64) -> (r: bool)
        requires
            old(self).wf(),
        ensures
            final(self).wf(),
            final(self).model() == spec_close(old(self).model(), window),
            r == (popup_find(old(self).model(), window) is Some),
    {
        let ghost s0 = self.model();
        match self.find_index(window) {
            Some(i) => {
                let _ = self.popups.remove(i);
                proof {
                    assert(self.model() =~= s0.remove(i as int));
                    assert forall|a: int, b: int|
                        0 <= a < b < self.model().len() implies (#[trigger] self.model()[a]).window
                        != (#[trigger] self.model()[b]).window by {
                        let a2 = if a < i as int {
                            a
                        } else {
                            a + 1
                        };
                        let b2 = if b < i as int {
                            b
                        } else {
                            b + 1
                        };
                        assert(self.model()[a] == s0[a2]);
                        assert(self.model()[b] == s0[b2]);
                        assert(s0[a2].window != s0[b2].window);
                    }
                    assert forall|a: int| 0 <= a < self.model().len() implies (
                    #[trigger] self.model()[a]).progress <= PROGRESS_FULL && (
                    self.model()[a]).content_height < 0x100000000 by {
                        let a2 = if a < i as int {
                            a
                        } else {
                            a + 1
                        };
                        assert(self.model()[a] == s0[a2]);
                    }
                }
                true
            },
            None => false,
        }
    }

    /// Close every popup owned by a tray address (on the item's removal),
    /// returning the window ids to destroy, in opening order.
    pub fn close_for_address(&mut self, address: &String) -> (windows: Vec<u64>)
        requires
            old(self).wf(),
        ensures
            final(self).wf(),
            final(self).model() == spec_drop_address(old(self).model(), address@),
            windows@ == spec_windows_of_address(old(self).model(), address@),
    {
        let ghost s0 = self.model();
        let mut pending: Vec<PopupState> = Vec::new();
        core::mem::swap(&mut pending, &mut self.popups);
        let ghost pend0 = pending@;
        let mut windows: Vec<u64> = Vec::new();
        let n = pending.len();
        let mut i: usize = 0;
        proof {
            assert(self.model() =~= Seq::<PopupModel>::empty());
        }
        while i < n
            invariant
                i <= n,
                n == pend0.len(),
                pending@ == pend0.subrange(i as int, n as int),
                s0 == Seq::new(pend0.len(), |k: int| pend0[k].model()),
                self.model() == spec_drop_address(s0.subrange(0, i as int), address@),
                windows@ == spec_windows_of_address(s0.subrange(0, i as int), address@),
                forall|a: int, b: int|
                    0 <= a < b < s0.len() ==> (#[trigger] s0[a]).window != (
                #[trigger] s0[b]).window,
                forall|a: int|
                    0 <= a < s0.len() ==> (#[trigger] s0[a]).progress <= PROGRESS_FULL && (
                    s0[a]).content_height < 0x100000000,
            decreases n - i,
        {
            proof {
                assert(s0.subrange(0, i + 1 as int).drop_last() =~= s0.subrange(0, i as int));
                assert(pend0[i as int].model() == s0[i as int]);
                assert(pending@[0] == pend0[i as int]);
            }
            let p = pending.remove(0);
            if p.address == *address {
                windows.push(p.window);
            } else {
                self.popups.push(p);
            }
            proof {
                assert(pending@ =~= pend0.subrange(i + 1 as int, n as int));
                assert(self.model() =~= spec_drop_address(s0.subrange(0, i + 1 as int), address@));
                assert(windows@ =~= spec_windows_of_address(
                    s0.subrange(0, i + 1 as int),
                    address@,
                ));
            }
            i = i + 1;
        }
        proof {
            assert(s0.subrange(0, n as int) =~= s0);
            lemma_drop_address_wf(s0, address@);
        }
        windows
    }

    /// The popup the cancellation key closes when several are open: the
    /// first in iteration order, or nothing when none is open.
    pub fn cancel_target(&self) -> (r: Option<u64>)
        ensures
            match r {
                Some(w) => self.model().len() > 0 && w == self.model()[0].window,
                None => self.model().len() == 0,
            },
    {
        if self.popups.len() > 0 {
            proof {
                assert(self.model()[0] == self.popups@[0].model());
            }
            Some(self.popups[0].window)
        } else {
            None
        }
    }
}

proof fn lemma_drop_address_membership(s: Seq<PopupModel>, addr: Seq<char>)
    ensures
        forall|a: int|
            #![trigger spec_drop_address(s, addr)[a]]
            0 <= a < spec_drop_address(s, addr).len() ==> exists|c: int|
                0 <= c < s.len() && spec_drop_address(s, addr)[a] == #[trigger] s[c],
    decreases s.len(),
{
    let d = spec_drop_address(s, addr);
    if s.len() > 0 {
        lemma_drop_address_membership(s.drop_last(), addr);
        let dprev = spec_drop_address(s.drop_last(), addr);
        assert forall|a: int| #![trigger d[a]] 0 <= a < d.len() implies exists|c: int|
            0 <= c < s.len() && d[a] == #[trigger] s[c] by {
            if a < dprev.len() {
                assert(d[a] == dprev[a]);
                let c0 = choose|c: int|
                    0 <= c < s.drop_last().len() && dprev[a] == #[trigger] s.drop_last()[c];
                assert(d[a] == s[c0]);
            } else {
                assert(d[a] == s.last());
                assert(d[a] == s[s.len() - 1]);
            }
        }
    }
}

proof fn lemma_drop_address_wf(s: Seq<PopupModel>, addr: Seq<char>)
    requires
        forall|a: int, b: int|
            0 <= a < b < s.len() ==> (#[trigger] s[a]).window != (#[trigger] s[b]).window,
        forall|a: int|
            0 <= a < s.len() ==> (#[trigger] s[a]).progress <= PROGRESS_FULL && (
            s[a]).content_height < 0x100000000,
    ensures
        ({
            let d = spec_drop_address(s, addr);
            &&& forall|a: int, b: int|
                0 <= a < b < d.len() ==> (#[trigger] d[a]).window != (#[trigger] d[b]).window
            &&& forall|a: int|
                0 <= a < d.len() ==> (#[trigger] d[a]).progress <= PROGRESS_FULL && (
                d[a]).content_height < 0x100000000
        }),
    decreases s.len(),
{
    if s.len() > 0 {
        lemma_drop_address_wf(s.drop_last(), addr);
        let dprev = spec_drop_address(s.drop_last(), addr);
        let d = spec_drop_address(s, addr);
        lemma_drop_address_membership(s.drop_last(), addr);
        assert forall|a: int, b: int|
            0 <= a < b < d.len() implies (#[trigger] d[a]).window != (#[trigger] d[b]).window by {
            if b < dprev.len() {
                assert(d[a] == dprev[a] && d[b] == dprev[b]);
            } else if s.last().address != addr && b == dprev.len() {
                assert(d[b] == s.last());
                assert(d[a] == dprev[a]);
                let c0 = choose|c: int|
                    0 <= c < s.drop_last().len() && dprev[a] == #[trigger] s.drop_last()[c];
                assert(s[c0] == s.drop_last()[c0]);
                assert(s[c0].window != s[s.len() - 1].window);
            }
        }
        assert forall|a: int| 0 <= a < d.len() implies (#[trigger] d[a]).progress <= PROGRESS_FULL
            && (d[a]).content_height < 0x100000000 by {
            if a < dprev.len() {
                assert(d[a] == dprev[a]);
            } else {
                assert(d[a] == s.last());
            }
        }
    }
}

} // verus!
