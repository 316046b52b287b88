use vstd::prelude::*;

use crate::config::Config;
use crate::geometry::{content_height, scroll_limit, slot_top, sum_heights, window_slot_top};

verus! {

/// The identifier that follows `id` when identifiers are handed out in order;
/// the counter wraps around at the top of its range.
pub open spec fn next_after(id: usize) -> usize {
    if id < usize::MAX {
        (id + 1) as usize
    } else {
        0
    }
}

/// Source of window identifiers: each call hands out the current value and
/// advances the counter by one.
pub struct WindowIds {
    next: usize,
}

impl WindowIds {
    /// The identifier that the next window will receive.
    pub closed spec fn next_id(&self) -> usize {
        self.next
    }

    /// A counter that starts at zero.
    pub fn new() -> (ids: WindowIds)
        ensures
            ids.next_id() == 0,
    {
        WindowIds { next: 0 }
    }

    /// Hands out the current identifier and advances the counter, wrapping at
    /// the top of the range as an atomic `fetch_add` does.
    pub fn allocate(&mut self) -> (id: usize)
        ensures
            id == old(self).next_id(),
            final(self).next_id() == next_after(old(self).next_id()),
    {
        let id = self.next;
        self.next = self.next.wrapping_add(1);
        id
    }
}

/// A managed toplevel: its identifier, the handle of the client surface it
/// shows (opaque to the layout), and its height in pixels.
pub struct Window<T> {
    pub id: usize,
    pub toplevel: T,
    pub height: u32,
}

impl<T> Window<T> {
    /// Creates a window with a fresh identifier from `ids`.
    pub fn new(ids: &mut WindowIds, toplevel: T, height: u32) -> (w: Window<T>)
        ensures
            w.id == old(ids).next_id(),
            w.toplevel == toplevel,
            w.height == height,
            final(ids).next_id() == next_after(old(ids).next_id()),
            old(ids).next_id() < usize::MAX ==> w.id < final(ids).next_id(),
    {
        let id = ids.allocate();
        Window { id, toplevel, height }
    }
}


/// Heights of a sequence of windows, in order.
pub open spec fn window_heights<T>(ws: Seq<Window<T>>) -> Seq<u32> {
    ws.map_values(|w: Window<T>| w.height)
}

/// `s` with the elements at `i` and `j` exchanged.
pub open spec fn swapped<A>(s: Seq<A>, i: int, j: int) -> Seq<A> {
    s.update(i, s[j]).update(j, s[i])
}

/// Clamps `v` into `lo..=hi`.
pub open spec fn clamp_int(v: int, lo: int, hi: int) -> int {
    if v < lo {
        lo
    } else if v > hi {
        hi
    } else {
        v
    }
}

/// `after` holds the windows of `before`, in the same order and with the
/// same identifiers and surfaces, each now `h` pixels high.
pub open spec fn resized<T>(before: Seq<Window<T>>, after: Seq<Window<T>>, h: u32) -> bool {
    &&& after.len() == before.len()
    &&& forall|k: int|
        0 <= k < before.len() ==> #[trigger] after[k].id == before[k].id && after[k].toplevel
            == before[k].toplevel && after[k].height == h
}

/// What a reorder request did to a column.
#[derive(Clone, Copy, Debug, PartialEq, Eq, Structural)]
pub enum ReorderOutcome {
    /// No window has focus: nothing changed.
    NoFocus,
    /// The focused window is already at the end it was pushed towards.
    Stayed,
    /// The focused window moved, together with the focus, to `index`.
    Moved { index: usize },
}

/// `after` is `before` after moving the focus `direction` places: an empty
/// column, or one where the clamped target equals the current focus, is left
/// alone and yields `None`; otherwise the focus moves to the clamped target,
/// which is returned. The windows never change.
pub open spec fn focus_moved<T>(
    before: Column<T>,
    after: Column<T>,
    direction: i32,
    r: Option<usize>,
) -> bool {
    &&& after.windows@ == before.windows@
    &&& if before.windows.len() == 0 || before.next_focus(direction) == before.current_focus() {
        r == None::<usize> && after.focused_idx == before.focused_idx
    } else {
        r == Some(before.next_focus(direction) as usize) && after.focused_idx == r
    }
}

/// `after` is `before` after a reorder request in `direction`: with no focus
/// nothing changes; a focused window that is not at the end it is pushed
/// towards swaps places with its neighbour and keeps the focus; otherwise
/// nothing changes.
pub open spec fn reordered<T>(
    before: Column<T>,
    after: Column<T>,
    direction: i8,
    r: ReorderOutcome,
) -> bool {
    match before.focused_idx {
        None => r == ReorderOutcome::NoFocus && after == before,
        Some(i) => if direction > 0 && i + 1 < before.windows.len() {
            &&& r == (ReorderOutcome::Moved { index: (i + 1) as usize })
            &&& after.windows@ == swapped(before.windows@, i as int, i + 1)
            &&& after.focused_idx == Some((i + 1) as usize)
        } else if direction < 0 && i > 0 {
            &&& r == (ReorderOutcome::Moved { index: (i - 1) as usize })
            &&& after.windows@ == swapped(before.windows@, i as int, i - 1)
            &&& after.focused_idx == Some((i - 1) as usize)
        } else {
            r == ReorderOutcome::Stayed && after == before
        },
    }
}

/// `after` is `before` once it takes the keyboard focus: an empty column is
/// left alone and yields `None`; otherwise the current focus (the first window
/// when there is none), pulled back to the last window, is focused and returned.
pub open spec fn focus_taken<T>(before: Column<T>, after: Column<T>, r: Option<usize>) -> bool {
    &&& after.windows@ == before.windows@
    &&& if before.windows.len() == 0 {
        r == None::<usize> && after.focused_idx == before.focused_idx
    } else {
        let idx = if before.current_focus() < before.windows.len() - 1 {
            before.current_focus()
        } else {
            before.windows.len() - 1
        };
        r == Some(idx as usize) && after.focused_idx == r
    }
}

/// A vertical strip of windows and the index of its focused window.
pub struct Column<T> {
    pub windows: Vec<Window<T>>,
    pub focused_idx: Option<usize>,
}

impl<T> Column<T> {
    /// The focus, when there is one, names a window of the column.
    pub open spec fn wf(&self) -> bool {
        self.focused_idx matches Some(i) ==> i < self.windows.len()
    }

    /// Height of the slots used to place windows: that of the first window,
    /// or the configured height while the column is empty.
    pub open spec fn slot_height(&self, config: Config) -> u32 {
        if self.windows.len() > 0 {
            self.windows@[0].height
        } else {
            config.window_height
        }
    }

    /// The focused index, counting no focus as the first window.
    pub open spec fn current_focus(&self) -> int {
        match self.focused_idx {
            Some(i) => i as int,
            None => 0,
        }
    }

    /// The index that `focus_next` moves to from the current focus.
    pub open spec fn next_focus(&self, direction: i32) -> int {
        clamp_int(self.current_focus() + direction, 0, self.windows.len() - 1)
    }

    /// An empty column, scrolled to the top.
    pub fn new() -> (c: Column<T>)
        ensures
            c.windows@ == Seq::<Window<T>>::empty(),
            c.focused_idx == None::<usize>,
    {
        Column { windows: Vec::new(), focused_idx: None }
    }

    /// Height of the column's content: all windows plus a gap above, between
    /// and below them; zero for an empty column.
    pub fn total_content_height(&self, config: &Config) -> (h: u128)
        ensures
            h == content_height(window_heights(self.windows@), config.gaps),
            h < 0x2_0000_0000_0000_0000_0000_0000,
    {
        if self.windows.is_empty() {
            return 0;
        }
        let n = self.windows.len();
        let ghost hs = window_heights(self.windows@);
        let mut total: u128 = 0;
        let mut i: usize = 0;
        while i < n
            invariant
                0 <= i <= n,
                n == self.windows.len(),
                hs == window_heights(self.windows@),
                total == sum_heights(hs.take(i as int)),
                total <= i * 0xffff_ffff,
            decreases n - i,
        {
            proof {
                assert(hs.take(i + 1).drop_last() =~= hs.take(i as int));
            }
            total = total + self.windows[i].height as u128;
            i += 1;
        }
        proof {
            assert(hs.take(n as int) =~= hs);
        }
        let g: u128 = config.gaps as u128;
        let slots: u128 = n as u128 + 1;
        assert(slots * g <= 0x1_0000_0000_0000_0000 * 0xffff_ffff) by (nonlinear_arith)
            requires
                slots <= 0x1_0000_0000_0000_0000,
                g <= 0xffff_ffff,
        ;
        assert(total <= 0x1_0000_0000_0000_0000 * 0xffff_ffff) by (nonlinear_arith)
            requires
                total <= n * 0xffff_ffff,
                n <= 0x1_0000_0000_0000_0000,
        ;
        total + slots * g
    }

    /// How far the column can scroll in a viewport `viewport_height` high.
    pub fn max_scroll(&self, config: &Config, viewport_height: i32) -> (m: u128)
        ensures
            m == scroll_limit(
                content_height(window_heights(self.windows@), config.gaps),
                viewport_height as int,
            ),
    {
        let content = self.total_content_height(config);
        if viewport_height < 0 {
            let below: u128 = (0i64 - viewport_height as i64) as u128;
            content + below
        } else if content > viewport_height as u128 {
            content - viewport_height as u128
        } else {
            0
        }
    }

    /// Top edge, in content coordinates, of slot `index` of the column. Every
    /// slot has the height of the first window.
    pub fn slot_top(&self, index: usize, config: &Config) -> (y: u128)
        ensures
            y == slot_top(index as nat, self.slot_height(*config) as nat, config.gaps as nat),
    {
        let h = if self.windows.len() > 0 {
            self.windows[0].height
        } else {
            config.window_height
        };
        window_slot_top(index, h, config.gaps)
    }

    /// Moves the focus `direction` windows down (up when negative), stopping at
    /// the ends. Returns the newly focused index, or `None` when the column is
    /// empty or the focus would not move.
    pub fn focus_next(&mut self, direction: i32) -> (r: Option<usize>)
        requires
            old(self).wf(),
            old(self).windows.len() <= i32::MAX,
            i32::MIN <= old(self).current_focus() + direction <= i32::MAX,
        ensures
            final(self).wf(),
            focus_moved(*old(self), *final(self), direction, r),
    {
        let n = self.windows.len();
        if n == 0 {
            return None;
        }
        let current: i32 = match self.focused_idx {
            Some(i) => i as i32,
            None => 0,
        };
        let target: i32 = current + direction;
        let last: i32 = n as i32 - 1;
        let new: i32 = if target < 0 {
            0
        } else if target > last {
            last
        } else {
            target
        };
        if new == current {
            return None;
        }
        self.focused_idx = Some(new as usize);
        Some(new as usize)
    }

    /// Moves the focused window one place down the column (`direction > 0`) or
    /// up (`direction < 0`), carrying the focus with it.
    pub fn reorder(&mut self, direction: i8) -> (r: ReorderOutcome)
        requires
            old(self).wf(),
        ensures
            final(self).wf(),
            reordered(*old(self), *final(self), direction, r),
    {
        let idx = match self.focused_idx {
            Some(i) => i,
            None => return ReorderOutcome::NoFocus,
        };
        let n = self.windows.len();
        if direction > 0 && idx < n - 1 {
            let ghost before = self.windows@;
            let w = self.windows.remove(idx);
            self.windows.insert(idx + 1, w);
            assert(self.windows@ =~= swapped(before, idx as int, idx + 1));
            self.focused_idx = Some(idx + 1);
            ReorderOutcome::Moved { index: idx + 1 }
        } else if direction < 0 && idx > 0 {
            let ghost before = self.windows@;
            let w = self.windows.remove(idx);
            self.windows.insert(idx - 1, w);
            assert(self.windows@ =~= swapped(before, idx as int, idx - 1));
            self.focused_idx = Some(idx - 1);
            ReorderOutcome::Moved { index: idx - 1 }
        } else {
            ReorderOutcome::Stayed
        }
    }

    /// Index of the first window with identifier `id`, if any.
    pub fn position_of(&self, id: usize) -> (r: Option<usize>)
        ensures
            r matches Some(i) ==> i < self.windows.len() && self.windows@[i as int].id == id
                && forall|k: int| 0 <= k < i ==> #[trigger] self.windows@[k].id != id,
            r is None ==> forall|k: int|
                0 <= k < self.windows.len() ==> #[trigger] self.windows@[k].id != id,
    {
        let n = self.windows.len();
        let mut i: usize = 0;
        while i < n
            invariant
                0 <= i <= n,
                n == self.windows.len(),
                forall|k: int| 0 <= k < i ==> #[trigger] self.windows@[k].id != id,
            decreases n - i,
        {
            if self.windows[i].id == id {
                return Some(i);
            }
            i += 1;
        }
        None
    }

    /// Gives every window of the column the height `h`.
    pub fn set_heights(&mut self, h: u32)
        ensures
            resized(old(self).windows@, final(self).windows@, h),
            final(self).focused_idx == old(self).focused_idx,
    {
        let n = self.windows.len();
        let ghost before = self.windows@;
        let mut i: usize = 0;
        while i < n
            invariant
                0 <= i <= n,
                n == before.len(),
                self.focused_idx == old(self).focused_idx,
                before == old(self).windows@,
                self.windows@.len() == n,
                forall|k: int|
                    0 <= k < n ==> #[trigger] self.windows@[k].id == before[k].id
                        && self.windows@[k].toplevel == before[k].toplevel,
                forall|k: int| 0 <= k < i ==> #[trigger] self.windows@[k].height == h,
                forall|k: int| i <= k < n ==> #[trigger] self.windows@[k] == before[k],
            decreases n - i,
        {
            self.windows[i].height = h;
            i += 1;
        }
    }

    /// Gives the column keyboard focus: keeps the current focus (or the first
    /// window), pulled back into range. Returns the focused index, or `None`
    /// when the column is empty.
    pub fn take_focus(&mut self) -> (r: Option<usize>)
        ensures
            old(self).wf() ==> final(self).wf(),
            focus_taken(*old(self), *final(self), r),
            forall|i: usize|
                old(self).focused_idx == Some(i) && i < old(self).windows.len() ==> r == Some(i)
                    && final(self).focused_idx == Some(i),
            old(self).windows.len() > 0 && old(self).focused_idx is None ==> r == Some(0usize)
                && final(self).focused_idx == Some(0usize),
    {
        let n = self.windows.len();
        if n == 0 {
            return None;
        }
        let want = match self.focused_idx {
            Some(i) => i,
            None => 0,
        };
        let idx = if want < n - 1 {
            want
        } else {
            n - 1
        };
        self.focused_idx = Some(idx);
        Some(idx)
    }
}

/// A workspace: a left and a right column, and which of them is active
/// (`true` for the left one).
pub struct Workspace<T> {
    pub id: u8,
    pub left_column: Column<T>,
    pub right_column: Column<T>,
    pub active_column: bool,
}

impl<T> Workspace<T> {
    /// Both columns are well formed.
    pub open spec fn wf(&self) -> bool {
        self.left_column.wf() && self.right_column.wf()
    }

    /// The left column when `left`, else the right one.
    pub open spec fn spec_column(&self, left: bool) -> Column<T> {
        if left {
            self.left_column
        } else {
            self.right_column
        }
    }

    /// An empty workspace whose left column is active.
    pub fn new(id: u8) -> (ws: Workspace<T>)
        ensures
            ws.id == id,
            ws.left_column.windows@ == Seq::<Window<T>>::empty(),
            ws.left_column.focused_idx == None::<usize>,
            ws.right_column.windows@ == Seq::<Window<T>>::empty(),
            ws.right_column.focused_idx == None::<usize>,
            ws.active_column,
            ws.wf(),
    {
        Workspace { id, left_column: Column::new(), right_column: Column::new(), active_column: true }
    }

    /// The left column when `left`, else the right one.
    pub fn column(&self, left: bool) -> (c: &Column<T>)
        ensures
            *c == self.spec_column(left),
    {
        if left {
            &self.left_column
        } else {
            &self.right_column
        }
    }

    /// Mutable access to the left column when `left`, else to the right one;
    /// the rest of the workspace is left as it is.
    pub fn column_mut(&mut self, left: bool) -> (c: &mut Column<T>)
        ensures
            *c == old(self).spec_column(left),
            final(self).id == old(self).id,
            final(self).active_column == old(self).active_column,
            left ==> final(self).left_column == *final(c) && final(self).right_column == old(
                self,
            ).right_column,
            !left ==> final(self).right_column == *final(c) && final(self).left_column == old(
                self,
            ).left_column,
    {
        if left {
            &mut self.left_column
        } else {
            &mut self.right_column
        }
    }
}

} // verus!
