use vstd::prelude::*;

use crate::config::Config;
use crate::geometry::{fitted_height, fitted_window_height, heights_fit, heights_fit_in};
use crate::layout::{
    swapped, focus_moved, focus_taken, next_after, reordered, resized, Column, ReorderOutcome, Window,
    WindowIds, Workspace,
};

verus! {

/// Number of workspaces the compositor keeps.
pub const WORKSPACE_COUNT: u8 = 5;

/// A column whose windows were refitted to height `h`: an empty column stays
/// as it was; otherwise every window gets height `h` and nothing else changes.
pub open spec fn refitted<T>(before: Column<T>, after: Column<T>, h: nat) -> bool {
    if before.windows.len() == 0 {
        after == before
    } else {
        &&& resized(before.windows@, after.windows@, h as u32)
        &&& after.focused_idx == before.focused_idx
    }
}

/// `after` is `before` with the windows of each non-empty column refitted to
/// the height that `config` gives in a viewport `viewport_height` high.
pub open spec fn reconfigured<T>(
    before: Workspace<T>,
    after: Workspace<T>,
    config: Config,
    viewport_height: u32,
) -> bool {
    let h = fitted_height(viewport_height, config.gaps, config.visible_windows);
    &&& after.id == before.id
    &&& after.active_column == before.active_column
    &&& refitted(before.left_column, after.left_column, h)
    &&& refitted(before.right_column, after.right_column, h)
}

/// Refitting the windows of `ws` is defined: either it has no window, or the
/// configured number of windows and gaps fits the viewport height.
pub open spec fn layout_fits<T>(ws: Workspace<T>, config: Config, viewport_height: u32) -> bool {
    (ws.left_column.windows.len() > 0 || ws.right_column.windows.len() > 0) ==> heights_fit(
        viewport_height,
        config.gaps,
        config.visible_windows,
    )
}

/// `ws` with the column on the `left` (or right) side active and its window
/// `index` focused.
pub open spec fn focused_at<T>(ws: Workspace<T>, left: bool, index: usize) -> Workspace<T> {
    if left {
        Workspace {
            active_column: true,
            left_column: Column { focused_idx: Some(index), ..ws.left_column },
            ..ws
        }
    } else {
        Workspace {
            active_column: false,
            right_column: Column { focused_idx: Some(index), ..ws.right_column },
            ..ws
        }
    }
}

/// Whether `(w1, left1, i1)` is visited before `(w2, left2, i2)` when windows are
/// searched workspace by workspace, left column before right, top to bottom.
pub open spec fn searched_before(w1: int, left1: bool, i1: int, w2: int, left2: bool, i2: int) -> bool {
    ||| w1 < w2
    ||| w1 == w2 && left1 && !left2
    ||| w1 == w2 && left1 == left2 && i1 < i2
}

/// The two columns of `ws` differ in length by at most one window.
pub open spec fn balanced<T>(ws: Workspace<T>) -> bool {
    let l = ws.left_column.windows.len() as int;
    let r = ws.right_column.windows.len() as int;
    -1 <= l - r <= 1
}

/// An event of the host window the compositor runs in, with what the layout
/// reads of it.
#[derive(Clone, Copy, Debug, PartialEq, Eq, Structural)]
pub enum BackendEvent {
    /// The user asked to close the compositor.
    CloseRequested,
    /// The output was resized to `width` x `height` pixels.
    Resized { width: u32, height: u32 },
    /// The host asked for a redraw.
    Redraw,
    /// The host window gained or lost focus.
    Focus,
    /// An input event arrived; it is handled separately.
    Input,
}

/// What the caller must do after the layout handled a backend event.
#[derive(Clone, Copy, Debug, PartialEq, Eq, Structural)]
pub enum EventAction {
    /// Shut the compositor down.
    Exit,
    /// Send every window of the active workspace its new size.
    Configure,
    /// Pass the input event on to the input handler.
    HandleInput,
    /// Nothing further.
    Nothing,
}

/// The logical state of the compositor: its workspaces, the settings, the
/// size of the output, pending redraw flags, modifier keys and the source of
/// window identifiers.
pub struct TendrilState<T> {
    pub workspaces: Vec<Workspace<T>>,
    pub active_workspace: usize,
    pub config: Config,
    pub viewport_size: (u32, u32),
    pub needs_redraw: bool,
    pub damage_full: bool,
    pub mod_pressed: bool,
    pub shift_pressed: bool,
    pub window_ids: WindowIds,
}

impl<T> TendrilState<T> {
    /// The active workspace exists and every column's focus is in range.
    pub open spec fn wf(&self) -> bool {
        &&& self.active_workspace < self.workspaces.len()
        &&& forall|w: int| 0 <= w < self.workspaces.len() ==> #[trigger] self.workspaces@[w].wf()
    }

    /// The active workspace.
    pub open spec fn spec_workspace(&self) -> Workspace<T> {
        self.workspaces@[self.active_workspace as int]
    }

    /// The active column of the active workspace.
    pub open spec fn spec_active_column(&self) -> Column<T> {
        self.spec_workspace().spec_column(self.spec_workspace().active_column)
    }

    /// Every field but the workspaces is the same in `self` and `other`.
    pub open spec fn same_settings(&self, other: &Self) -> bool {
        &&& self.active_workspace == other.active_workspace
        &&& self.config == other.config
        &&& self.viewport_size == other.viewport_size
        &&& self.needs_redraw == other.needs_redraw
        &&& self.damage_full == other.damage_full
        &&& self.mod_pressed == other.mod_pressed
        &&& self.shift_pressed == other.shift_pressed
        &&& self.window_ids == other.window_ids
    }

    /// Refitting the active workspace is defined in the current state.
    pub open spec fn can_reconfigure(&self) -> bool {
        layout_fits(self.spec_workspace(), self.config, self.viewport_size.1)
    }

    /// The start-up state: five empty workspaces numbered from 0, the first
    /// active, the default settings, an output of `viewport_size`, a full
    /// redraw pending and no modifier held.
    pub fn new(viewport_size: (u32, u32)) -> (s: TendrilState<T>)
        ensures
            s.wf(),
            s.workspaces.len() == WORKSPACE_COUNT,
            forall|w: int|
                0 <= w < WORKSPACE_COUNT ==> {
                    let ws = #[trigger] s.workspaces@[w];
                    &&& ws.id == w
                    &&& ws.left_column.windows.len() == 0
                    &&& ws.right_column.windows.len() == 0
                    &&& ws.left_column.focused_idx == None::<usize>
                    &&& ws.right_column.focused_idx == None::<usize>
                    &&& ws.active_column
                },
            s.active_workspace == 0,
            s.config == Config::spec_default(),
            s.viewport_size == viewport_size,
            !s.needs_redraw,
            s.damage_full,
            !s.mod_pressed,
            !s.shift_pressed,
            s.window_ids.next_id() == 0,
            s.ids_fresh(),
    {
        let mut workspaces: Vec<Workspace<T>> = Vec::new();
        let mut i: u8 = 0;
        while i < WORKSPACE_COUNT
            invariant
                i <= WORKSPACE_COUNT,
                workspaces.len() == i,
                forall|w: int|
                    0 <= w < i ==> {
                        let ws = #[trigger] workspaces@[w];
                        &&& ws.id == w
                        &&& ws.left_column.windows.len() == 0
                        &&& ws.right_column.windows.len() == 0
                        &&& ws.left_column.focused_idx == None::<usize>
                        &&& ws.right_column.focused_idx == None::<usize>
                        &&& ws.active_column
                    },
            decreases WORKSPACE_COUNT - i,
        {
            workspaces.push(Workspace::new(i));
            i += 1;
        }
        TendrilState {
            workspaces,
            active_workspace: 0,
            config: Config::default(),
            viewport_size,
            needs_redraw: false,
            damage_full: true,
            mod_pressed: false,
            shift_pressed: false,
            window_ids: WindowIds::new(),
        }
    }

    /// The active workspace.
    pub fn workspace(&self) -> (ws: &Workspace<T>)
        requires
            self.wf(),
        ensures
            *ws == self.spec_workspace(),
    {
        &self.workspaces[self.active_workspace]
    }

    /// Mutable access to the active workspace; nothing else changes.
    pub fn workspace_mut(&mut self) -> (ws: &mut Workspace<T>)
        requires
            old(self).wf(),
        ensures
            *ws == old(self).spec_workspace(),
            final(self).workspaces@ == old(self).workspaces@.update(
                old(self).active_workspace as int,
                *final(ws),
            ),
            final(self).same_settings(old(self)),
    {
        &mut self.workspaces[self.active_workspace]
    }

    /// The active column of the active workspace.
    pub fn active_column(&self) -> (c: &Column<T>)
        requires
            self.wf(),
        ensures
            *c == self.spec_active_column(),
    {
        let ws = self.workspace();
        if ws.active_column {
            &ws.left_column
        } else {
            &ws.right_column
        }
    }

    /// Mutable access to the active column of the active workspace; nothing
    /// else changes.
    pub fn active_column_mut(&mut self) -> (c: &mut Column<T>)
        requires
            old(self).wf(),
        ensures
            *c == old(self).spec_active_column(),
            final(self).workspaces@.len() == old(self).workspaces@.len(),
            forall|w: int|
                0 <= w < old(self).workspaces@.len() && w != old(self).active_workspace
                    ==> #[trigger] final(self).workspaces@[w] == old(self).workspaces@[w],
            ({
                let before = old(self).spec_workspace();
                let after = final(self).spec_workspace();
                &&& after.id == before.id
                &&& after.active_column == before.active_column
                &&& after.spec_column(before.active_column) == *final(c)
                &&& after.spec_column(!before.active_column) == before.spec_column(
                    !before.active_column,
                )
            }),
            final(self).same_settings(old(self)),
    {
        let ws = self.workspace_mut();
        let left = ws.active_column;
        ws.column_mut(left)
    }

    /// Makes workspace `id` active when it exists and schedules a full redraw;
    /// returns whether it exists. Otherwise nothing changes.
    pub fn switch_workspace(&mut self, id: usize) -> (r: bool)
        ensures
            r == (id < old(self).workspaces.len()),
            r ==> {
                &&& final(self).active_workspace == id
                &&& final(self).needs_redraw
                &&& final(self).damage_full
                &&& final(self).workspaces == old(self).workspaces
                &&& final(self).config == old(self).config
                &&& final(self).viewport_size == old(self).viewport_size
                &&& final(self).mod_pressed == old(self).mod_pressed
                &&& final(self).shift_pressed == old(self).shift_pressed
                &&& final(self).window_ids == old(self).window_ids
            },
            !r ==> *final(self) == *old(self),
            old(self).ids_fresh() ==> final(self).ids_fresh(),
    {
        if id < self.workspaces.len() {
            self.active_workspace = id;
            self.needs_redraw = true;
            self.damage_full = true;
            proof {
                if old(self).ids_fresh() {
                    assert(self.same_window_ids(old(self)));
                    self.lemma_same_ids_keep_fresh(old(self));
                }
            }
            true
        } else {
            false
        }
    }

    /// Gives every window of each non-empty column of the active workspace the
    /// height at which `visible_windows` of them fill the viewport height.
    pub fn reconfigure_windows(&mut self)
        requires
            old(self).wf(),
            old(self).can_reconfigure(),
        ensures
            final(self).wf(),
            final(self).same_settings(old(self)),
            final(self).workspaces@.len() == old(self).workspaces@.len(),
            forall|w: int|
                0 <= w < old(self).workspaces@.len() && w != old(self).active_workspace
                    ==> #[trigger] final(self).workspaces@[w] == old(self).workspaces@[w],
            reconfigured(
                old(self).spec_workspace(),
                final(self).spec_workspace(),
                old(self).config,
                old(self).viewport_size.1,
            ),
            old(self).ids_fresh() ==> final(self).ids_fresh(),
    {
        let vp_h = self.viewport_size.1;
        let gaps = self.config.gaps;
        let visible = self.config.visible_windows;
        let a = self.active_workspace;
        if self.workspaces[a].left_column.windows.len() > 0 {
            let h = fitted_window_height(vp_h, gaps, visible);
            self.workspaces[a].left_column.set_heights(h);
        }
        if self.workspaces[a].right_column.windows.len() > 0 {
            let h = fitted_window_height(vp_h, gaps, visible);
            self.workspaces[a].right_column.set_heights(h);
        }
        proof {
            assert forall|w: int| 0 <= w < self.workspaces@.len() implies #[trigger] self.workspaces@[w].wf() by {
                if w != a {
                    assert(old(self).workspaces@[w].wf());
                } else {
                    assert(old(self).workspaces@[w].wf());
                }
            }
            if old(self).ids_fresh() {
                assert forall|l: bool|
                    #![trigger self.spec_workspace().spec_column(l)]
                    self.spec_workspace().spec_column(l).windows@.len() == old(
                        self,
                    ).spec_workspace().spec_column(l).windows@.len() by {
                    if l {
                    } else {
                    }
                }
                assert forall|l: bool, i: int|
                    #![trigger self.spec_workspace().spec_column(l).windows@[i]]
                    0 <= i < old(self).spec_workspace().spec_column(l).windows@.len() implies self.spec_workspace().spec_column(
                        l,
                    ).windows@[i].id == old(self).spec_workspace().spec_column(l).windows@[i].id by {
                    if l {
                    } else {
                    }
                }
                self.lemma_active_ids_kept(old(self));
            }
        }
    }

    /// Window `i` of the `left` (or right) column of workspace `w` has
    /// identifier `id`.
    pub open spec fn holds_id(&self, w: int, left: bool, i: int, id: usize) -> bool {
        &&& 0 <= w < self.workspaces.len()
        &&& 0 <= i < self.workspaces@[w].spec_column(left).windows.len()
        &&& self.workspaces@[w].spec_column(left).windows@[i].id == id
    }

    /// Some window of some workspace has identifier `id`.
    pub open spec fn has_window(&self, id: usize) -> bool {
        exists|w: int, left: bool, i: int| self.holds_id(w, left, i, id)
    }

    /// Window identifiers are fresh: each is below the next identifier to be
    /// handed out, and no two windows share one.
    pub open spec fn ids_fresh(&self) -> bool {
        &&& forall|w: int, left: bool, i: int, id: usize|
            #[trigger] self.holds_id(w, left, i, id) ==> id < self.window_ids.next_id()
        &&& forall|w1: int, left1: bool, i1: int, w2: int, left2: bool, i2: int, id: usize|
            #[trigger] self.holds_id(w1, left1, i1, id) && #[trigger] self.holds_id(
                w2,
                left2,
                i2,
                id,
            ) ==> w1 == w2 && left1 == left2 && i1 == i2
    }

    /// `self` and `other` hold windows with the same identifiers at the same
    /// places.
    pub open spec fn same_window_ids(&self, other: &Self) -> bool {
        &&& self.workspaces@.len() == other.workspaces@.len()
        &&& forall|w: int, left: bool, i: int, id: usize|
            #![trigger self.holds_id(w, left, i, id)]
            #![trigger other.holds_id(w, left, i, id)]
            self.holds_id(w, left, i, id) <==> other.holds_id(w, left, i, id)
    }

    /// Every field but the active workspace's entry and the redraw flags is the
    /// same in `self` and `old`.
    pub open spec fn others_kept(&self, old: &Self) -> bool {
        &&& self.workspaces@.len() == old.workspaces@.len()
        &&& self.active_workspace == old.active_workspace
        &&& forall|w: int|
            0 <= w < old.workspaces@.len() && w != old.active_workspace
                ==> #[trigger] self.workspaces@[w] == old.workspaces@[w]
        &&& self.config == old.config
        &&& self.viewport_size == old.viewport_size
        &&& self.window_ids == old.window_ids
        &&& self.mod_pressed == old.mod_pressed
        &&& self.shift_pressed == old.shift_pressed
    }

    /// `self` is `old` after activating the `left` (or right) column of the
    /// active workspace and giving it the keyboard focus, which returned `r`;
    /// a redraw is scheduled when a window got the focus.
    pub open spec fn column_focused(&self, old: &Self, left: bool, r: Option<usize>) -> bool {
        let before = old.spec_workspace();
        let after = self.spec_workspace();
        &&& self.others_kept(old)
        &&& self.damage_full == old.damage_full
        &&& self.needs_redraw == (old.needs_redraw || r is Some)
        &&& after.id == before.id
        &&& after.active_column == left
        &&& focus_taken(before.spec_column(left), after.spec_column(left), r)
        &&& after.spec_column(!left) == before.spec_column(!left)
    }

    /// `self` is `old` after moving the focus of the active column `direction`
    /// places, which returned `r`; a redraw is scheduled when the focus moved.
    pub open spec fn focus_stepped(&self, old: &Self, direction: i32, r: Option<usize>) -> bool {
        let before = old.spec_workspace();
        let after = self.spec_workspace();
        &&& self.others_kept(old)
        &&& self.damage_full == old.damage_full
        &&& self.needs_redraw == (old.needs_redraw || r is Some)
        &&& after.id == before.id
        &&& after.active_column == before.active_column
        &&& focus_moved(
            before.spec_column(before.active_column),
            after.spec_column(before.active_column),
            direction,
            r,
        )
        &&& after.spec_column(!before.active_column) == before.spec_column(!before.active_column)
    }

    /// `self` is `old` after a reorder request in `direction` on the active
    /// column, which returned `r`; a redraw is always scheduled.
    pub open spec fn window_reordered(&self, old: &Self, direction: i8, r: ReorderOutcome) -> bool {
        let before = old.spec_workspace();
        let after = self.spec_workspace();
        &&& self.others_kept(old)
        &&& self.damage_full == old.damage_full
        &&& self.needs_redraw
        &&& after.id == before.id
        &&& after.active_column == before.active_column
        &&& reordered(
            before.spec_column(before.active_column),
            after.spec_column(before.active_column),
            direction,
            r,
        )
        &&& after.spec_column(!before.active_column) == before.spec_column(!before.active_column)
    }

    /// Activates the `left` (or right) column of the active workspace and gives
    /// it the keyboard focus. Returns the focused window's index, or `None` when
    /// the column is empty.
    pub fn focus_column(&mut self, left: bool) -> (r: Option<usize>)
        requires
            old(self).wf(),
        ensures
            final(self).wf(),
            final(self).column_focused(old(self), left, r),
            old(self).ids_fresh() ==> final(self).ids_fresh(),
    {
        let a = self.active_workspace;
        self.workspaces[a].active_column = left;
        let r = if left {
            self.workspaces[a].left_column.take_focus()
        } else {
            self.workspaces[a].right_column.take_focus()
        };
        if r.is_some() {
            self.needs_redraw = true;
        }
        proof {
            assert forall|w: int| 0 <= w < self.workspaces@.len() implies #[trigger] self.workspaces@[w].wf() by {
                assert(old(self).workspaces@[w].wf());
            }
            if old(self).ids_fresh() {
                assert forall|l: bool|
                    #![trigger self.spec_workspace().spec_column(l)]
                    self.spec_workspace().spec_column(l).windows@.len() == old(
                        self,
                    ).spec_workspace().spec_column(l).windows@.len() by {
                    if l {
                    } else {
                    }
                }
                assert forall|l: bool, i: int|
                    #![trigger self.spec_workspace().spec_column(l).windows@[i]]
                    0 <= i < old(self).spec_workspace().spec_column(l).windows@.len() implies self.spec_workspace().spec_column(
                        l,
                    ).windows@[i].id == old(self).spec_workspace().spec_column(l).windows@[i].id by {
                    if l {
                    } else {
                    }
                }
                self.lemma_active_ids_kept(old(self));
            }
        }
        r
    }

    /// Moves the keyboard focus to the other column, the one after the active
    /// one in the cyclic order of the two columns.
    pub fn focus_next_column(&mut self) -> (r: Option<usize>)
        requires
            old(self).wf(),
        ensures
            final(self).wf(),
            final(self).column_focused(old(self), !old(self).spec_workspace().active_column, r),
            old(self).ids_fresh() ==> final(self).ids_fresh(),
    {
        let left = !self.workspaces[self.active_workspace].active_column;
        self.focus_column(left)
    }

    /// Moves the keyboard focus to the other column, the one before the active
    /// one in the cyclic order of the two columns.
    pub fn focus_prev_column(&mut self) -> (r: Option<usize>)
        requires
            old(self).wf(),
        ensures
            final(self).wf(),
            final(self).column_focused(old(self), !old(self).spec_workspace().active_column, r),
            old(self).ids_fresh() ==> final(self).ids_fresh(),
    {
        let left = !self.workspaces[self.active_workspace].active_column;
        self.focus_column(left)
    }

    /// Moves the focus of the active column `direction` windows down (up when
    /// negative), stopping at the ends. Returns the newly focused index, or
    /// `None` when nothing moved.
    pub fn focus_next(&mut self, direction: i32) -> (r: Option<usize>)
        requires
            old(self).wf(),
            old(self).spec_active_column().windows.len() <= i32::MAX,
            i32::MIN <= old(self).spec_active_column().current_focus() + direction <= i32::MAX,
        ensures
            final(self).wf(),
            final(self).focus_stepped(old(self), direction, r),
            old(self).ids_fresh() ==> final(self).ids_fresh(),
    {
        let a = self.active_workspace;
        assert(self.workspaces@[a as int].wf());
        let r = if self.workspaces[a].active_column {
            self.workspaces[a].left_column.focus_next(direction)
        } else {
            self.workspaces[a].right_column.focus_next(direction)
        };
        if r.is_some() {
            self.needs_redraw = true;
        }
        proof {
            assert forall|w: int| 0 <= w < self.workspaces@.len() implies #[trigger] self.workspaces@[w].wf() by {
                assert(old(self).workspaces@[w].wf());
            }
            if old(self).ids_fresh() {
                assert forall|l: bool|
                    #![trigger self.spec_workspace().spec_column(l)]
                    self.spec_workspace().spec_column(l).windows@.len() == old(
                        self,
                    ).spec_workspace().spec_column(l).windows@.len() by {
                    if l {
                    } else {
                    }
                }
                assert forall|l: bool, i: int|
                    #![trigger self.spec_workspace().spec_column(l).windows@[i]]
                    0 <= i < old(self).spec_workspace().spec_column(l).windows@.len() implies self.spec_workspace().spec_column(
                        l,
                    ).windows@[i].id == old(self).spec_workspace().spec_column(l).windows@[i].id by {
                    if l {
                    } else {
                    }
                }
                self.lemma_active_ids_kept(old(self));
            }
        }
        r
    }

    /// Moves the focused window of the active column one place down
    /// (`direction > 0`) or up (`direction < 0`) and schedules a redraw.
    pub fn keyboard_reorder(&mut self, direction: i8) -> (r: ReorderOutcome)
        requires
            old(self).wf(),
        ensures
            final(self).wf(),
            final(self).window_reordered(old(self), direction, r),
            old(self).ids_fresh() ==> final(self).ids_fresh(),
    {
        let a = self.active_workspace;
        assert(self.workspaces@[a as int].wf());
        let r = if self.workspaces[a].active_column {
            self.workspaces[a].left_column.reorder(direction)
        } else {
            self.workspaces[a].right_column.reorder(direction)
        };
        self.needs_redraw = true;
        proof {
            assert forall|w: int| 0 <= w < self.workspaces@.len() implies #[trigger] self.workspaces@[w].wf() by {
                assert(old(self).workspaces@[w].wf());
            }
            if old(self).ids_fresh() {
                let l = old(self).spec_workspace().active_column;
                let c0 = old(self).spec_workspace().spec_column(l);
                if r is Moved {
                    self.lemma_swap_keeps_fresh(
                        old(self),
                        c0.focused_idx.unwrap() as int,
                        r->index as int,
                    );
                } else {
                    assert(self.spec_workspace().spec_column(l) == c0);
                    assert forall|l2: bool|
                        #![trigger self.spec_workspace().spec_column(l2)]
                        self.spec_workspace().spec_column(l2).windows@.len() == old(
                            self,
                        ).spec_workspace().spec_column(l2).windows@.len() by {
                        if l2 == l {
                        } else {
                        }
                    }
                    assert forall|l2: bool, k: int|
                        #![trigger self.spec_workspace().spec_column(l2).windows@[k]]
                        0 <= k < old(self).spec_workspace().spec_column(l2).windows@.len() implies self.spec_workspace().spec_column(
                            l2,
                        ).windows@[k].id == old(self).spec_workspace().spec_column(l2).windows@[k].id by {
                        if l2 == l {
                        } else {
                        }
                    }
                    self.lemma_active_ids_kept(old(self));
                }
            }
        }
        r
    }

    /// Activates the `left` (or right) column of the active workspace and
    /// focuses its window `index`, as a pointer moving over that window does.
    pub fn focus_window_at(&mut self, left: bool, index: usize)
        requires
            old(self).wf(),
            index < old(self).spec_workspace().spec_column(left).windows.len(),
        ensures
            final(self).wf(),
            final(self).workspaces@ == old(self).workspaces@.update(
                old(self).active_workspace as int,
                focused_at(old(self).spec_workspace(), left, index),
            ),
            final(self).same_settings(old(self)),
            old(self).ids_fresh() ==> final(self).ids_fresh(),
    {
        let a = self.active_workspace;
        self.workspaces[a].active_column = left;
        if left {
            self.workspaces[a].left_column.focused_idx = Some(index);
        } else {
            self.workspaces[a].right_column.focused_idx = Some(index);
        }
        proof {
            assert(self.workspaces@[a as int] == focused_at(old(self).spec_workspace(), left, index));
            assert forall|w: int| 0 <= w < self.workspaces@.len() implies #[trigger] self.workspaces@[w].wf() by {
                assert(old(self).workspaces@[w].wf());
            }
            if old(self).ids_fresh() {
                assert forall|l: bool|
                    #![trigger self.spec_workspace().spec_column(l)]
                    self.spec_workspace().spec_column(l).windows@.len() == old(
                        self,
                    ).spec_workspace().spec_column(l).windows@.len() by {
                    if l {
                    } else {
                    }
                }
                assert forall|l: bool, i: int|
                    #![trigger self.spec_workspace().spec_column(l).windows@[i]]
                    0 <= i < old(self).spec_workspace().spec_column(l).windows@.len() implies self.spec_workspace().spec_column(
                        l,
                    ).windows@[i].id == old(self).spec_workspace().spec_column(l).windows@[i].id by {
                    if l {
                    } else {
                    }
                }
                self.lemma_active_ids_kept(old(self));
            }
        }
    }

    /// Finds the first window with identifier `id`, searching workspace by
    /// workspace, left column before right, top to bottom; makes its workspace
    /// and column active, focuses it and schedules a redraw. Returns whether a
    /// window was found; otherwise nothing changes.
    pub fn focus_window(&mut self, id: usize) -> (r: bool)
        requires
            old(self).wf(),
        ensures
            final(self).wf(),
            r == old(self).has_window(id),
            r ==> exists|w: int, left: bool, i: int|
                {
                    &&& #[trigger] old(self).holds_id(w, left, i, id)
                    &&& forall|w2: int, left2: bool, i2: int|
                        #[trigger] old(self).holds_id(w2, left2, i2, id) ==> !searched_before(
                            w2,
                            left2,
                            i2,
                            w,
                            left,
                            i,
                        )
                    &&& final(self).active_workspace == w
                    &&& final(self).workspaces@ == old(self).workspaces@.update(
                        w,
                        focused_at(old(self).workspaces@[w], left, i as usize),
                    )
                },
            r ==> final(self).wf() && (final(self).spec_active_column().focused_idx matches Some(i)
                && i < final(self).spec_active_column().windows.len()
                && final(self).spec_active_column().windows@[i as int].id == id),
            r ==> final(self).needs_redraw,
            r ==> final(self).damage_full == old(self).damage_full,
            r ==> final(self).config == old(self).config,
            r ==> final(self).viewport_size == old(self).viewport_size,
            r ==> final(self).window_ids == old(self).window_ids,
            r ==> final(self).mod_pressed == old(self).mod_pressed,
            r ==> final(self).shift_pressed == old(self).shift_pressed,
            !r ==> *final(self) == *old(self),
            old(self).ids_fresh() ==> final(self).ids_fresh(),
    {
        let n = self.workspaces.len();
        let mut w: usize = 0;
        while w < n
            invariant
                0 <= w <= n,
                n == self.workspaces.len(),
                *self == *old(self),
                self.wf(),
                forall|w2: int, left2: bool, i2: int|
                    0 <= w2 < w ==> !#[trigger] self.holds_id(w2, left2, i2, id),
            decreases n - w,
        {
            let found_left = self.workspaces[w].left_column.position_of(id);
            if let Some(i) = found_left {
                let ghost before = *self;
                proof {
                    assert(before.holds_id(w as int, true, i as int, id));
                    assert forall|w2: int, left2: bool, i2: int|
                        #[trigger] before.holds_id(w2, left2, i2, id) implies !searched_before(
                        w2,
                        left2,
                        i2,
                        w as int,
                        true,
                        i as int,
                    ) by {
                        if w2 == w && left2 {
                            assert(i2 >= i);
                        }
                    }
                }
                self.active_workspace = w;
                self.workspaces[w].active_column = true;
                self.workspaces[w].left_column.focused_idx = Some(i);
                self.needs_redraw = true;
                proof {
                    assert(self.workspaces@ =~= before.workspaces@.update(
                        w as int,
                        focused_at(before.workspaces@[w as int], true, i),
                    ));
                    if before.ids_fresh() {
                        assert forall|w2: int, l2: bool, k: int, id2: usize|
                            #![trigger self.holds_id(w2, l2, k, id2)]
                            #![trigger before.holds_id(w2, l2, k, id2)]
                            self.holds_id(w2, l2, k, id2) <==> before.holds_id(w2, l2, k, id2) by {
                            if w2 == w {
                                if l2 {
                                } else {
                                }
                            }
                        }
                        self.lemma_same_ids_keep_fresh(&before);
                    }
                    assert forall|k: int| 0 <= k < self.workspaces@.len() implies #[trigger] self.workspaces@[k].wf() by {
                        assert(before.workspaces@[k].wf());
                    }
                }
                return true;
            }
            let found_right = self.workspaces[w].right_column.position_of(id);
            if let Some(i) = found_right {
                let ghost before = *self;
                proof {
                    assert(before.holds_id(w as int, false, i as int, id));
                    assert forall|w2: int, left2: bool, i2: int|
                        #[trigger] before.holds_id(w2, left2, i2, id) implies !searched_before(
                        w2,
                        left2,
                        i2,
                        w as int,
                        false,
                        i as int,
                    ) by {
                        if w2 == w && left2 {
                            assert(!before.holds_id(w2, true, i2, id));
                        }
                        if w2 == w && !left2 {
                            assert(i2 >= i);
                        }
                    }
                }
                self.active_workspace = w;
                self.workspaces[w].active_column = false;
                self.workspaces[w].right_column.focused_idx = Some(i);
                self.needs_redraw = true;
                proof {
                    assert(self.workspaces@ =~= before.workspaces@.update(
                        w as int,
                        focused_at(before.workspaces@[w as int], false, i),
                    ));
                    if before.ids_fresh() {
                        assert forall|w2: int, l2: bool, k: int, id2: usize|
                            #![trigger self.holds_id(w2, l2, k, id2)]
                            #![trigger before.holds_id(w2, l2, k, id2)]
                            self.holds_id(w2, l2, k, id2) <==> before.holds_id(w2, l2, k, id2) by {
                            if w2 == w {
                                if l2 {
                                } else {
                                }
                            }
                        }
                        self.lemma_same_ids_keep_fresh(&before);
                    }
                    assert forall|k: int| 0 <= k < self.workspaces@.len() implies #[trigger] self.workspaces@[k].wf() by {
                        assert(before.workspaces@[k].wf());
                    }
                }
                return true;
            }
            proof {
                assert forall|w2: int, left2: bool, i2: int|
                    0 <= w2 < w + 1 implies !#[trigger] self.holds_id(w2, left2, i2, id) by {
                    if w2 == w {
                        if left2 {
                            assert(found_left is None);
                        } else {
                            assert(found_right is None);
                        }
                    }
                }
            }
            w += 1;
        }
        false
    }

    /// Whether refitting the active workspace under `config` in a viewport
    /// `viewport_height` high is defined (see `layout_fits`).
    pub fn layout_fits_for(&self, config: &Config, viewport_height: u32) -> (b: bool)
        requires
            self.wf(),
        ensures
            b == layout_fits(self.spec_workspace(), *config, viewport_height),
    {
        let ws = &self.workspaces[self.active_workspace];
        if ws.left_column.windows.len() > 0 || ws.right_column.windows.len() > 0 {
            heights_fit_in(viewport_height, config.gaps, config.visible_windows)
        } else {
            true
        }
    }

    /// Replaces the settings, refits the windows of the active workspace to
    /// them and schedules a full redraw.
    pub fn set_config(&mut self, config: Config)
        requires
            old(self).wf(),
            layout_fits(old(self).spec_workspace(), config, old(self).viewport_size.1),
        ensures
            final(self).wf(),
            final(self).config == config,
            final(self).needs_redraw,
            final(self).damage_full,
            final(self).active_workspace == old(self).active_workspace,
            final(self).viewport_size == old(self).viewport_size,
            final(self).window_ids == old(self).window_ids,
            final(self).mod_pressed == old(self).mod_pressed,
            final(self).shift_pressed == old(self).shift_pressed,
            final(self).workspaces@.len() == old(self).workspaces@.len(),
            forall|w: int|
                0 <= w < old(self).workspaces@.len() && w != old(self).active_workspace
                    ==> #[trigger] final(self).workspaces@[w] == old(self).workspaces@[w],
            reconfigured(
                old(self).spec_workspace(),
                final(self).spec_workspace(),
                config,
                old(self).viewport_size.1,
            ),
            old(self).ids_fresh() ==> final(self).ids_fresh(),
    {
        self.config = config;
        proof {
            if old(self).ids_fresh() {
                assert(self.same_window_ids(old(self)));
                self.lemma_same_ids_keep_fresh(old(self));
            }
        }
        self.reconfigure_windows();
        let ghost mid = *self;
        self.needs_redraw = true;
        self.damage_full = true;
        proof {
            if mid.ids_fresh() {
                assert(self.same_window_ids(&mid));
                self.lemma_same_ids_keep_fresh(&mid);
            }
        }
    }

    /// Takes a new toplevel: gives it a fresh identifier and the configured
    /// height, appends it to the column of the active workspace with fewer
    /// windows (the right one on a tie), refits the workspace's windows and
    /// schedules a full redraw.
    pub fn add_window(&mut self, toplevel: T)
        requires
            old(self).wf(),
            heights_fit(
                old(self).viewport_size.1,
                old(self).config.gaps,
                old(self).config.visible_windows,
            ),
        ensures
            final(self).wf(),
            final(self).active_workspace == old(self).active_workspace,
            final(self).config == old(self).config,
            final(self).viewport_size == old(self).viewport_size,
            final(self).mod_pressed == old(self).mod_pressed,
            final(self).shift_pressed == old(self).shift_pressed,
            final(self).needs_redraw,
            final(self).damage_full,
            final(self).window_ids.next_id() == next_after(old(self).window_ids.next_id()),
            old(self).ids_fresh() && old(self).window_ids.next_id() < usize::MAX
                ==> final(self).ids_fresh(),
            balanced(old(self).spec_workspace()) ==> balanced(final(self).spec_workspace()),
            final(self).workspaces@.len() == old(self).workspaces@.len(),
            forall|w: int|
                0 <= w < old(self).workspaces@.len() && w != old(self).active_workspace
                    ==> #[trigger] final(self).workspaces@[w] == old(self).workspaces@[w],
            ({
                let before = old(self).spec_workspace();
                let after = final(self).spec_workspace();
                let left = before.left_column.windows.len() < before.right_column.windows.len();
                let h = fitted_height(
                    old(self).viewport_size.1,
                    old(self).config.gaps,
                    old(self).config.visible_windows,
                );
                let added = Window {
                    id: old(self).window_ids.next_id(),
                    toplevel,
                    height: old(self).config.window_height,
                };
                &&& after.id == before.id
                &&& after.active_column == before.active_column
                &&& resized(
                    before.spec_column(left).windows@.push(added),
                    after.spec_column(left).windows@,
                    h as u32,
                )
                &&& after.spec_column(left).focused_idx == before.spec_column(left).focused_idx
                &&& refitted(before.spec_column(!left), after.spec_column(!left), h)
            }),
    {
        let height = self.config.window_height;
        let window = Window::new(&mut self.window_ids, toplevel, height);
        let a = self.active_workspace;
        let ghost before = self.workspaces@[a as int];
        assert(before.wf());
        let left = self.workspaces[a].left_column.windows.len()
            < self.workspaces[a].right_column.windows.len();
        if left {
            self.workspaces[a].left_column.windows.push(window);
        } else {
            self.workspaces[a].right_column.windows.push(window);
        }
        proof {
            assert forall|w: int| 0 <= w < self.workspaces@.len() implies #[trigger] self.workspaces@[w].wf() by {
                assert(old(self).workspaces@[w].wf());
            }
        }
        self.reconfigure_windows();
        self.needs_redraw = true;
        self.damage_full = true;
        proof {
            let ghost o = *old(self);
            let ghost len_before = before.spec_column(left).windows.len();
            assert forall|w: int, l: bool, i: int, id: usize| #[trigger]
                self.holds_id(w, l, i, id) implies o.holds_id(w, l, i, id) || (w == a && l == left
                && i == len_before && id == o.window_ids.next_id()) by {
                if w == a {
                    if l == left {
                        if i < len_before {
                            assert(o.holds_id(w, l, i, id));
                        }
                    } else {
                        assert(o.holds_id(w, l, i, id));
                    }
                } else {
                    assert(o.holds_id(w, l, i, id));
                }
            }
            if o.ids_fresh() && o.window_ids.next_id() < usize::MAX {
                assert forall|w1: int, left1: bool, i1: int, w2: int, left2: bool, i2: int, id: usize|
                    #[trigger] self.holds_id(w1, left1, i1, id) && #[trigger] self.holds_id(
                        w2,
                        left2,
                        i2,
                        id,
                    ) implies w1 == w2 && left1 == left2 && i1 == i2 by {
                    if o.holds_id(w1, left1, i1, id) && o.holds_id(w2, left2, i2, id) {
                    } else if o.holds_id(w1, left1, i1, id) {
                        assert(id < o.window_ids.next_id());
                    } else if o.holds_id(w2, left2, i2, id) {
                        assert(id < o.window_ids.next_id());
                    }
                }
                assert forall|w: int, l: bool, i: int, id: usize| #[trigger]
                    self.holds_id(w, l, i, id) implies id < self.window_ids.next_id() by {
                    if o.holds_id(w, l, i, id) {
                    }
                }
            }
        }
    }

    /// Applies a backend event: a resize records the new output size, refits
    /// the active workspace and schedules a full redraw; a redraw request
    /// schedules a full redraw; input is handed on; closing exits.
    pub fn handle_event(&mut self, event: BackendEvent) -> (r: EventAction)
        requires
            old(self).wf(),
            event matches BackendEvent::Resized { height, .. } ==> layout_fits(
                old(self).spec_workspace(),
                old(self).config,
                height,
            ),
        ensures
            final(self).wf(),
            match event {
                BackendEvent::CloseRequested => r == EventAction::Exit && *final(self) == *old(
                    self,
                ),
                BackendEvent::Resized { width, height } => {
                    &&& r == EventAction::Configure
                    &&& final(self).viewport_size == (width, height)
                    &&& final(self).needs_redraw
                    &&& final(self).damage_full
                    &&& final(self).active_workspace == old(self).active_workspace
                    &&& final(self).config == old(self).config
                    &&& final(self).window_ids == old(self).window_ids
                    &&& final(self).mod_pressed == old(self).mod_pressed
                    &&& final(self).shift_pressed == old(self).shift_pressed
                    &&& final(self).workspaces@.len() == old(self).workspaces@.len()
                    &&& forall|w: int|
                        0 <= w < old(self).workspaces@.len() && w != old(self).active_workspace
                            ==> #[trigger] final(self).workspaces@[w] == old(self).workspaces@[w]
                    &&& reconfigured(
                        old(self).spec_workspace(),
                        final(self).spec_workspace(),
                        old(self).config,
                        height,
                    )
                },
                BackendEvent::Redraw => {
                    &&& r == EventAction::Nothing
                    &&& final(self).needs_redraw
                    &&& final(self).damage_full
                    &&& final(self).workspaces == old(self).workspaces
                    &&& final(self).active_workspace == old(self).active_workspace
                    &&& final(self).config == old(self).config
                    &&& final(self).viewport_size == old(self).viewport_size
                    &&& final(self).window_ids == old(self).window_ids
                    &&& final(self).mod_pressed == old(self).mod_pressed
                    &&& final(self).shift_pressed == old(self).shift_pressed
                },
                BackendEvent::Focus => r == EventAction::Nothing && *final(self) == *old(self),
                BackendEvent::Input => r == EventAction::HandleInput && *final(self) == *old(self),
            },
            old(self).ids_fresh() ==> final(self).ids_fresh(),
    {
        match event {
            BackendEvent::CloseRequested => EventAction::Exit,
            BackendEvent::Resized { width, height } => {
                self.viewport_size = (width, height);
                proof {
                    if old(self).ids_fresh() {
                        assert(self.same_window_ids(old(self)));
                        self.lemma_same_ids_keep_fresh(old(self));
                    }
                }
                self.reconfigure_windows();
                let ghost mid = *self;
                self.needs_redraw = true;
                self.damage_full = true;
                proof {
                    if mid.ids_fresh() {
                        assert(self.same_window_ids(&mid));
                        self.lemma_same_ids_keep_fresh(&mid);
                    }
                }
                EventAction::Configure
            },
            BackendEvent::Redraw => {
                self.needs_redraw = true;
                self.damage_full = true;
                proof {
                    if old(self).ids_fresh() {
                        assert(self.same_window_ids(old(self)));
                        self.lemma_same_ids_keep_fresh(old(self));
                    }
                }
                EventAction::Nothing
            },
            BackendEvent::Focus => EventAction::Nothing,
            BackendEvent::Input => EventAction::HandleInput,
        }
    }

    /// Freshness of identifiers depends only on where the identifiers are and on
    /// the counter.
    pub proof fn lemma_same_ids_keep_fresh(&self, old: &Self)
        requires
            old.ids_fresh(),
            self.same_window_ids(old),
            self.window_ids == old.window_ids,
        ensures
            self.ids_fresh(),
    {
        assert forall|w1: int, left1: bool, i1: int, w2: int, left2: bool, i2: int, id: usize|
            #[trigger] self.holds_id(w1, left1, i1, id) && #[trigger] self.holds_id(
                w2,
                left2,
                i2,
                id,
            ) implies w1 == w2 && left1 == left2 && i1 == i2 by {
            assert(old.holds_id(w1, left1, i1, id));
            assert(old.holds_id(w2, left2, i2, id));
        }
        assert forall|w: int, l: bool, i: int, id: usize| #[trigger]
            self.holds_id(w, l, i, id) implies id < self.window_ids.next_id() by {
            assert(old.holds_id(w, l, i, id));
        }
    }

    /// When only the active workspace changed, and each of its columns kept
    /// its sequence of window identifiers, freshness of identifiers is kept.
    pub proof fn lemma_active_ids_kept(&self, old: &Self)
        requires
            old.wf(),
            old.ids_fresh(),
            self.window_ids == old.window_ids,
            self.workspaces@.len() == old.workspaces@.len(),
            self.active_workspace == old.active_workspace,
            forall|w: int|
                0 <= w < old.workspaces@.len() && w != old.active_workspace
                    ==> #[trigger] self.workspaces@[w] == old.workspaces@[w],
            forall|l: bool|
                #![trigger self.spec_workspace().spec_column(l)]
                self.spec_workspace().spec_column(l).windows@.len()
                    == old.spec_workspace().spec_column(l).windows@.len(),
            forall|l: bool, i: int|
                #![trigger self.spec_workspace().spec_column(l).windows@[i]]
                0 <= i < old.spec_workspace().spec_column(l).windows@.len()
                    ==> self.spec_workspace().spec_column(l).windows@[i].id
                    == old.spec_workspace().spec_column(l).windows@[i].id,
        ensures
            self.ids_fresh(),
            self.same_window_ids(old),
    {
        let a = old.active_workspace as int;
        assert forall|w: int, left: bool, i: int, id: usize|
            #![trigger self.holds_id(w, left, i, id)]
            #![trigger old.holds_id(w, left, i, id)]
            self.holds_id(w, left, i, id) <==> old.holds_id(w, left, i, id) by {
            if w == a {
                let _ = self.spec_workspace().spec_column(left);
                if 0 <= i < old.spec_workspace().spec_column(left).windows@.len() {
                    let _ = self.spec_workspace().spec_column(left).windows@[i];
                }
            }
        }
        self.lemma_same_ids_keep_fresh(old);
    }

    /// Exchanging two windows of the active column keeps identifiers fresh.
    pub proof fn lemma_swap_keeps_fresh(&self, old: &Self, i: int, j: int)
        requires
            old.wf(),
            old.ids_fresh(),
            self.window_ids == old.window_ids,
            self.workspaces@.len() == old.workspaces@.len(),
            self.active_workspace == old.active_workspace,
            forall|w: int|
                0 <= w < old.workspaces@.len() && w != old.active_workspace
                    ==> #[trigger] self.workspaces@[w] == old.workspaces@[w],
            ({
                let l = old.spec_workspace().active_column;
                &&& 0 <= i < old.spec_workspace().spec_column(l).windows@.len()
                &&& 0 <= j < old.spec_workspace().spec_column(l).windows@.len()
                &&& self.spec_workspace().spec_column(l).windows@ == swapped(
                    old.spec_workspace().spec_column(l).windows@,
                    i,
                    j,
                )
                &&& self.spec_workspace().spec_column(!l).windows@ == old.spec_workspace().spec_column(
                    !l,
                ).windows@
            }),
        ensures
            self.ids_fresh(),
    {
        let a = old.active_workspace as int;
        let l = old.spec_workspace().active_column;
        let perm = |w: int, left: bool, k: int|
            if w == a && left == l && k == i {
                j
            } else if w == a && left == l && k == j {
                i
            } else {
                k
            };
        assert forall|w: int, left: bool, k: int, id: usize| #[trigger]
            self.holds_id(w, left, k, id) implies old.holds_id(w, left, perm(w, left, k), id) by {
            if w == a {
                if left == l {
                } else {
                }
            }
        }
        assert forall|w1: int, left1: bool, i1: int, w2: int, left2: bool, i2: int, id: usize|
            #[trigger] self.holds_id(w1, left1, i1, id) && #[trigger] self.holds_id(
                w2,
                left2,
                i2,
                id,
            ) implies w1 == w2 && left1 == left2 && i1 == i2 by {
            assert(old.holds_id(w1, left1, perm(w1, left1, i1), id));
            assert(old.holds_id(w2, left2, perm(w2, left2, i2), id));
        }
        assert forall|w: int, left: bool, k: int, id: usize| #[trigger]
            self.holds_id(w, left, k, id) implies id < self.window_ids.next_id() by {
            assert(old.holds_id(w, left, perm(w, left, k), id));
        }
    }
}

} // verus!
