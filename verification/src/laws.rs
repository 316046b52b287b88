use vstd::prelude::*;

use crate::config::Config;
use crate::geometry::{content_height, fitted_height, slot_top, sum_heights};
use crate::layout::{next_after, reordered, swapped, Column, ReorderOutcome};
use crate::protocol::{spec_config_data, spec_to_config};
use crate::state::{reconfigured, TendrilState};
use crate::input::{
    spec_key_command, KeyAction, KeyCommand, KEY_DOWN, KEY_H, KEY_J, KEY_K, KEY_L, KEY_LEFT,
    KEY_LEFTMETA, KEY_LEFTSHIFT, KEY_RIGHT, KEY_RIGHTMETA, KEY_RIGHTSHIFT, KEY_UP,
};
use crate::protocol::ConfigData;
use crate::listing::{all_records, column_records, workspace_records};
use crate::layout::{focus_taken, focus_moved};
use crate::layout::Workspace;

verus! {

/// Window identifiers increase: the identifier handed out after `id` is larger
/// than `id`, unless the counter has reached the top of its range and wraps.
pub proof fn next_window_id_is_larger(id: usize)
    requires
        id < usize::MAX,
    ensures
        next_after(id) > id,
{
}

/// Appending a window of height `h` to a non-empty column adds `h` and one gap
/// to the content height; appending it to an empty column gives `h` and two gaps.
pub proof fn content_height_grows_by_window_and_gap(hs: Seq<u32>, h: u32, gaps: u32)
    ensures
        hs.len() > 0 ==> content_height(hs.push(h), gaps) == content_height(hs, gaps) + h + gaps,
        hs.len() == 0 ==> content_height(hs.push(h), gaps) == h + 2 * gaps,
{
    assert(hs.push(h).drop_last() =~= hs);
    if hs.len() == 0 {
        assert(sum_heights(hs) == 0);
    }
    assert((hs.len() + 2) * gaps == (hs.len() + 1) * gaps + gaps) by (nonlinear_arith);
}

/// Consecutive slots of a strip are one window height plus one gap apart, and
/// the first slot starts one gap below the top.
pub proof fn slots_are_evenly_spaced(index: nat, height: nat, gap: nat)
    ensures
        slot_top(0, height, gap) == gap,
        slot_top(index + 1, height, gap) == slot_top(index, height, gap) + height + gap,
{
    assert((index + 1) * (height + gap) == index * (height + gap) + height + gap)
        by (nonlinear_arith);
}

/// A reorder that moved the focused window is undone by a reorder in the
/// opposite direction: the column gets back its window order and its focus.
pub proof fn reorder_is_undone_by_opposite_reorder<T>(
    c0: Column<T>,
    c1: Column<T>,
    c2: Column<T>,
    direction: i8,
    r1: ReorderOutcome,
    r2: ReorderOutcome,
)
    requires
        c0.wf(),
        direction == 1 || direction == -1,
        reordered(c0, c1, direction, r1),
        r1 is Moved,
        reordered(c1, c2, -direction as i8, r2),
    ensures
        r2 is Moved,
        c2.windows@ == c0.windows@,
        c2.focused_idx == c0.focused_idx,
{
    let i = c0.focused_idx.unwrap() as int;
    if direction == 1 {
        assert(c2.windows@ =~= swapped(swapped(c0.windows@, i, i + 1), i + 1, i));
    } else {
        assert(c2.windows@ =~= swapped(swapped(c0.windows@, i, i - 1), i - 1, i));
    }
    assert(c2.windows@ =~= c0.windows@);
}

/// The focus follows the window it was on: after a reorder, the focused slot
/// holds the same window as before.
pub proof fn reorder_keeps_focused_window<T>(
    c0: Column<T>,
    c1: Column<T>,
    direction: i8,
    r: ReorderOutcome,
)
    requires
        c0.wf(),
        reordered(c0, c1, direction, r),
        c0.focused_idx is Some,
    ensures
        c1.focused_idx is Some,
        c1.windows@[c1.focused_idx.unwrap() as int] == c0.windows@[c0.focused_idx.unwrap() as int],
        c1.windows@.len() == c0.windows@.len(),
{
}

/// Moving the keyboard focus to the other column twice brings it back to the
/// column it started in.
pub proof fn switching_column_twice_returns<T>(
    s0: TendrilState<T>,
    s1: TendrilState<T>,
    s2: TendrilState<T>,
    r1: Option<usize>,
    r2: Option<usize>,
)
    requires
        s1.column_focused(&s0, !s0.spec_workspace().active_column, r1),
        s2.column_focused(&s1, !s1.spec_workspace().active_column, r2),
    ensures
        s2.active_workspace == s0.active_workspace,
        s2.spec_workspace().active_column == s0.spec_workspace().active_column,
        s2.spec_workspace().id == s0.spec_workspace().id,
{
}

/// The protocol form of the settings carries them unchanged: turning settings
/// into a message and back gives the same settings.
pub proof fn config_data_round_trip(config: Config)
    ensures
        spec_to_config(spec_config_data(config)) == config,
{
}

/// Refitting is idempotent: refitting an already refitted workspace under the
/// same settings and viewport height leaves its windows as they were.
pub proof fn refitting_twice_changes_nothing_more<T>(
    a: Workspace<T>,
    b: Workspace<T>,
    c: Workspace<T>,
    config: Config,
    viewport_height: u32,
)
    requires
        reconfigured(a, b, config, viewport_height),
        reconfigured(b, c, config, viewport_height),
    ensures
        c.id == b.id,
        c.active_column == b.active_column,
        c.left_column.windows@ == b.left_column.windows@,
        c.right_column.windows@ == b.right_column.windows@,
        c.left_column.focused_idx == b.left_column.focused_idx,
        c.right_column.focused_idx == b.right_column.focused_idx,
{
    let h = fitted_height(viewport_height, config.gaps, config.visible_windows);
    if b.left_column.windows.len() > 0 {
        assert forall|k: int| 0 <= k < b.left_column.windows@.len() implies #[trigger] c.left_column.windows@[k]
            == b.left_column.windows@[k] by {
            assert(a.left_column.windows.len() > 0);
            assert(b.left_column.windows@[k].id == a.left_column.windows@[k].id);
            assert(c.left_column.windows@[k].id == b.left_column.windows@[k].id);
        }
    }
    if b.right_column.windows.len() > 0 {
        assert forall|k: int| 0 <= k < b.right_column.windows@.len() implies #[trigger] c.right_column.windows@[k]
            == b.right_column.windows@[k] by {
            assert(a.right_column.windows.len() > 0);
            assert(b.right_column.windows@[k].id == a.right_column.windows@[k].id);
            assert(c.right_column.windows@[k].id == b.right_column.windows@[k].id);
        }
    }
    assert(c.left_column.windows@ =~= b.left_column.windows@);
    assert(c.right_column.windows@ =~= b.right_column.windows@);
}

/// Each arrow key is bound exactly as its letter: Down as J, Up as K, Left as
/// H and Right as L, whatever the modifiers.
pub proof fn arrow_keys_bind_like_letters(pressed: bool, mod_pressed: bool, shift_pressed: bool)
    ensures
        spec_key_command(KEY_DOWN, pressed, mod_pressed, shift_pressed) == spec_key_command(
            KEY_J,
            pressed,
            mod_pressed,
            shift_pressed,
        ),
        spec_key_command(KEY_UP, pressed, mod_pressed, shift_pressed) == spec_key_command(
            KEY_K,
            pressed,
            mod_pressed,
            shift_pressed,
        ),
        spec_key_command(KEY_LEFT, pressed, mod_pressed, shift_pressed) == spec_key_command(
            KEY_H,
            pressed,
            mod_pressed,
            shift_pressed,
        ),
        spec_key_command(KEY_RIGHT, pressed, mod_pressed, shift_pressed) == spec_key_command(
            KEY_L,
            pressed,
            mod_pressed,
            shift_pressed,
        ),
{
}

/// Mod+J or Mod+Down moves the focus of the active column to the window
/// below the focused one, and reports that window.
pub proof fn mod_down_focuses_window_below<T>(
    old: TendrilState<T>,
    new: TendrilState<T>,
    code: u32,
    r: KeyAction,
    i: usize,
)
    requires
        old.wf(),
        code == KEY_J || code == KEY_DOWN,
        old.mod_pressed,
        !old.shift_pressed,
        new.key_handled(&old, code, true, r),
        old.spec_active_column().focused_idx == Some(i),
        i + 1 < old.spec_active_column().windows.len(),
    ensures
        r == (KeyAction::Focus { index: (i + 1) as usize }),
        new.active_workspace == old.active_workspace,
        new.spec_workspace().active_column == old.spec_workspace().active_column,
        new.spec_active_column().focused_idx == Some((i + 1) as usize),
        new.spec_active_column().windows@ == old.spec_active_column().windows@,
{
}

/// Mod+K or Mod+Up moves the focus of the active column to the window above
/// the focused one, and reports that window.
pub proof fn mod_up_focuses_window_above<T>(
    old: TendrilState<T>,
    new: TendrilState<T>,
    code: u32,
    r: KeyAction,
    i: usize,
)
    requires
        old.wf(),
        code == KEY_K || code == KEY_UP,
        old.mod_pressed,
        !old.shift_pressed,
        new.key_handled(&old, code, true, r),
        old.spec_active_column().focused_idx == Some(i),
        0 < i < old.spec_active_column().windows.len(),
    ensures
        r == (KeyAction::Focus { index: (i - 1) as usize }),
        new.active_workspace == old.active_workspace,
        new.spec_workspace().active_column == old.spec_workspace().active_column,
        new.spec_active_column().focused_idx == Some((i - 1) as usize),
        new.spec_active_column().windows@ == old.spec_active_column().windows@,
{
}

/// Mod+Shift+J or Mod+Shift+Down (and Mod+Shift+L / Right) moves the focused
/// window one place down its column, taking the focus along.
pub proof fn mod_shift_down_moves_window_down<T>(
    old: TendrilState<T>,
    new: TendrilState<T>,
    code: u32,
    r: KeyAction,
    i: usize,
)
    requires
        old.wf(),
        code == KEY_J || code == KEY_DOWN || code == KEY_L || code == KEY_RIGHT,
        old.mod_pressed,
        old.shift_pressed,
        new.key_handled(&old, code, true, r),
        old.spec_active_column().focused_idx == Some(i),
        i + 1 < old.spec_active_column().windows.len(),
    ensures
        r == (KeyAction::Reordered { outcome: ReorderOutcome::Moved { index: (i + 1) as usize } }),
        new.spec_workspace().active_column == old.spec_workspace().active_column,
        new.spec_active_column().focused_idx == Some((i + 1) as usize),
        new.spec_active_column().windows@.len() == old.spec_active_column().windows@.len(),
        new.spec_active_column().windows@[i + 1] == old.spec_active_column().windows@[i as int],
        new.spec_active_column().windows@[i as int] == old.spec_active_column().windows@[i + 1],
{
}

/// Mod+Shift+K or Mod+Shift+Up (and Mod+Shift+H / Left) moves the focused
/// window one place up its column, taking the focus along.
pub proof fn mod_shift_up_moves_window_up<T>(
    old: TendrilState<T>,
    new: TendrilState<T>,
    code: u32,
    r: KeyAction,
    i: usize,
)
    requires
        old.wf(),
        code == KEY_K || code == KEY_UP || code == KEY_H || code == KEY_LEFT,
        old.mod_pressed,
        old.shift_pressed,
        new.key_handled(&old, code, true, r),
        old.spec_active_column().focused_idx == Some(i),
        0 < i < old.spec_active_column().windows.len(),
    ensures
        r == (KeyAction::Reordered { outcome: ReorderOutcome::Moved { index: (i - 1) as usize } }),
        new.spec_workspace().active_column == old.spec_workspace().active_column,
        new.spec_active_column().focused_idx == Some((i - 1) as usize),
        new.spec_active_column().windows@.len() == old.spec_active_column().windows@.len(),
        new.spec_active_column().windows@[i - 1] == old.spec_active_column().windows@[i as int],
        new.spec_active_column().windows@[i as int] == old.spec_active_column().windows@[i - 1],
{
}

/// Mod with H, L or a horizontal arrow makes the other column active.
pub proof fn mod_horizontal_switches_column<T>(
    old: TendrilState<T>,
    new: TendrilState<T>,
    code: u32,
    r: KeyAction,
)
    requires
        old.wf(),
        code == KEY_H || code == KEY_LEFT || code == KEY_L || code == KEY_RIGHT,
        old.mod_pressed,
        !old.shift_pressed,
        new.key_handled(&old, code, true, r),
    ensures
        new.active_workspace == old.active_workspace,
        new.spec_workspace().active_column == !old.spec_workspace().active_column,
{
}

/// Without Mod held, or on release, the navigation keys go to the client and
/// nothing changes; so do all keys that are neither a modifier nor bound.
pub proof fn unbound_keys_are_forwarded<T>(
    old: TendrilState<T>,
    new: TendrilState<T>,
    code: u32,
    pressed: bool,
    r: KeyAction,
)
    requires
        new.key_handled(&old, code, pressed, r),
        code != KEY_LEFTMETA && code != KEY_RIGHTMETA && code != KEY_LEFTSHIFT && code
            != KEY_RIGHTSHIFT,
        !(pressed && old.mod_pressed) || (code != KEY_H && code != KEY_J && code != KEY_K && code
            != KEY_L && code != KEY_UP && code != KEY_DOWN && code != KEY_LEFT && code
            != KEY_RIGHT),
    ensures
        r == KeyAction::Forward,
        new == old,
{
}

/// The Meta keys set the Mod state; releasing Meta also releases Shift. The
/// Shift keys set the Shift state. Neither changes the layout.
pub proof fn modifier_keys_track_modifiers<T>(
    old: TendrilState<T>,
    new: TendrilState<T>,
    code: u32,
    pressed: bool,
    r: KeyAction,
)
    requires
        new.key_handled(&old, code, pressed, r),
        code == KEY_LEFTMETA || code == KEY_RIGHTMETA || code == KEY_LEFTSHIFT || code
            == KEY_RIGHTSHIFT,
    ensures
        r == KeyAction::Consumed,
        new.workspaces == old.workspaces,
        new.active_workspace == old.active_workspace,
        (code == KEY_LEFTMETA || code == KEY_RIGHTMETA) ==> new.mod_pressed == pressed,
        (code == KEY_LEFTMETA || code == KEY_RIGHTMETA) && !pressed ==> !new.shift_pressed,
        (code == KEY_LEFTSHIFT || code == KEY_RIGHTSHIFT) ==> new.shift_pressed == pressed
            && new.mod_pressed == old.mod_pressed,
{
}

/// The protocol form of the settings reports each setting in the member of
/// the same name, and two columns.
pub proof fn config_data_fields_match(config: Config)
    ensures
        spec_config_data(config).window_height == config.window_height,
        spec_config_data(config).gaps == config.gaps,
        spec_config_data(config).visible_windows == config.visible_windows,
        spec_config_data(config).column_count == 2,
{
}

/// A configuration message sets each setting from the member of the same name.
pub proof fn message_config_fields_match(data: ConfigData)
    ensures
        spec_to_config(data).window_height == data.window_height,
        spec_to_config(data).gaps == data.gaps,
        spec_to_config(data).visible_windows == data.visible_windows,
{
}

/// Taking focus keeps a focus that is in range, focuses the top window of a
/// column without focus, and pulls an out-of-range focus to the last window.
pub proof fn take_focus_keeps_valid_focus<T>(c: Column<T>, c2: Column<T>, r: Option<usize>)
    requires
        focus_taken(c, c2, r),
        c.windows.len() > 0,
    ensures
        c.focused_idx is Some && c.focused_idx.unwrap() < c.windows.len() ==> r == c.focused_idx
            && c2.focused_idx == c.focused_idx,
        c.focused_idx is None ==> r == Some(0usize) && c2.focused_idx == Some(0usize),
        c.focused_idx is Some && c.focused_idx.unwrap() >= c.windows.len() ==> r == Some(
            (c.windows.len() - 1) as usize,
        ),
        c2.windows@ == c.windows@,
{
}

/// Moving the focus lands inside the column, moves in the requested
/// direction, by exactly the requested number of windows when that stays in
/// the column, and reports no change for a zero step.
pub proof fn focus_steps_in_direction<T>(c: Column<T>, c2: Column<T>, direction: i32, r: Option<usize>)
    requires
        c.wf(),
        focus_moved(c, c2, direction, r),
    ensures
        c2.windows@ == c.windows@,
        r matches Some(j) ==> j < c.windows.len() && c2.focused_idx == Some(j),
        r is Some && direction > 0 ==> r.unwrap() > c.current_focus(),
        r is Some && direction < 0 ==> r.unwrap() < c.current_focus(),
        direction == 0 ==> r is None,
        direction != 0 && 0 <= c.current_focus() + direction < c.windows.len() ==> r == Some(
            (c.current_focus() + direction) as usize,
        ),
        r is None ==> c2.focused_idx == c.focused_idx,
{
}

/// A reorder moves the focused window exactly one place in the requested
/// direction, exchanging it with its neighbour and keeping the focus on it;
/// at the end it is pushed towards, or without focus, nothing changes.
pub proof fn reorder_moves_focused_window_one_place<T>(
    c0: Column<T>,
    c1: Column<T>,
    direction: i8,
    r: ReorderOutcome,
    i: usize,
)
    requires
        c0.wf(),
        reordered(c0, c1, direction, r),
        c0.focused_idx == Some(i),
    ensures
        c1.windows@.len() == c0.windows@.len(),
        direction > 0 && i + 1 < c0.windows.len() ==> {
            &&& r == (ReorderOutcome::Moved { index: (i + 1) as usize })
            &&& c1.focused_idx == Some((i + 1) as usize)
            &&& c1.windows@[i + 1] == c0.windows@[i as int]
            &&& c1.windows@[i as int] == c0.windows@[i + 1]
            &&& forall|k: int|
                0 <= k < c0.windows.len() && k != i && k != i + 1 ==> #[trigger] c1.windows@[k]
                    == c0.windows@[k]
        },
        direction < 0 && i > 0 ==> {
            &&& r == (ReorderOutcome::Moved { index: (i - 1) as usize })
            &&& c1.focused_idx == Some((i - 1) as usize)
            &&& c1.windows@[i - 1] == c0.windows@[i as int]
            &&& c1.windows@[i as int] == c0.windows@[i - 1]
            &&& forall|k: int|
                0 <= k < c0.windows.len() && k != i && k != i - 1 ==> #[trigger] c1.windows@[k]
                    == c0.windows@[k]
        },
        !(direction > 0 && i + 1 < c0.windows.len()) && !(direction < 0 && i > 0) ==> r
            == ReorderOutcome::Stayed && c1.windows@ == c0.windows@ && c1.focused_idx
            == c0.focused_idx,
{
}

/// The records of a column list its windows in order: record `k` reports
/// window `k` of the column, its identifier, height and slot top.
pub proof fn column_records_name_their_windows<T>(
    ws_id: u8,
    left: bool,
    col: Column<T>,
    gap: u32,
    k: int,
)
    requires
        0 <= k < col.windows.len(),
    ensures
        column_records(ws_id, left, col, gap).len() == col.windows.len(),
        ({
            let r = column_records(ws_id, left, col, gap)[k];
            &&& r.workspace_id == ws_id
            &&& r.column == left
            &&& r.index == k
            &&& r.id == col.windows@[k].id
            &&& r.height == col.windows@[k].height
            &&& r.slot_top == slot_top(k as nat, r.height as nat, gap as nat) as u128
        }),
{
}

/// Every record of the window listing names a window that exists: the window
/// at the record's index in the record's column of a workspace with the
/// record's workspace identifier has the record's identifier and height.
pub proof fn listed_records_name_their_windows<T>(wss: Seq<Workspace<T>>, gap: u32, k: int)
    requires
        0 <= k < all_records(wss, gap).len(),
    ensures
        exists|w: int|
            {
                let r = all_records(wss, gap)[k];
                &&& 0 <= w < wss.len()
                &&& #[trigger] wss[w].id == r.workspace_id
                &&& r.index < wss[w].spec_column(r.column).windows.len()
                &&& wss[w].spec_column(r.column).windows@[r.index as int].id == r.id
                &&& wss[w].spec_column(r.column).windows@[r.index as int].height == r.height
            },
    decreases wss.len(),
{
    let prefix = all_records(wss.drop_last(), gap);
    let last = wss.last();
    let r = all_records(wss, gap)[k];
    let n = wss.len() - 1;
    if k < prefix.len() {
        listed_records_name_their_windows(wss.drop_last(), gap, k);
        assert(r == prefix[k]);
        let w = choose|w: int|
            {
                &&& 0 <= w < wss.drop_last().len()
                &&& #[trigger] wss.drop_last()[w].id == r.workspace_id
                &&& r.index < wss.drop_last()[w].spec_column(r.column).windows.len()
                &&& wss.drop_last()[w].spec_column(r.column).windows@[r.index as int].id == r.id
                &&& wss.drop_last()[w].spec_column(r.column).windows@[r.index as int].height
                    == r.height
            };
        assert(wss.drop_last()[w] == wss[w]);
    } else {
        let k2 = k - prefix.len();
        let lrec = column_records(last.id, true, last.left_column, gap);
        assert(r == workspace_records(last, gap)[k2]);
        if k2 < lrec.len() {
            column_records_name_their_windows(last.id, true, last.left_column, gap, k2);
        } else {
            column_records_name_their_windows(
                last.id,
                false,
                last.right_column,
                gap,
                k2 - lrec.len(),
            );
        }
        assert(wss[n] == last);
        assert(wss[n].id == r.workspace_id);
    }
}

/// Every window of every workspace appears in the window listing, under its
/// workspace identifier, column and index.
pub proof fn every_window_is_listed<T>(
    wss: Seq<Workspace<T>>,
    gap: u32,
    w: int,
    left: bool,
    i: int,
)
    requires
        0 <= w < wss.len(),
        0 <= i < wss[w].spec_column(left).windows.len(),
    ensures
        exists|k: int|
            {
                let r = #[trigger] all_records(wss, gap)[k];
                &&& 0 <= k < all_records(wss, gap).len()
                &&& r.workspace_id == wss[w].id
                &&& r.column == left
                &&& r.index == i
                &&& r.id == wss[w].spec_column(left).windows@[i].id
            },
    decreases wss.len(),
{
    let prefix = all_records(wss.drop_last(), gap);
    let last = wss.last();
    let n = wss.len() - 1;
    if w < n {
        assert(wss.drop_last()[w] == wss[w]);
        every_window_is_listed(wss.drop_last(), gap, w, left, i);
        let k = choose|k: int|
            {
                let r = #[trigger] all_records(wss.drop_last(), gap)[k];
                &&& 0 <= k < all_records(wss.drop_last(), gap).len()
                &&& r.workspace_id == wss.drop_last()[w].id
                &&& r.column == left
                &&& r.index == i
                &&& r.id == wss.drop_last()[w].spec_column(left).windows@[i].id
            };
        assert(all_records(wss, gap)[k] == prefix[k]);
    } else {
        assert(wss[w] == last);
        let lrec = column_records(last.id, true, last.left_column, gap);
        if left {
            column_records_name_their_windows(last.id, true, last.left_column, gap, i);
            let k = prefix.len() + i;
            assert(all_records(wss, gap)[k] == workspace_records(last, gap)[i]);
        } else {
            column_records_name_their_windows(last.id, false, last.right_column, gap, i);
            let k = prefix.len() + lrec.len() + i;
            assert(all_records(wss, gap)[k] == workspace_records(last, gap)[lrec.len() + i]);
        }
    }
}

} // verus!
