use vstd::prelude::*;

use crate::geometry::{slot_top, window_slot_top};
use crate::layout::{Column, Workspace};
use crate::state::TendrilState;

verus! {

/// What the control socket reports of one window, but for its on-screen
/// position, which depends on the column's scroll offset: the window's slot
/// top in content coordinates is reported instead.
#[derive(Clone, Copy, Debug, PartialEq, Eq, Structural)]
pub struct WindowRecord {
    pub id: usize,
    pub workspace_id: u8,
    /// `true` for the left column.
    pub column: bool,
    pub index: usize,
    pub height: u32,
    /// Top edge of the window's slot, in content coordinates.
    pub slot_top: u128,
}

/// The records of the windows of one column, top to bottom; each window's
/// slot top is computed from its own height.
pub open spec fn column_records<T>(ws_id: u8, left: bool, col: Column<T>, gap: u32) -> Seq<
    WindowRecord,
> {
    Seq::new(
        col.windows@.len(),
        |i: int|
            WindowRecord {
                id: col.windows@[i].id,
                workspace_id: ws_id,
                column: left,
                index: i as usize,
                height: col.windows@[i].height,
                slot_top: slot_top(i as nat, col.windows@[i].height as nat, gap as nat) as u128,
            },
    )
}

/// The records of a workspace: its left column, then its right column.
pub open spec fn workspace_records<T>(ws: Workspace<T>, gap: u32) -> Seq<WindowRecord> {
    column_records(ws.id, true, ws.left_column, gap) + column_records(
        ws.id,
        false,
        ws.right_column,
        gap,
    )
}

/// The records of all workspaces, in workspace order.
pub open spec fn all_records<T>(wss: Seq<Workspace<T>>, gap: u32) -> Seq<WindowRecord>
    decreases wss.len(),
{
    if wss.len() == 0 {
        Seq::empty()
    } else {
        all_records(wss.drop_last(), gap) + workspace_records(wss.last(), gap)
    }
}

/// Appends the records of the windows of `col` to `out`.
fn push_column_records<T>(
    out: &mut Vec<WindowRecord>,
    ws_id: u8,
    left: bool,
    col: &Column<T>,
    gap: u32,
)
    ensures
        final(out)@ == old(out)@ + column_records(ws_id, left, *col, gap),
{
    let n = col.windows.len();
    let mut i: usize = 0;
    while i < n
        invariant
            0 <= i <= n,
            n == col.windows.len(),
            out@ == old(out)@ + column_records(ws_id, left, *col, gap).take(i as int),
        decreases n - i,
    {
        let w = &col.windows[i];
        let top = window_slot_top(i, w.height, gap);
        out.push(
            WindowRecord {
                id: w.id,
                workspace_id: ws_id,
                column: left,
                index: i,
                height: w.height,
                slot_top: top,
            },
        );
        assert(column_records(ws_id, left, *col, gap).take(i + 1) =~= column_records(
            ws_id,
            left,
            *col,
            gap,
        ).take(i as int).push(column_records(ws_id, left, *col, gap)[i as int]));
        i += 1;
    }
    assert(column_records(ws_id, left, *col, gap).take(n as int) =~= column_records(
        ws_id,
        left,
        *col,
        gap,
    ));
}

impl<T> TendrilState<T> {
    /// The records of the windows of workspace `w`: its left column top to
    /// bottom, then its right column.
    pub fn workspace_records(&self, w: usize) -> (r: Vec<WindowRecord>)
        requires
            w < self.workspaces.len(),
        ensures
            r@ == workspace_records(self.workspaces@[w as int], self.config.gaps),
    {
        let ws = &self.workspaces[w];
        let mut out: Vec<WindowRecord> = Vec::new();
        push_column_records(&mut out, ws.id, true, &ws.left_column, self.config.gaps);
        push_column_records(&mut out, ws.id, false, &ws.right_column, self.config.gaps);
        assert(out@ =~= workspace_records(*ws, self.config.gaps));
        out
    }

    /// The records of every window, workspace by workspace, left column before
    /// right, top to bottom.
    pub fn window_records(&self) -> (r: Vec<WindowRecord>)
        ensures
            r@ == all_records(self.workspaces@, self.config.gaps),
    {
        let n = self.workspaces.len();
        let gap = self.config.gaps;
        let mut out: Vec<WindowRecord> = Vec::new();
        let mut w: usize = 0;
        while w < n
            invariant
                0 <= w <= n,
                n == self.workspaces.len(),
                gap == self.config.gaps,
                out@ == all_records(self.workspaces@.take(w as int), gap),
            decreases n - w,
        {
            let ws = &self.workspaces[w];
            push_column_records(&mut out, ws.id, true, &ws.left_column, gap);
            push_column_records(&mut out, ws.id, false, &ws.right_column, gap);
            assert(self.workspaces@.take(w + 1).drop_last() =~= self.workspaces@.take(w as int));
            assert(out@ =~= all_records(self.workspaces@.take(w + 1), gap));
            w += 1;
        }
        assert(self.workspaces@.take(n as int) =~= self.workspaces@);
        out
    }
}

} // verus!
