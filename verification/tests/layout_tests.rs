use tendril::layout::{Column, ReorderOutcome, Window, WindowIds};

fn column_of(n: usize) -> Column<u32> {
    let mut ids = WindowIds::new();
    let mut col: Column<u32> = Column::new();
    for k in 0..n {
        col.windows.push(Window::new(&mut ids, k as u32, 500));
    }
    col
}

fn order(col: &Column<u32>) -> Vec<usize> {
    col.windows.iter().map(|w| w.id).collect()
}

#[test]
fn ids_start_at_zero_and_count_up() {
    let mut ids = WindowIds::new();
    for expected in 0..5usize {
        assert_eq!(ids.allocate(), expected);
    }
    let w = Window::new(&mut ids, "surface", 42);
    assert_eq!(w.id, 5);
    assert_eq!(w.height, 42);
    assert_eq!(w.toplevel, "surface");
}

#[test]
fn focus_next_clamps_to_the_column() {
    let mut col = column_of(3);
    assert_eq!(col.focus_next(1), Some(1));
    assert_eq!(col.focused_idx, Some(1));
    assert_eq!(col.focus_next(5), Some(2));
    assert_eq!(col.focus_next(1), None);
    assert_eq!(col.focused_idx, Some(2));
    assert_eq!(col.focus_next(-10), Some(0));
    assert_eq!(col.focus_next(-1), None);
    assert_eq!(col.focused_idx, Some(0));
}

#[test]
fn focus_next_without_focus_counts_from_the_top() {
    let mut col = column_of(3);
    assert_eq!(col.focus_next(-1), None);
    assert_eq!(col.focused_idx, None);
    let mut empty: Column<u32> = Column::new();
    assert_eq!(empty.focus_next(1), None);
}

#[test]
fn reorder_moves_window_and_focus() {
    let mut col = column_of(3);
    col.focused_idx = Some(0);
    assert_eq!(col.reorder(1), ReorderOutcome::Moved { index: 1 });
    assert_eq!(order(&col), vec![1, 0, 2]);
    assert_eq!(col.focused_idx, Some(1));
    assert_eq!(col.windows[1].id, 0);
    assert_eq!(col.reorder(1), ReorderOutcome::Moved { index: 2 });
    assert_eq!(order(&col), vec![1, 2, 0]);
    assert_eq!(col.reorder(1), ReorderOutcome::Stayed);
    assert_eq!(order(&col), vec![1, 2, 0]);
}

#[test]
fn reorder_is_undone_by_the_opposite_reorder() {
    let mut col = column_of(4);
    col.focused_idx = Some(2);
    let before = order(&col);
    assert_eq!(col.reorder(-1), ReorderOutcome::Moved { index: 1 });
    assert_eq!(col.reorder(1), ReorderOutcome::Moved { index: 2 });
    assert_eq!(order(&col), before);
    assert_eq!(col.focused_idx, Some(2));
}

#[test]
fn reorder_without_focus_does_nothing() {
    let mut col = column_of(2);
    assert_eq!(col.reorder(1), ReorderOutcome::NoFocus);
    assert_eq!(order(&col), vec![0, 1]);
    col.focused_idx = Some(0);
    assert_eq!(col.reorder(-1), ReorderOutcome::Stayed);
    assert_eq!(col.reorder(0), ReorderOutcome::Stayed);
}

#[test]
fn take_focus_keeps_focus_in_range() {
    let mut col = column_of(3);
    assert_eq!(col.take_focus(), Some(0));
    col.focused_idx = Some(7);
    assert_eq!(col.take_focus(), Some(2));
    col.focused_idx = Some(1);
    assert_eq!(col.take_focus(), Some(1));
    let mut empty: Column<u32> = Column::new();
    assert_eq!(empty.take_focus(), None);
}

#[test]
fn position_of_finds_first_match() {
    let col = column_of(3);
    assert_eq!(col.position_of(2), Some(2));
    assert_eq!(col.position_of(9), None);
}

#[test]
fn set_heights_changes_only_heights() {
    let mut col = column_of(3);
    col.focused_idx = Some(1);
    col.set_heights(77);
    assert!(col.windows.iter().all(|w| w.height == 77));
    assert_eq!(order(&col), vec![0, 1, 2]);
    assert_eq!(col.focused_idx, Some(1));
}
