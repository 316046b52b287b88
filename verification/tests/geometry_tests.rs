use tendril::config::Config;
use tendril::geometry::{column_width, fitted_window_height, window_slot_top};
use tendril::layout::{Column, Window, WindowIds};

fn three_windows() -> Column<()> {
    let mut ids = WindowIds::new();
    let mut col: Column<()> = Column::new();
    for _ in 0..3 {
        col.windows.push(Window::new(&mut ids, (), 500));
    }
    col
}

#[test]
fn slot_tops_follow_the_stride() {
    assert_eq!(window_slot_top(0, 500, 8), 8);
    assert_eq!(window_slot_top(1, 500, 8), 516);
    assert_eq!(window_slot_top(2, 500, 8), 1024);
    // On-screen positions with a scroll offset of 200, as the renderer
    // computes them from the slot tops.
    assert_eq!(window_slot_top(0, 500, 8) as f64 - 200.0, -192.0);
    assert_eq!(window_slot_top(1, 500, 8) as f64 - 200.0, 316.0);
    assert_eq!(window_slot_top(2, 500, 8) as f64 - 200.0, 824.0);
}

#[test]
fn slot_spacing_law_on_values() {
    for i in 0..10usize {
        assert_eq!(window_slot_top(i + 1, 300, 5) - window_slot_top(i, 300, 5), 305);
    }
    assert_eq!(window_slot_top(0, 300, 5), 5);
}

#[test]
fn max_scroll_is_the_overflow() {
    let config = Config { window_height: 500, gaps: 8, visible_windows: 2 };
    let col = three_windows();
    assert_eq!(col.max_scroll(&config, 1000), 532);
    assert_eq!(col.max_scroll(&config, 2000), 0);
    assert_eq!(col.max_scroll(&config, 1532), 0);
    assert_eq!(col.max_scroll(&config, -10), 1542);
    let empty: Column<()> = Column::new();
    assert_eq!(empty.max_scroll(&config, 1000), 0);
}

#[test]
fn column_slot_top_uses_first_window_height() {
    let config = Config { window_height: 500, gaps: 8, visible_windows: 2 };
    let mut col = three_windows();
    assert_eq!(col.slot_top(2, &config), 1024);
    col.windows[0].height = 100;
    assert_eq!(col.slot_top(2, &config), 8 + 2 * 108);
    let empty: Column<()> = Column::new();
    assert_eq!(empty.slot_top(1, &config), 516);
}

#[test]
fn content_height_grows_by_height_and_gap() {
    let config = Config { window_height: 500, gaps: 8, visible_windows: 2 };
    let mut ids = WindowIds::new();
    let mut col: Column<()> = Column::new();
    col.windows.push(Window::new(&mut ids, (), 100));
    let before = col.total_content_height(&config);
    assert_eq!(before, 116);
    col.windows.push(Window::new(&mut ids, (), 40));
    assert_eq!(col.total_content_height(&config), before + 40 + 8);
}

#[test]
fn column_width_halves_what_the_gap_leaves() {
    assert_eq!(column_width(1000, 8), 496);
    assert_eq!(column_width(1001, 0), 500);
    assert_eq!(column_width(8, 8), 0);
}

#[test]
fn fitted_height_shares_the_viewport() {
    assert_eq!(fitted_window_height(1000, 8, 2), 488);
    assert_eq!(fitted_window_height(1000, 1, 2), 498);
    // Zero visible windows counts as one.
    assert_eq!(fitted_window_height(1000, 8, 0), 984);
    assert_eq!(fitted_window_height(1000, 8, 1), 984);
    assert_eq!(fitted_window_height(24, 8, 2), 0);
}
