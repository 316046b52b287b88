use tendril::config::Config;
use tendril::layout::{Column, Window, WindowIds, Workspace};

fn test_config() -> Config {
    Config { window_height: 500, gaps: 8, visible_windows: 2 }
}

#[test]
fn test_total_content_height() {
    let config = test_config();
    let mut ids = WindowIds::new();
    let mut col: Column<()> = Column::new();
    assert_eq!(col.total_content_height(&config) as f64, 0.0);

    col.windows.push(Window::new(&mut ids, (), 500));
    assert_eq!(col.total_content_height(&config) as f64, 516.0);

    col.windows.push(Window::new(&mut ids, (), 500));
    assert_eq!(col.total_content_height(&config) as f64, 1024.0);

    col.windows.push(Window::new(&mut ids, (), 500));
    assert_eq!(col.total_content_height(&config) as f64, 1532.0);
}

#[test]
fn test_window_ids_monotonic() {
    let mut ids = WindowIds::new();
    let w1 = Window::new(&mut ids, (), 500);
    let w2 = Window::new(&mut ids, (), 500);
    let w3 = Window::new(&mut ids, (), 500);
    assert!(w1.id < w2.id);
    assert!(w2.id < w3.id);
}

#[test]
fn test_workspace_columns() {
    let mut ids = WindowIds::new();
    let mut ws: Workspace<()> = Workspace::new(0);
    assert!(ws.active_column);
    ws.column_mut(true).windows.push(Window::new(&mut ids, (), 500));
    assert_eq!(ws.column(true).windows.len(), 1);
    assert!(ws.column(false).windows.is_empty());
}
