use tendril::config::Config;
use tendril::input::{
    key_command, KeyAction, KeyCommand, KEY_H, KEY_J, KEY_K, KEY_L, KEY_LEFTMETA, KEY_LEFTSHIFT,
    KEY_RIGHT,
};
use tendril::layout::ReorderOutcome;
use tendril::listing::WindowRecord;
use tendril::state::{BackendEvent, EventAction, TendrilState};

fn state() -> TendrilState<&'static str> {
    TendrilState::new((1000, 1000))
}

#[test]
fn new_state_has_five_empty_workspaces() {
    let s = state();
    assert_eq!(s.workspaces.len(), 5);
    for (i, ws) in s.workspaces.iter().enumerate() {
        assert_eq!(ws.id as usize, i);
        assert!(ws.active_column);
        assert!(ws.left_column.windows.is_empty());
        assert!(ws.right_column.windows.is_empty());
    }
    assert_eq!(s.active_workspace, 0);
    assert_eq!(s.config, Config { window_height: 500, gaps: 1, visible_windows: 2 });
    assert_eq!(s.config, Config::default());
    assert!(!s.needs_redraw);
    assert!(s.damage_full);
}

#[test]
fn new_windows_balance_columns_right_first() {
    let mut s = state();
    s.add_window("a");
    assert_eq!(s.workspace().right_column.windows.len(), 1);
    assert!(s.workspace().left_column.windows.is_empty());
    s.add_window("b");
    assert_eq!(s.workspace().left_column.windows.len(), 1);
    s.add_window("c");
    assert_eq!(s.workspace().right_column.windows.len(), 2);
    assert_eq!(s.workspace().right_column.windows[0].toplevel, "a");
    assert_eq!(s.workspace().right_column.windows[1].toplevel, "c");
    // (1000 - 1 * 3) / 2
    assert!(s.workspace().right_column.windows.iter().all(|w| w.height == 498));
    assert!(s.workspace().left_column.windows.iter().all(|w| w.height == 498));
    assert!(s.needs_redraw);
    assert!(s.damage_full);
}

#[test]
fn window_ids_stay_unique() {
    let mut s = state();
    for name in ["a", "b", "c", "d", "e"] {
        s.add_window(name);
    }
    let mut ids: Vec<usize> = s.window_records().iter().map(|r| r.id).collect();
    ids.sort();
    assert_eq!(ids, vec![0, 1, 2, 3, 4]);
}

#[test]
fn focus_window_finds_the_window() {
    let mut s = state();
    s.add_window("a");
    s.add_window("b");
    s.switch_workspace(2);
    s.needs_redraw = false;
    assert!(s.focus_window(0));
    assert_eq!(s.active_workspace, 0);
    assert!(!s.workspace().active_column);
    assert_eq!(s.workspace().right_column.focused_idx, Some(0));
    assert!(s.needs_redraw);
    assert!(s.focus_window(1));
    assert!(s.workspace().active_column);
    assert_eq!(s.workspace().left_column.focused_idx, Some(0));
}

#[test]
fn focus_window_unknown_id_changes_nothing() {
    let mut s = state();
    s.add_window("a");
    s.needs_redraw = false;
    assert!(!s.focus_window(42));
    assert!(!s.needs_redraw);
    assert_eq!(s.workspace().right_column.focused_idx, None);
}

#[test]
fn switch_workspace_checks_the_index() {
    let mut s = state();
    assert!(s.switch_workspace(3));
    assert_eq!(s.active_workspace, 3);
    assert!(s.needs_redraw);
    assert!(!s.switch_workspace(5));
    assert_eq!(s.active_workspace, 3);
}

#[test]
fn resize_refits_the_windows() {
    let mut s = state();
    s.add_window("a");
    assert_eq!(s.handle_event(BackendEvent::Resized { width: 800, height: 601 }), EventAction::Configure);
    assert_eq!(s.viewport_size, (800, 601));
    assert_eq!(s.workspace().right_column.windows[0].height, 299);
    assert_eq!(s.handle_event(BackendEvent::CloseRequested), EventAction::Exit);
    assert_eq!(s.handle_event(BackendEvent::Input), EventAction::HandleInput);
    assert_eq!(s.handle_event(BackendEvent::Focus), EventAction::Nothing);
    s.needs_redraw = false;
    s.damage_full = false;
    assert_eq!(s.handle_event(BackendEvent::Redraw), EventAction::Nothing);
    assert!(s.needs_redraw && s.damage_full);
}

#[test]
fn set_config_refits_the_windows() {
    let mut s = state();
    s.add_window("a");
    s.add_window("b");
    s.set_config(Config { window_height: 300, gaps: 10, visible_windows: 3 });
    // (1000 - 10 * 4) / 3
    assert_eq!(s.workspace().left_column.windows[0].height, 320);
    assert_eq!(s.workspace().right_column.windows[0].height, 320);
    assert_eq!(s.config.window_height, 300);
}

#[test]
fn keyboard_focus_and_modifiers() {
    let mut s = state();
    for name in ["a", "b", "c", "d"] {
        s.add_window(name);
    }
    // Without Mod, J goes to the client.
    assert_eq!(s.handle_key(KEY_J, true), KeyAction::Forward);
    assert_eq!(s.handle_key(KEY_LEFTMETA, true), KeyAction::Consumed);
    assert!(s.mod_pressed);
    // Left column is active; its focus moves down.
    assert_eq!(s.handle_key(KEY_J, true), KeyAction::Focus { index: 1 });
    assert_eq!(s.handle_key(KEY_J, true), KeyAction::Consumed);
    assert_eq!(s.handle_key(KEY_K, true), KeyAction::Focus { index: 0 });
    // Releasing a key with Mod held is not a command.
    assert_eq!(s.handle_key(KEY_J, false), KeyAction::Forward);
    // Mod+L moves to the right column, Mod+H back.
    assert_eq!(s.handle_key(KEY_L, true), KeyAction::Focus { index: 0 });
    assert!(!s.workspace().active_column);
    assert_eq!(s.handle_key(KEY_H, true), KeyAction::Focus { index: 0 });
    assert!(s.workspace().active_column);
    // Shift with Mod reorders.
    assert_eq!(s.handle_key(KEY_LEFTSHIFT, true), KeyAction::Consumed);
    let top = s.workspace().left_column.windows[0].id;
    assert_eq!(
        s.handle_key(KEY_RIGHT, true),
        KeyAction::Reordered { outcome: ReorderOutcome::Moved { index: 1 } }
    );
    assert_eq!(s.workspace().left_column.windows[1].id, top);
    assert_eq!(s.workspace().left_column.focused_idx, Some(1));
    // Releasing Mod forgets Shift.
    assert_eq!(s.handle_key(KEY_LEFTMETA, false), KeyAction::Consumed);
    assert!(!s.mod_pressed);
    assert!(!s.shift_pressed);
}

#[test]
fn key_bindings() {
    assert_eq!(key_command(KEY_H, true, true, false), KeyCommand::FocusPrevColumn);
    assert_eq!(key_command(KEY_H, true, true, true), KeyCommand::ReorderUp);
    assert_eq!(key_command(KEY_J, true, true, true), KeyCommand::ReorderDown);
    assert_eq!(key_command(KEY_K, true, false, false), KeyCommand::Forward);
    assert_eq!(key_command(30, true, true, false), KeyCommand::Forward);
    assert_eq!(key_command(134, false, true, true), KeyCommand::Meta);
    assert_eq!(key_command(62, true, false, false), KeyCommand::Shift);
}

#[test]
fn switching_columns_twice_returns() {
    let mut s = state();
    s.add_window("a");
    let start = s.workspace().active_column;
    s.focus_next_column();
    s.focus_prev_column();
    assert_eq!(s.workspace().active_column, start);
}

#[test]
fn focus_on_empty_column_does_not_redraw() {
    let mut s = state();
    s.add_window("a");
    s.needs_redraw = false;
    // Left column is active and empty; moving to the right focuses "a".
    assert_eq!(s.focus_next_column(), Some(0));
    assert!(s.needs_redraw);
    s.needs_redraw = false;
    assert_eq!(s.focus_next_column(), None);
    assert!(s.workspace().active_column);
    assert!(!s.needs_redraw);
}

#[test]
fn pointer_focus_sets_column_and_index() {
    let mut s = state();
    s.add_window("a");
    s.add_window("b");
    s.focus_window_at(false, 0);
    assert!(!s.workspace().active_column);
    assert_eq!(s.workspace().right_column.focused_idx, Some(0));
}

#[test]
fn window_records_list_in_search_order() {
    let mut s = state();
    s.add_window("a");
    s.add_window("b");
    s.switch_workspace(1);
    s.add_window("c");
    let records = s.window_records();
    assert_eq!(
        records,
        vec![
            WindowRecord { id: 1, workspace_id: 0, column: true, index: 0, height: 498, slot_top: 1 },
            WindowRecord { id: 0, workspace_id: 0, column: false, index: 0, height: 498, slot_top: 1 },
            WindowRecord { id: 2, workspace_id: 1, column: false, index: 0, height: 498, slot_top: 1 },
        ]
    );
    assert_eq!(s.workspace_records(1), vec![records[2]]);
    assert!(s.workspace_records(4).is_empty());
}

#[test]
fn active_column_accessors() {
    let mut s = state();
    s.add_window("a");
    assert!(s.active_column().windows.is_empty());
    s.workspace_mut().active_column = false;
    assert_eq!(s.active_column().windows.len(), 1);
    s.active_column_mut().focused_idx = Some(0);
    assert_eq!(s.workspace().right_column.focused_idx, Some(0));
}
