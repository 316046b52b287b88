use vstd::prelude::*;

use crate::layout::ReorderOutcome;
use crate::state::TendrilState;

verus! {

// Keyboard codes as the input backend reports them (evdev scancode + 8).
/// Left Super/Meta key.
pub const KEY_LEFTMETA: u32 = 133;
/// Right Super/Meta key.
pub const KEY_RIGHTMETA: u32 = 134;
/// Left Shift key.
pub const KEY_LEFTSHIFT: u32 = 50;
/// Right Shift key.
pub const KEY_RIGHTSHIFT: u32 = 62;
/// The H key.
pub const KEY_H: u32 = 43;
/// The J key.
pub const KEY_J: u32 = 44;
/// The K key.
pub const KEY_K: u32 = 45;
/// The L key.
pub const KEY_L: u32 = 46;
/// The Up arrow.
pub const KEY_UP: u32 = 111;
/// The Down arrow.
pub const KEY_DOWN: u32 = 116;
/// The Left arrow.
pub const KEY_LEFT: u32 = 113;
/// The Right arrow.
pub const KEY_RIGHT: u32 = 114;

/// What a key event means to the compositor.
#[derive(Clone, Copy, Debug, PartialEq, Eq, Structural)]
pub enum KeyCommand {
    /// A Meta key went down or up.
    Meta,
    /// A Shift key went down or up.
    Shift,
    /// Mod+H / Mod+Left: focus the previous column.
    FocusPrevColumn,
    /// Mod+L / Mod+Right: focus the next column.
    FocusNextColumn,
    /// Mod+J / Mod+Down: focus the window below.
    FocusDown,
    /// Mod+K / Mod+Up: focus the window above.
    FocusUp,
    /// Mod+Shift+H/K or Left/Up: move the focused window up.
    ReorderUp,
    /// Mod+Shift+L/J or Right/Down: move the focused window down.
    ReorderDown,
    /// Anything else goes to the focused client.
    Forward,
}

/// What the caller must do after the layout handled a key event.
#[derive(Clone, Copy, Debug, PartialEq, Eq, Structural)]
pub enum KeyAction {
    /// Pass the key on to the focused client.
    Forward,
    /// The compositor used the key; nothing else to do.
    Consumed,
    /// Give keyboard focus to window `index` of the active column.
    Focus { index: usize },
    /// A reorder request ran on the active column with this outcome.
    Reordered { outcome: ReorderOutcome },
}

/// The binding of key `code` when it is `pressed` (or released) with the
/// given modifiers held.
pub open spec fn spec_key_command(
    code: u32,
    pressed: bool,
    mod_pressed: bool,
    shift_pressed: bool,
) -> KeyCommand {
    let plain = pressed && mod_pressed && !shift_pressed;
    let shifted = pressed && mod_pressed && shift_pressed;
    if code == KEY_LEFTMETA || code == KEY_RIGHTMETA {
        KeyCommand::Meta
    } else if code == KEY_LEFTSHIFT || code == KEY_RIGHTSHIFT {
        KeyCommand::Shift
    } else if code == KEY_H || code == KEY_LEFT {
        if plain {
            KeyCommand::FocusPrevColumn
        } else if shifted {
            KeyCommand::ReorderUp
        } else {
            KeyCommand::Forward
        }
    } else if code == KEY_L || code == KEY_RIGHT {
        if plain {
            KeyCommand::FocusNextColumn
        } else if shifted {
            KeyCommand::ReorderDown
        } else {
            KeyCommand::Forward
        }
    } else if code == KEY_J || code == KEY_DOWN {
        if plain {
            KeyCommand::FocusDown
        } else if shifted {
            KeyCommand::ReorderDown
        } else {
            KeyCommand::Forward
        }
    } else if code == KEY_K || code == KEY_UP {
        if plain {
            KeyCommand::FocusUp
        } else if shifted {
            KeyCommand::ReorderUp
        } else {
            KeyCommand::Forward
        }
    } else {
        KeyCommand::Forward
    }
}

/// Looks up the binding of key `code` when it is `pressed` (or released) with
/// the given modifiers held.
pub fn key_command(code: u32, pressed: bool, mod_pressed: bool, shift_pressed: bool) -> (c:
    KeyCommand)
    ensures
        c == spec_key_command(code, pressed, mod_pressed, shift_pressed),
{
    let plain = pressed && mod_pressed && !shift_pressed;
    let shifted = pressed && mod_pressed && shift_pressed;
    if code == KEY_LEFTMETA || code == KEY_RIGHTMETA {
        KeyCommand::Meta
    } else if code == KEY_LEFTSHIFT || code == KEY_RIGHTSHIFT {
        KeyCommand::Shift
    } else if code == KEY_H || code == KEY_LEFT {
        if plain {
            KeyCommand::FocusPrevColumn
        } else if shifted {
            KeyCommand::ReorderUp
        } else {
            KeyCommand::Forward
        }
    } else if code == KEY_L || code == KEY_RIGHT {
        if plain {
            KeyCommand::FocusNextColumn
        } else if shifted {
            KeyCommand::ReorderDown
        } else {
            KeyCommand::Forward
        }
    } else if code == KEY_J || code == KEY_DOWN {
        if plain {
            KeyCommand::FocusDown
        } else if shifted {
            KeyCommand::ReorderDown
        } else {
            KeyCommand::Forward
        }
    } else if code == KEY_K || code == KEY_UP {
        if plain {
            KeyCommand::FocusUp
        } else if shifted {
            KeyCommand::ReorderUp
        } else {
            KeyCommand::Forward
        }
    } else {
        KeyCommand::Forward
    }
}

/// The focus change a key action reports: the index for `Focus`, else none.
pub open spec fn focus_result(a: KeyAction) -> Option<usize> {
    match a {
        KeyAction::Focus { index } => Some(index),
        _ => None,
    }
}

impl<T> TendrilState<T> {
    /// Everything but the modifier flags is the same in `self` and `old`.
    pub open spec fn same_except_modifiers(&self, old: &Self) -> bool {
        &&& self.workspaces == old.workspaces
        &&& self.active_workspace == old.active_workspace
        &&& self.config == old.config
        &&& self.viewport_size == old.viewport_size
        &&& self.needs_redraw == old.needs_redraw
        &&& self.damage_full == old.damage_full
        &&& self.window_ids == old.window_ids
    }

    /// `self` is `old` after handling key `code` going down (`pressed`) or up,
    /// which returned `r`, as the key's binding under `old`'s modifiers says.
    pub open spec fn key_handled(&self, old: &Self, code: u32, pressed: bool, r: KeyAction) -> bool {
        match spec_key_command(code, pressed, old.mod_pressed, old.shift_pressed) {
            KeyCommand::Meta => {
                &&& r == KeyAction::Consumed
                &&& self.same_except_modifiers(old)
                &&& self.mod_pressed == pressed
                &&& self.shift_pressed == (pressed && old.shift_pressed)
            },
            KeyCommand::Shift => {
                &&& r == KeyAction::Consumed
                &&& self.same_except_modifiers(old)
                &&& self.mod_pressed == old.mod_pressed
                &&& self.shift_pressed == pressed
            },
            KeyCommand::FocusPrevColumn | KeyCommand::FocusNextColumn => {
                &&& (r is Focus || r is Consumed)
                &&& self.column_focused(
                    old,
                    !old.spec_workspace().active_column,
                    focus_result(r),
                )
            },
            KeyCommand::FocusDown => {
                &&& (r is Focus || r is Consumed)
                &&& self.focus_stepped(old, 1, focus_result(r))
            },
            KeyCommand::FocusUp => {
                &&& (r is Focus || r is Consumed)
                &&& self.focus_stepped(old, -1i32, focus_result(r))
            },
            KeyCommand::ReorderUp => r matches KeyAction::Reordered { outcome }
                && self.window_reordered(old, -1i8, outcome),
            KeyCommand::ReorderDown => r matches KeyAction::Reordered { outcome }
                && self.window_reordered(old, 1, outcome),
            KeyCommand::Forward => r == KeyAction::Forward && *self == *old,
        }
    }

    /// Handles key `code` going down (`pressed`) or up: tracks the Meta and
    /// Shift modifiers (releasing Meta also forgets Shift), runs the bound
    /// focus or reorder command, or asks for the key to be forwarded.
    pub fn handle_key(&mut self, code: u32, pressed: bool) -> (r: KeyAction)
        requires
            old(self).wf(),
            ({
                let c = spec_key_command(
                    code,
                    pressed,
                    old(self).mod_pressed,
                    old(self).shift_pressed,
                );
                c == KeyCommand::FocusDown || c == KeyCommand::FocusUp
            }) ==> old(self).spec_active_column().windows.len() <= i32::MAX,
        ensures
            final(self).wf(),
            old(self).ids_fresh() ==> final(self).ids_fresh(),
            final(self).key_handled(old(self), code, pressed, r),
    {
        let command = key_command(code, pressed, self.mod_pressed, self.shift_pressed);
        match command {
            KeyCommand::Meta => {
                self.mod_pressed = pressed;
                if !pressed {
                    self.shift_pressed = false;
                }
                proof {
                    if old(self).ids_fresh() {
                        assert(self.same_window_ids(old(self)));
                        self.lemma_same_ids_keep_fresh(old(self));
                    }
                }
                KeyAction::Consumed
            },
            KeyCommand::Shift => {
                self.shift_pressed = pressed;
                proof {
                    if old(self).ids_fresh() {
                        assert(self.same_window_ids(old(self)));
                        self.lemma_same_ids_keep_fresh(old(self));
                    }
                }
                KeyAction::Consumed
            },
            KeyCommand::FocusPrevColumn => match self.focus_prev_column() {
                Some(index) => KeyAction::Focus { index },
                None => KeyAction::Consumed,
            },
            KeyCommand::FocusNextColumn => match self.focus_next_column() {
                Some(index) => KeyAction::Focus { index },
                None => KeyAction::Consumed,
            },
            KeyCommand::FocusDown => {
                assert(self.spec_workspace().wf());
                match self.focus_next(1) {
                    Some(index) => KeyAction::Focus { index },
                    None => KeyAction::Consumed,
                }
            },
            KeyCommand::FocusUp => {
                assert(self.spec_workspace().wf());
                match self.focus_next(-1) {
                    Some(index) => KeyAction::Focus { index },
                    None => KeyAction::Consumed,
                }
            },
            KeyCommand::ReorderUp => KeyAction::Reordered { outcome: self.keyboard_reorder(-1) },
            KeyCommand::ReorderDown => KeyAction::Reordered { outcome: self.keyboard_reorder(1) },
            KeyCommand::Forward => KeyAction::Forward,
        }
    }
}

} // verus!
