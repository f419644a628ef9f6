//! The semantic events each editor mode understands, produced from raw
//! key events by the mode dispatcher.

use vstd::prelude::*;

verus! {

/// What normal mode can do.
#[derive(Debug, Clone, Copy, PartialEq, Eq, Structural)]
pub enum NormalModeEvent {
    InsertMode,
    MoveUp,
    MoveDown,
    MoveLeft,
    MoveRight,
    MoveHome,
    MoveEnd,
}

/// What insert mode can do. Literal text arrives either as a single
/// character or as an injected string (pasted or composed input).
#[derive(Debug, Clone)]
pub enum InsertModeEvent {
    InsertChar(char),
    InsertString(String),
    Delete,
    Backspace,
    MoveUp,
    MoveDown,
    MoveLeft,
    MoveRight,
    MoveHome,
    MoveEnd,
    Escape,
}

/// What command-entry mode can do beyond editing its line.
#[derive(Debug, Clone, Copy, PartialEq, Eq, Structural)]
pub enum CommandModeEvent {
    Escape,
}

/// What the root composite handles itself.
#[derive(Debug, Clone, Copy, PartialEq, Eq, Structural)]
pub enum EditorRootEvent {
    CommandMode,
    Quit,
}

/// What the split composite handles itself.
#[derive(Debug, Clone, Copy, PartialEq, Eq, Structural)]
pub enum VSplitEvent {
    FocusUp,
    FocusDown,
}

} // verus!
