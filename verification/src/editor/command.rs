//! Editor-level commands: the semantic actions a raw input event can
//! request from the editor application.

use vstd::prelude::*;

use crate::event::Event;
use crate::event::KeyCode;
use crate::event::KeyEvent;
use crate::event::Modifiers;

verus! {

/// Actions available in normal mode.
#[derive(Debug, Clone, Copy, PartialEq, Eq, Structural)]
pub enum NormalAction {
    CommandMode,
    InsertMode,
    MoveUp,
    MoveDown,
    MoveLeft,
    MoveRight,
    MoveHome,
    MoveEnd,
    Quit,
}

/// Actions available in insert mode.
#[derive(Debug, Clone, Copy, PartialEq, Eq, Structural)]
pub enum InsertAction {
    Delete,
    Backspace,
    MoveUp,
    MoveDown,
    MoveLeft,
    MoveRight,
    MoveHome,
    MoveEnd,
    Escape,
}

/// One editor command, decoded from a raw input event.
#[derive(Debug, Clone)]
pub enum EditorCommand {
    EnterCommand,
    InsertChar(char),
    InsertString(String),
    Return,
    Delete,
    Backspace,
    MoveUp,
    MoveDown,
    MoveLeft,
    MoveRight,
    MoveHome,
    MoveEnd,
    FocusUp,
    FocusDown,
    Escape,
    Exit,
}

impl EditorCommand {
    /// The command a raw event requests: the reserved chords first
    /// (Ctrl+C enters command entry, Ctrl+Q exits, Shift+Up and
    /// Shift+Down move focus), then the unmodified keys, then injected
    /// text; anything else is not a command.
    pub open spec fn spec_from_event(event: Event) -> Option<EditorCommand> {
        match event {
            Event::Key(k) => {
                if k == (KeyEvent {
                    key_code: KeyCode::Char('C'),
                    modifiers: Modifiers::spec_ctrl(),
                }) {
                    Some(EditorCommand::EnterCommand)
                } else if k == (KeyEvent {
                    key_code: KeyCode::Char('Q'),
                    modifiers: Modifiers::spec_ctrl(),
                }) {
                    Some(EditorCommand::Exit)
                } else if k == (KeyEvent {
                    key_code: KeyCode::Up,
                    modifiers: Modifiers::spec_shift(),
                }) {
                    Some(EditorCommand::FocusUp)
                } else if k == (KeyEvent {
                    key_code: KeyCode::Down,
                    modifiers: Modifiers::spec_shift(),
                }) {
                    Some(EditorCommand::FocusDown)
                } else if k.modifiers == Modifiers::spec_empty() {
                    match k.key_code {
                        KeyCode::Char(c) => Some(EditorCommand::InsertChar(c)),
                        KeyCode::Return => Some(EditorCommand::Return),
                        KeyCode::Delete => Some(EditorCommand::Delete),
                        KeyCode::Backspace => Some(EditorCommand::Backspace),
                        KeyCode::Up => Some(EditorCommand::MoveUp),
                        KeyCode::Down => Some(EditorCommand::MoveDown),
                        KeyCode::Left => Some(EditorCommand::MoveLeft),
                        KeyCode::Right => Some(EditorCommand::MoveRight),
                        KeyCode::Home => Some(EditorCommand::MoveHome),
                        KeyCode::End => Some(EditorCommand::MoveEnd),
                        KeyCode::Escape => Some(EditorCommand::Escape),
                        _ => None,
                    }
                } else {
                    None
                }
            },
            Event::Str(s) => Some(EditorCommand::InsertString(s)),
        }
    }

    /// Decodes a raw event into an editor command.
    pub fn from_event(event: Event) -> (r: Option<EditorCommand>)
        ensures
            r == EditorCommand::spec_from_event(event),
    {
        match event {
            Event::Key(k) => {
                let ctrl = Modifiers::ctrl();
                let shift = Modifiers::shift();
                if k == (KeyEvent { key_code: KeyCode::Char('C'), modifiers: ctrl }) {
                    Some(EditorCommand::EnterCommand)
                } else if k == (KeyEvent { key_code: KeyCode::Char('Q'), modifiers: ctrl }) {
                    Some(EditorCommand::Exit)
                } else if k == (KeyEvent { key_code: KeyCode::Up, modifiers: shift }) {
                    Some(EditorCommand::FocusUp)
                } else if k == (KeyEvent { key_code: KeyCode::Down, modifiers: shift }) {
                    Some(EditorCommand::FocusDown)
                } else if k.modifiers.is_empty() {
                    match k.key_code {
                        KeyCode::Char(c) => Some(EditorCommand::InsertChar(c)),
                        KeyCode::Return => Some(EditorCommand::Return),
                        KeyCode::Delete => Some(EditorCommand::Delete),
                        KeyCode::Backspace => Some(EditorCommand::Backspace),
                        KeyCode::Up => Some(EditorCommand::MoveUp),
                        KeyCode::Down => Some(EditorCommand::MoveDown),
                        KeyCode::Left => Some(EditorCommand::MoveLeft),
                        KeyCode::Right => Some(EditorCommand::MoveRight),
                        KeyCode::Home => Some(EditorCommand::MoveHome),
                        KeyCode::End => Some(EditorCommand::MoveEnd),
                        KeyCode::Escape => Some(EditorCommand::Escape),
                        _ => None,
                    }
                } else {
                    None
                }
            },
            Event::Str(s) => Some(EditorCommand::InsertString(s)),
        }
    }
}

} // verus!
