//! The per-mode key tables: immutable maps from a full key event to the
//! semantic event of one mode, with insert mode's literal-insertion
//! fallback. Lookup is an exact match on key code and modifiers.

use vstd::prelude::*;

use crate::editor::event::CommandModeEvent;
use crate::editor::event::EditorRootEvent;
use crate::editor::event::InsertModeEvent;
use crate::editor::event::NormalModeEvent;
use crate::editor::event::VSplitEvent;
use crate::event::Event;
use crate::event::KeyCode;
use crate::event::KeyEvent;
use crate::event::Modifiers;

verus! {

/// One mode's table: key-event / semantic-event pairs, searched in
/// order.
pub struct KeyMap<E> {
    pub entries: Vec<(KeyEvent, E)>,
}

/// The first table entry whose key matches, if any.
pub open spec fn spec_table_lookup<E>(entries: Seq<(KeyEvent, E)>, key: KeyEvent) -> Option<E>
    decreases entries.len(),
{
    if entries.len() == 0 {
        None
    } else if entries[0].0 == key {
        Some(entries[0].1)
    } else {
        spec_table_lookup(entries.drop_first(), key)
    }
}

/// A value a lookup returns is one of the table's values.
proof fn lemma_lookup_is_entry<E>(entries: Seq<(KeyEvent, E)>, key: KeyEvent)
    ensures
        match spec_table_lookup(entries, key) {
            Some(v) => exists|i: int|
                0 <= i < entries.len() && #[trigger] entries[i].1 == v,
            None => true,
        },
    decreases entries.len(),
{
    if entries.len() > 0 && entries[0].0 != key {
        lemma_lookup_is_entry(entries.drop_first(), key);
        if spec_table_lookup(entries, key) is Some {
            let v = spec_table_lookup(entries, key).unwrap();
            let i = choose|i: int|
                0 <= i < entries.drop_first().len() && #[trigger] entries.drop_first()[i].1 == v;
            assert(entries[i + 1].1 == v);
        }
    }
}

impl<E> KeyMap<E> {
    /// A borrow of the table entry for `key`, if any.
    pub fn get(&self, key: &KeyEvent) -> (r: Option<&E>)
        ensures
            match r {
                Some(e) => spec_table_lookup(self.entries@, *key) == Some(*e),
                None => spec_table_lookup(self.entries@, *key) is None,
            },
    {
        let n = self.entries.len();
        proof {
            assert(self.entries@.skip(0) =~= self.entries@);
        }
        let mut i: usize = 0;
        while i < n
            invariant
                i <= n,
                n == self.entries@.len(),
                spec_table_lookup(self.entries@, *key) == spec_table_lookup(
                    self.entries@.skip(i as int),
                    *key,
                ),
            decreases n - i,
        {
            proof {
                assert(self.entries@.skip(i as int)[0] == self.entries@[i as int]);
                assert(self.entries@.skip(i as int).drop_first() =~= self.entries@.skip(i + 1));
            }
            let pair = &self.entries[i];
            if pair.0 == *key {
                return Some(&pair.1);
            }
            i = i + 1;
        }
        None
    }
}

/// Normal mode's table: enter insert mode, and plain navigation.
pub open spec fn spec_normal_table() -> Seq<(KeyEvent, NormalModeEvent)> {
    seq![
        (KeyEvent::spec_key(KeyCode::Char('i')), NormalModeEvent::InsertMode),
        (KeyEvent::spec_key(KeyCode::Up), NormalModeEvent::MoveUp),
        (KeyEvent::spec_key(KeyCode::Down), NormalModeEvent::MoveDown),
        (KeyEvent::spec_key(KeyCode::Left), NormalModeEvent::MoveLeft),
        (KeyEvent::spec_key(KeyCode::Right), NormalModeEvent::MoveRight),
        (KeyEvent::spec_key(KeyCode::Home), NormalModeEvent::MoveHome),
        (KeyEvent::spec_key(KeyCode::End), NormalModeEvent::MoveEnd),
    ]
}

/// Insert mode's table: deletion, navigation, and leaving the mode.
pub open spec fn spec_insert_table() -> Seq<(KeyEvent, InsertModeEvent)> {
    seq![
        (KeyEvent::spec_key(KeyCode::Delete), InsertModeEvent::Delete),
        (KeyEvent::spec_key(KeyCode::Backspace), InsertModeEvent::Backspace),
        (KeyEvent::spec_key(KeyCode::Up), InsertModeEvent::MoveUp),
        (KeyEvent::spec_key(KeyCode::Down), InsertModeEvent::MoveDown),
        (KeyEvent::spec_key(KeyCode::Left), InsertModeEvent::MoveLeft),
        (KeyEvent::spec_key(KeyCode::Right), InsertModeEvent::MoveRight),
        (KeyEvent::spec_key(KeyCode::Home), InsertModeEvent::MoveHome),
        (KeyEvent::spec_key(KeyCode::End), InsertModeEvent::MoveEnd),
        (KeyEvent::spec_key(KeyCode::Escape), InsertModeEvent::Escape),
    ]
}

/// Command-entry mode's table: only Escape is reserved.
pub open spec fn spec_command_table() -> Seq<(KeyEvent, CommandModeEvent)> {
    seq![(KeyEvent::spec_key(KeyCode::Escape), CommandModeEvent::Escape)]
}

/// The root composite's table: enter command entry, and quit.
pub open spec fn spec_editor_root_table() -> Seq<(KeyEvent, EditorRootEvent)> {
    seq![
        (KeyEvent::spec_key(KeyCode::Char(':')), EditorRootEvent::CommandMode),
        (KeyEvent::spec_key(KeyCode::Char('q')), EditorRootEvent::Quit),
    ]
}

/// The split composite's table: Ctrl+Up and Ctrl+Down switch focus.
pub open spec fn spec_vsplit_table() -> Seq<(KeyEvent, VSplitEvent)> {
    seq![
        (
            (KeyEvent { key_code: KeyCode::Up, modifiers: Modifiers::spec_ctrl() }),
            VSplitEvent::FocusUp,
        ),
        (
            (KeyEvent { key_code: KeyCode::Down, modifiers: Modifiers::spec_ctrl() }),
            VSplitEvent::FocusDown,
        ),
    ]
}

/// The five per-mode tables, constructed once at startup and immutable
/// afterwards.
pub struct KeyMaps {
    pub normal_mode: KeyMap<NormalModeEvent>,
    pub insert_mode: KeyMap<InsertModeEvent>,
    pub command_mode: KeyMap<CommandModeEvent>,
    pub editor_root: KeyMap<EditorRootEvent>,
    pub vsplit: KeyMap<VSplitEvent>,
}

/// What normal mode makes of a raw event.
pub open spec fn spec_normal_mode(event: Event) -> Option<NormalModeEvent> {
    match event {
        Event::Key(k) => spec_table_lookup(spec_normal_table(), k),
        _ => None,
    }
}

/// What insert mode makes of a raw event: a table hit, or the
/// fallback — an unmodified character or Return inserts literally, and
/// injected text inserts as a block.
pub open spec fn spec_insert_mode(event: Event) -> Option<InsertModeEvent> {
    match event {
        Event::Key(k) => match spec_table_lookup(spec_insert_table(), k) {
            Some(e) => Some(e),
            None => {
                if k.modifiers == Modifiers::spec_empty() {
                    match k.key_code {
                        KeyCode::Char(c) => Some(InsertModeEvent::InsertChar(c)),
                        KeyCode::Return => Some(InsertModeEvent::InsertChar('\n')),
                        _ => None,
                    }
                } else {
                    None
                }
            },
        },
        Event::Str(s) => Some(InsertModeEvent::InsertString(s)),
    }
}

/// What command-entry mode makes of a raw event.
pub open spec fn spec_command_mode(event: Event) -> Option<CommandModeEvent> {
    match event {
        Event::Key(k) => spec_table_lookup(spec_command_table(), k),
        _ => None,
    }
}

/// What the root composite makes of a raw event.
pub open spec fn spec_editor_root(event: Event) -> Option<EditorRootEvent> {
    match event {
        Event::Key(k) => spec_table_lookup(spec_editor_root_table(), k),
        _ => None,
    }
}

/// What the split composite makes of a raw event.
pub open spec fn spec_vsplit(event: Event) -> Option<VSplitEvent> {
    match event {
        Event::Key(k) => spec_table_lookup(spec_vsplit_table(), k),
        _ => None,
    }
}

impl KeyMaps {
    /// The tables hold exactly their intended rows.
    pub open spec fn wf(self) -> bool {
        self.normal_mode.entries@ == spec_normal_table() && self.insert_mode.entries@
            == spec_insert_table() && self.command_mode.entries@ == spec_command_table()
            && self.editor_root.entries@ == spec_editor_root_table() && self.vsplit.entries@
            == spec_vsplit_table()
    }

    /// Translates a raw event for normal mode, handing back events the
    /// mode does not understand.
    pub fn normal_mode(&self, event: Event) -> (r: Result<NormalModeEvent, Event>)
        requires
            self.wf(),
        ensures
            r == (match spec_normal_mode(event) {
                Some(e) => Result::<NormalModeEvent, Event>::Ok(e),
                None => Result::<NormalModeEvent, Event>::Err(event),
            }),
    {
        match &event {
            Event::Key(k) => {
                match self.normal_mode.get(k) {
                    Some(e) => Ok(*e),
                    None => Err(event),
                }
            },
            _ => Err(event),
        }
    }

    /// Translates a raw event for insert mode: a table hit, or the
    /// literal-insertion fallback.
    pub fn insert_mode(&self, event: Event) -> (r: Result<InsertModeEvent, Event>)
        requires
            self.wf(),
        ensures
            r == (match spec_insert_mode(event) {
                Some(e) => Result::<InsertModeEvent, Event>::Ok(e),
                None => Result::<InsertModeEvent, Event>::Err(event),
            }),
    {
        match event {
            Event::Key(k) => {
                match self.insert_mode.get(&k) {
                    Some(e) => {
                        proof {
                            lemma_lookup_is_entry(spec_insert_table(), k);
                        }
                        match e {
                            InsertModeEvent::Delete => Ok(InsertModeEvent::Delete),
                            InsertModeEvent::Backspace => Ok(InsertModeEvent::Backspace),
                            InsertModeEvent::MoveUp => Ok(InsertModeEvent::MoveUp),
                            InsertModeEvent::MoveDown => Ok(InsertModeEvent::MoveDown),
                            InsertModeEvent::MoveLeft => Ok(InsertModeEvent::MoveLeft),
                            InsertModeEvent::MoveRight => Ok(InsertModeEvent::MoveRight),
                            InsertModeEvent::MoveHome => Ok(InsertModeEvent::MoveHome),
                            InsertModeEvent::MoveEnd => Ok(InsertModeEvent::MoveEnd),
                            InsertModeEvent::Escape => Ok(InsertModeEvent::Escape),
                            InsertModeEvent::InsertChar(c) => Ok(InsertModeEvent::InsertChar(*c)),
                            InsertModeEvent::InsertString(_) => {
                                proof {
                                    assert(false);
                                }
                                vstd::pervasive::unreached()
                            },
                        }
                    },
                    None => {
                        if k.modifiers.is_empty() {
                            match k.key_code {
                                KeyCode::Char(c) => Ok(InsertModeEvent::InsertChar(c)),
                                KeyCode::Return => Ok(InsertModeEvent::InsertChar('\n')),
                                _ => Err(Event::Key(k)),
                            }
                        } else {
                            Err(Event::Key(k))
                        }
                    },
                }
            },
            Event::Str(s) => Ok(InsertModeEvent::InsertString(s)),
        }
    }

    /// Translates a raw event for command-entry mode.
    pub fn command_mode(&self, event: Event) -> (r: Result<CommandModeEvent, Event>)
        requires
            self.wf(),
        ensures
            r == (match spec_command_mode(event) {
                Some(e) => Result::<CommandModeEvent, Event>::Ok(e),
                None => Result::<CommandModeEvent, Event>::Err(event),
            }),
    {
        match &event {
            Event::Key(k) => {
                match self.command_mode.get(k) {
                    Some(e) => Ok(*e),
                    None => Err(event),
                }
            },
            _ => Err(event),
        }
    }

    /// Translates a raw event for the root composite.
    pub fn editor_root(&self, event: Event) -> (r: Result<EditorRootEvent, Event>)
        requires
            self.wf(),
        ensures
            r == (match spec_editor_root(event) {
                Some(e) => Result::<EditorRootEvent, Event>::Ok(e),
                None => Result::<EditorRootEvent, Event>::Err(event),
            }),
    {
        match &event {
            Event::Key(k) => {
                match self.editor_root.get(k) {
                    Some(e) => Ok(*e),
                    None => Err(event),
                }
            },
            _ => Err(event),
        }
    }

    /// Translates a raw event for the split composite.
    pub fn vsplit(&self, event: Event) -> (r: Result<VSplitEvent, Event>)
        requires
            self.wf(),
        ensures
            r == (match spec_vsplit(event) {
                Some(e) => Result::<VSplitEvent, Event>::Ok(e),
                None => Result::<VSplitEvent, Event>::Err(event),
            }),
    {
        match &event {
            Event::Key(k) => {
                match self.vsplit.get(k) {
                    Some(e) => Ok(*e),
                    None => Err(event),
                }
            },
            _ => Err(event),
        }
    }
}

impl Default for KeyMaps {
    /// Builds the five tables.
    fn default() -> (r: KeyMaps)
        ensures
            r.wf(),
    {
        let mut normal: Vec<(KeyEvent, NormalModeEvent)> = Vec::new();
        normal.push((KeyEvent::key(KeyCode::Char('i')), NormalModeEvent::InsertMode));
        normal.push((KeyEvent::key(KeyCode::Up), NormalModeEvent::MoveUp));
        normal.push((KeyEvent::key(KeyCode::Down), NormalModeEvent::MoveDown));
        normal.push((KeyEvent::key(KeyCode::Left), NormalModeEvent::MoveLeft));
        normal.push((KeyEvent::key(KeyCode::Right), NormalModeEvent::MoveRight));
        normal.push((KeyEvent::key(KeyCode::Home), NormalModeEvent::MoveHome));
        normal.push((KeyEvent::key(KeyCode::End), NormalModeEvent::MoveEnd));
        proof {
            assert(normal@ =~= spec_normal_table());
        }

        let mut insert: Vec<(KeyEvent, InsertModeEvent)> = Vec::new();
        insert.push((KeyEvent::key(KeyCode::Delete), InsertModeEvent::Delete));
        insert.push((KeyEvent::key(KeyCode::Backspace), InsertModeEvent::Backspace));
        insert.push((KeyEvent::key(KeyCode::Up), InsertModeEvent::MoveUp));
        insert.push((KeyEvent::key(KeyCode::Down), InsertModeEvent::MoveDown));
        insert.push((KeyEvent::key(KeyCode::Left), InsertModeEvent::MoveLeft));
        insert.push((KeyEvent::key(KeyCode::Right), InsertModeEvent::MoveRight));
        insert.push((KeyEvent::key(KeyCode::Home), InsertModeEvent::MoveHome));
        insert.push((KeyEvent::key(KeyCode::End), InsertModeEvent::MoveEnd));
        insert.push((KeyEvent::key(KeyCode::Escape), InsertModeEvent::Escape));
        proof {
            assert(insert@ =~= spec_insert_table());
        }

        let mut command: Vec<(KeyEvent, CommandModeEvent)> = Vec::new();
        command.push((KeyEvent::key(KeyCode::Escape), CommandModeEvent::Escape));
        proof {
            assert(command@ =~= spec_command_table());
        }

        let mut root: Vec<(KeyEvent, EditorRootEvent)> = Vec::new();
        root.push((KeyEvent::key(KeyCode::Char(':')), EditorRootEvent::CommandMode));
        root.push((KeyEvent::key(KeyCode::Char('q')), EditorRootEvent::Quit));
        proof {
            assert(root@ =~= spec_editor_root_table());
        }

        let mut vsplit: Vec<(KeyEvent, VSplitEvent)> = Vec::new();
        vsplit.push(
            (KeyEvent { key_code: KeyCode::Up, modifiers: Modifiers::ctrl() }, VSplitEvent::FocusUp),
        );
        vsplit.push(
            (
                KeyEvent { key_code: KeyCode::Down, modifiers: Modifiers::ctrl() },
                VSplitEvent::FocusDown,
            ),
        );
        proof {
            assert(vsplit@ =~= spec_vsplit_table());
        }

        KeyMaps {
            normal_mode: KeyMap { entries: normal },
            insert_mode: KeyMap { entries: insert },
            command_mode: KeyMap { entries: command },
            editor_root: KeyMap { entries: root },
            vsplit: KeyMap { entries: vsplit },
        }
    }
}

} // verus!
