//! A free-standing key-binding table, mapping full key events to a
//! mode's semantic events, with the default bindings for the two
//! editing modes.

use vstd::prelude::*;

use crate::editor::event::InsertModeEvent;
use crate::editor::event::NormalModeEvent;
use crate::editor::keymaps::spec_table_lookup;
use crate::event::KeyCode;
use crate::event::KeyEvent;

verus! {

/// A binding table for one mode.
pub struct Keybindings<E> {
    pub map: Vec<(KeyEvent, E)>,
}

impl<E: Copy> Keybindings<E> {
    /// The binding for `key`, if any.
    pub fn lookup(&self, key: &KeyEvent) -> (r: Option<E>)
        ensures
            r == spec_table_lookup(self.map@, *key),
    {
        let n = self.map.len();
        proof {
            assert(self.map@.skip(0) =~= self.map@);
        }
        let mut i: usize = 0;
        while i < n
            invariant
                i <= n,
                n == self.map@.len(),
                spec_table_lookup(self.map@, *key) == spec_table_lookup(
                    self.map@.skip(i as int),
                    *key,
                ),
            decreases n - i,
        {
            proof {
                assert(self.map@.skip(i as int)[0] == self.map@[i as int]);
                assert(self.map@.skip(i as int).drop_first() =~= self.map@.skip(i + 1));
            }
            let pair = &self.map[i];
            if pair.0 == *key {
                return Some(pair.1);
            }
            i = i + 1;
        }
        None
    }
}

/// The default insert-mode bindings: deletion, navigation, Escape.
pub fn insert_mode_keybindings() -> (r: Keybindings<InsertModeEvent>)
    ensures
        r.map@ == crate::editor::keymaps::spec_insert_table(),
{
    let mut map: Vec<(KeyEvent, InsertModeEvent)> = Vec::new();
    map.push((KeyEvent::key(KeyCode::Delete), InsertModeEvent::Delete));
    map.push((KeyEvent::key(KeyCode::Backspace), InsertModeEvent::Backspace));
    map.push((KeyEvent::key(KeyCode::Up), InsertModeEvent::MoveUp));
    map.push((KeyEvent::key(KeyCode::Down), InsertModeEvent::MoveDown));
    map.push((KeyEvent::key(KeyCode::Left), InsertModeEvent::MoveLeft));
    map.push((KeyEvent::key(KeyCode::Right), InsertModeEvent::MoveRight));
    map.push((KeyEvent::key(KeyCode::Home), InsertModeEvent::MoveHome));
    map.push((KeyEvent::key(KeyCode::End), InsertModeEvent::MoveEnd));
    map.push((KeyEvent::key(KeyCode::Escape), InsertModeEvent::Escape));
    proof {
        assert(map@ =~= crate::editor::keymaps::spec_insert_table());
    }
    Keybindings { map }
}

/// The default normal-mode bindings: enter insert mode, navigation.
pub fn normal_mode_keybindings() -> (r: Keybindings<NormalModeEvent>)
    ensures
        r.map@ == crate::editor::keymaps::spec_normal_table(),
{
    let mut map: Vec<(KeyEvent, NormalModeEvent)> = Vec::new();
    map.push((KeyEvent::key(KeyCode::Char('i')), NormalModeEvent::InsertMode));
    map.push((KeyEvent::key(KeyCode::Up), NormalModeEvent::MoveUp));
    map.push((KeyEvent::key(KeyCode::Down), NormalModeEvent::MoveDown));
    map.push((KeyEvent::key(KeyCode::Left), NormalModeEvent::MoveLeft));
    map.push((KeyEvent::key(KeyCode::Right), NormalModeEvent::MoveRight));
    map.push((KeyEvent::key(KeyCode::Home), NormalModeEvent::MoveHome));
    map.push((KeyEvent::key(KeyCode::End), NormalModeEvent::MoveEnd));
    proof {
        assert(map@ =~= crate::editor::keymaps::spec_normal_table());
    }
    Keybindings { map }
}

} // verus!
