//! The editor application built on the widget engine: panes over the
//! text store, the command line, the split layout, and the per-mode key
//! tables shared through the editor state.

pub mod command;
pub mod editor_root;
pub mod event;
pub mod keybindings;
pub mod keymaps;
pub mod pane;
pub mod text_field;
pub mod vsplit;

use vstd::prelude::*;

use self::keymaps::KeyMaps;

verus! {

/// The state shared by every editor widget: the immutable key tables.
pub struct EditorState {
    pub key_maps: KeyMaps,
}

impl EditorState {
    /// The tables hold their intended rows.
    pub open spec fn wf(self) -> bool {
        self.key_maps.wf()
    }
}

impl Default for EditorState {
    fn default() -> (r: EditorState)
        ensures
            r.wf(),
    {
        EditorState { key_maps: KeyMaps::default() }
    }
}

} // verus!
