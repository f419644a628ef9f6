//! The root composite of the editor: the main editing pane, a
//! command-entry line overlaid on the last row, and the flag that
//! routes input between them.

use vstd::prelude::*;

use crate::buffer::Buffer;
use crate::buffer::Cell;
use crate::editor::event::CommandModeEvent;
use crate::editor::event::EditorRootEvent;
use crate::editor::keymaps::spec_command_mode;
use crate::editor::keymaps::spec_editor_root;
use crate::editor::pane::pane_accepts;
use crate::editor::pane::pane_step;
use crate::editor::pane::Pane;
use crate::editor::text_field::tf_accepts;
use crate::editor::text_field::tf_step;
use crate::editor::text_field::TextField;
use crate::editor::EditorState;
use crate::event::dup_event;
use crate::event::Event;
use crate::ui::ControlFlow;
use crate::ui::Widget;

verus! {

/// The root composite: a main pane, the command line, and whether
/// command entry currently has focus.
pub struct EditorRoot {
    pub main: Pane,
    pub main_buf: Buffer,
    pub cmd_line: TextField,
    pub cmd_line_buf: Buffer,
    pub command_mode: bool,
}

impl Default for EditorRoot {
    /// An empty pane, an empty command line, editing focused.
    fn default() -> (r: EditorRoot)
        ensures
            r.main.wf(),
            r.main.text() == Seq::<char>::empty(),
            r.cmd_line.wf(),
            r.cmd_line.text() == Seq::<char>::empty(),
            r.command_mode == false,
            r.main_buf.wf(),
            r.cmd_line_buf.wf(),
    {
        EditorRoot {
            main: Pane::default(),
            main_buf: Buffer::new(0, 0),
            cmd_line: TextField::default(),
            cmd_line_buf: Buffer::new(0, 0),
            command_mode: false,
        }
    }
}

impl Widget<EditorState> for EditorRoot {
    open spec fn state_ok(state: EditorState) -> bool {
        state.wf()
    }

    open spec fn inv(&self) -> bool {
        self.main.wf() && self.cmd_line.wf() && self.main_buf.wf() && self.cmd_line_buf.wf()
    }

    /// Focus routing: while command entry is active, Escape clears and
    /// leaves it and everything else goes to the command line; while
    /// editing, the pane gets the event first, then the reserved keys
    /// (`:` enters command entry, `q` exits the application), and
    /// anything else is declined.
    fn handle_event(&mut self, state: &mut EditorState, event: &Event) -> (r: Option<ControlFlow>)
        ensures
            final(self).main_buf == old(self).main_buf,
            final(self).cmd_line_buf == old(self).cmd_line_buf,
            if old(self).command_mode {
                final(self).main == old(self).main && match spec_command_mode(*event) {
                    Some(CommandModeEvent::Escape) => final(self).cmd_line.text() == Seq::<
                        char,
                    >::empty() && final(self).cmd_line.cursor_pos == 0 && final(self).command_mode
                        == false && r == Some(ControlFlow::Continue),
                    None => final(self).command_mode == old(self).command_mode && tf_step(
                        old(self).cmd_line,
                        final(self).cmd_line,
                        *event,
                    ) && r == (if tf_accepts(*event) {
                        Some(ControlFlow::Continue)
                    } else {
                        Option::<ControlFlow>::None
                    }),
                }
            } else {
                final(self).cmd_line == old(self).cmd_line && if pane_accepts(
                    old(self).main,
                    *event,
                ) {
                    pane_step(old(self).main, final(self).main, *event) && final(self).command_mode
                        == false && r == Some(ControlFlow::Continue)
                } else {
                    final(self).main == old(self).main && match spec_editor_root(*event) {
                        Some(EditorRootEvent::CommandMode) => final(self).command_mode == true && r
                            == Some(ControlFlow::Continue),
                        Some(EditorRootEvent::Quit) => final(self).command_mode == false && r
                            == Some(ControlFlow::Exit),
                        None => final(self).command_mode == false && r is None,
                    }
                }
            },
    {
        if self.command_mode {
            match state.key_maps.command_mode(dup_event(event)) {
                Ok(CommandModeEvent::Escape) => {
                    self.cmd_line.clear();
                    self.command_mode = false;
                    Some(ControlFlow::Continue)
                },
                Err(_) => self.cmd_line.handle_event(state, event),
            }
        } else {
            match self.main.handle_event(state, event) {
                Some(flow) => Some(flow),
                None => {
                    match state.key_maps.editor_root(dup_event(event)) {
                        Ok(EditorRootEvent::CommandMode) => {
                            self.command_mode = true;
                            Some(ControlFlow::Continue)
                        },
                        Ok(EditorRootEvent::Quit) => Some(ControlFlow::Exit),
                        Err(_) => None,
                    }
                },
            }
        }
    }

    fn update(&mut self, state: &mut EditorState) -> (r: ControlFlow)
        ensures
            r == ControlFlow::Continue,
            *final(self) == *old(self),
    {
        if self.command_mode {
            self.cmd_line.update(state)
        } else {
            self.main.update(state)
        }
    }

    /// Renders the pane into all rows but the last; when command entry
    /// is active, the last row shows a `:` marker followed by the
    /// command line, and the cursor is the command line's; otherwise
    /// the last row is untouched and the cursor is the pane's. A
    /// buffer under two rows high is left untouched.
    fn render(&mut self, buf: &mut Buffer)
        ensures
            final(self).main == old(self).main,
            final(self).cmd_line == old(self).cmd_line,
            final(self).command_mode == old(self).command_mode,
            old(buf).spec_height() < 2 ==> *final(buf) == *old(buf) && *final(self) == *old(self),
            old(buf).spec_height() >= 2 ==> {
                &&& final(self).main_buf.spec_width() == old(buf).spec_width()
                &&& final(self).main_buf.spec_height() == old(buf).spec_height() - 1
                &&& forall|i: int, j: int|
                    0 <= i < old(buf).spec_width() && 0 <= j < old(buf).spec_height()
                        ==> #[trigger] final(buf).spec_cell(i, j) == (if j < old(
                        buf,
                    ).spec_height() - 1 {
                        final(self).main_buf.spec_cell(i, j)
                    } else if old(self).command_mode {
                        if i == 0 {
                            Cell { c: ':', style: old(buf).spec_cell(i, j).style }
                        } else if i < 1 + final(self).cmd_line_buf.spec_width() {
                            final(self).cmd_line_buf.spec_cell(i - 1, 0)
                        } else {
                            old(buf).spec_cell(i, j)
                        }
                    } else {
                        old(buf).spec_cell(i, j)
                    })
                &&& final(buf).spec_cursor() == (if old(self).command_mode {
                    crate::buffer::spec_translate_cursor(
                        final(self).cmd_line_buf.spec_cursor(),
                        1,
                        old(buf).spec_height() - 1,
                    )
                } else {
                    crate::buffer::spec_translate_cursor(
                        final(self).main_buf.spec_cursor(),
                        0,
                        0,
                    )
                })
            },
    {
        let h = buf.height();
        let w = buf.width();
        if h < 2 {
            return ;
        }

        proof {
            crate::buffer::lemma_row_major_fits(w as int, (h - 1) as int, h as int);
        }
        self.main_buf.resize_and_clear(w, h - 1);
        self.main.render(&mut self.main_buf);
        let edit_focus = !self.command_mode;
        let ghost b0 = *buf;
        buf.blit(0, 0, &self.main_buf, edit_focus);

        if self.command_mode {
            let cmd_line_y = h - 1;

            let cw = if w > 0 {
                w - 1
            } else {
                0
            };
            assert(cw * 1 <= usize::MAX);
            self.cmd_line_buf.resize_and_clear(cw, 1);
            self.cmd_line.render(&mut self.cmd_line_buf);

            let ghost b1 = *buf;
            if w > 0 {
                buf.set_char(0, cmd_line_y, ':');
            }
            let ghost b2 = *buf;
            buf.blit(1, cmd_line_y, &self.cmd_line_buf, true);
            proof {
                assert forall|i: int, j: int|
                    0 <= i < b0.spec_width() && 0 <= j < b0.spec_height() implies
                    #[trigger] buf.spec_cell(i, j) == (if j < b0.spec_height() - 1 {
                    self.main_buf.spec_cell(i, j)
                } else if i == 0 {
                    Cell { c: ':', style: b0.spec_cell(i, j).style }
                } else if i < 1 + self.cmd_line_buf.spec_width() {
                    self.cmd_line_buf.spec_cell(i - 1, 0)
                } else {
                    b0.spec_cell(i, j)
                }) by {
                    assert(b1.spec_cell(i, j) == (if 0 <= i < self.main_buf.spec_width() && 0 <= j
                        < self.main_buf.spec_height() {
                        self.main_buf.spec_cell(i, j)
                    } else {
                        b0.spec_cell(i, j)
                    }));
                    assert(b2.spec_cell(i, j) == (if w > 0 && i == 0 && j == b0.spec_height() - 1 {
                        Cell { c: ':', style: b1.spec_cell(i, j).style }
                    } else {
                        b1.spec_cell(i, j)
                    }));
                }
            }
        } else {
            proof {
                assert forall|i: int, j: int|
                    0 <= i < b0.spec_width() && 0 <= j < b0.spec_height() implies
                    #[trigger] buf.spec_cell(i, j) == (if j < b0.spec_height() - 1 {
                    self.main_buf.spec_cell(i, j)
                } else {
                    b0.spec_cell(i, j)
                }) by {
                }
            }
        }
    }
}

} // verus!
