//! The stand-alone editor widget of the command-queue engine: the same
//! text and ghost-column cursor model as the editing pane, driven
//! directly by raw key events without modes.

use vstd::prelude::*;

use crate::buffer::Buffer;
use crate::command::CommandWriter;
use crate::editor::pane::render_text;
use crate::editor::pane::Pos;
use crate::event::Event;
use crate::event::KeyCode;
use crate::event::Modifiers;
use crate::nav::end_at;
use crate::nav::home_at;
use crate::nav::horizontal_at;
use crate::nav::line_len_at;
use crate::nav::pos_to_xy_at;
use crate::nav::vertical_at;
use crate::rope::rope_chars;
use crate::rope::rope_insert;
use crate::rope::rope_insert_char;
use crate::rope::rope_len_chars;
use crate::rope::rope_len_lines;
use crate::rope::rope_new;
use crate::rope::rope_try_remove;
use crate::text::line_count;
use crate::text::line_of;
use crate::text::line_start;
use crate::text::nav_line_len;
use crate::text::spec_end_move;
use crate::text::spec_home_move;
use crate::text::spec_horizontal_move;
use crate::text::spec_vertical_move;
use crate::widget::Widget;

verus! {

/// A modeless editing widget: text, cursor, and ghost column.
pub struct Editor {
    pub rope: ropey::Rope,
    pub cursor_pos: usize,
    pub cursor_ghost_pos: usize,
}

/// How one raw event transforms the editor: unmodified keys edit and
/// navigate, injected text inserts as a block, and everything else
/// leaves the editor unchanged.
pub open spec fn ed_step(o: Editor, n: Editor, event: Event) -> bool {
    let s = rope_chars(o.rope);
    match event {
        Event::Key(k) => if k.modifiers == Modifiers::spec_empty() {
            match k.key_code {
                KeyCode::Char(c) => rope_chars(n.rope) == s.insert(o.cursor_pos as int, c)
                    && n.cursor_pos == o.cursor_pos + 1 && n.cursor_ghost_pos == n.cursor_pos,
                KeyCode::Return => rope_chars(n.rope) == s.insert(o.cursor_pos as int, '\n')
                    && n.cursor_pos == o.cursor_pos + 1 && n.cursor_ghost_pos == n.cursor_pos,
                KeyCode::Delete => n.cursor_pos == o.cursor_pos && (if o.cursor_pos < s.len() {
                    rope_chars(n.rope) == s.take(o.cursor_pos as int) + s.skip(o.cursor_pos + 1)
                        && n.cursor_ghost_pos == (if o.cursor_ghost_pos <= s.len() - 1 {
                        o.cursor_ghost_pos as int
                    } else {
                        s.len() - 1
                    })
                } else {
                    rope_chars(n.rope) == s && n.cursor_ghost_pos == o.cursor_ghost_pos
                }),
                KeyCode::Backspace => (if o.cursor_pos > 0 {
                    rope_chars(n.rope) == s.take(o.cursor_pos - 1) + s.skip(o.cursor_pos as int)
                        && n.cursor_pos == o.cursor_pos - 1
                } else {
                    rope_chars(n.rope) == s && n.cursor_pos == 0
                }) && n.cursor_ghost_pos == n.cursor_pos,
                KeyCode::Left => rope_chars(n.rope) == s && n.cursor_pos == spec_horizontal_move(
                    s,
                    o.cursor_pos as int,
                    -1,
                ) && n.cursor_ghost_pos == n.cursor_pos,
                KeyCode::Right => rope_chars(n.rope) == s && n.cursor_pos == spec_horizontal_move(
                    s,
                    o.cursor_pos as int,
                    1,
                ) && n.cursor_ghost_pos == n.cursor_pos,
                KeyCode::Up => rope_chars(n.rope) == s && (n.cursor_pos as int,
                    n.cursor_ghost_pos as int) == spec_vertical_move(
                    s,
                    o.cursor_pos as int,
                    o.cursor_ghost_pos as int,
                    -1,
                ),
                KeyCode::Down => rope_chars(n.rope) == s && (n.cursor_pos as int,
                    n.cursor_ghost_pos as int) == spec_vertical_move(
                    s,
                    o.cursor_pos as int,
                    o.cursor_ghost_pos as int,
                    1,
                ),
                KeyCode::Home => rope_chars(n.rope) == s && n.cursor_pos == spec_home_move(
                    s,
                    o.cursor_pos as int,
                ) && n.cursor_ghost_pos == n.cursor_pos,
                KeyCode::End => rope_chars(n.rope) == s && n.cursor_pos == spec_end_move(
                    s,
                    o.cursor_pos as int,
                ) && n.cursor_ghost_pos == n.cursor_pos,
                _ => n == o,
            }
        } else {
            n == o
        },
        Event::Str(st) => rope_chars(n.rope) == s.take(o.cursor_pos as int) + st@ + s.skip(
            o.cursor_pos as int,
        ) && n.cursor_pos == o.cursor_pos + st@.len() && n.cursor_ghost_pos == n.cursor_pos,
    }
}

impl Editor {
    /// The editor's text.
    pub open spec fn text(self) -> Seq<char> {
        rope_chars(self.rope)
    }

    /// The cursor and its ghost always lie within the text.
    pub open spec fn wf(self) -> bool {
        self.cursor_pos <= self.text().len() && self.cursor_ghost_pos <= self.text().len()
    }

    /// The editor's screen coordinates for an absolute position.
    pub fn pos_to_xy(&self, pos: usize) -> (r: Option<Pos>)
        requires
            self.wf(),
            pos <= self.text().len(),
        ensures
            r == Some(
                Pos {
                    x: (pos - line_start(
                        self.text(),
                        line_of(self.text(), pos as int) as int,
                    )) as usize,
                    y: line_of(self.text(), pos as int) as usize,
                },
            ),
    {
        let (x, y) = pos_to_xy_at(&self.rope, pos);
        Some(Pos { x, y })
    }

    /// The navigable length of a line, or `None` past the last line.
    pub fn line_len(&self, line_y: usize) -> (r: Option<usize>)
        requires
            self.wf(),
        ensures
            line_y < line_count(self.text()) ==> r == Some(
                nav_line_len(self.text(), line_y as int) as usize,
            ),
            line_y >= line_count(self.text()) ==> r is None,
    {
        let nlines = rope_len_lines(&self.rope);
        if line_y < nlines {
            Some(line_len_at(&self.rope, line_y))
        } else {
            None
        }
    }

    /// Moves the cursor horizontally; the ghost follows.
    pub fn move_cursor(&mut self, offset: isize)
        requires
            old(self).wf(),
        ensures
            final(self).wf(),
            final(self).text() == old(self).text(),
            final(self).cursor_pos == spec_horizontal_move(
                old(self).text(),
                old(self).cursor_pos as int,
                offset as int,
            ),
            final(self).cursor_ghost_pos == final(self).cursor_pos,
    {
        let new_pos = horizontal_at(&self.rope, self.cursor_pos, offset);
        self.cursor_pos = new_pos;
        self.cursor_ghost_pos = new_pos;
    }

    /// Moves the cursor vertically, carrying the ghost column.
    pub fn move_cursor_vertical(&mut self, offset: isize)
        requires
            old(self).wf(),
        ensures
            final(self).wf(),
            final(self).text() == old(self).text(),
            (final(self).cursor_pos as int, final(self).cursor_ghost_pos as int)
                == spec_vertical_move(
                old(self).text(),
                old(self).cursor_pos as int,
                old(self).cursor_ghost_pos as int,
                offset as int,
            ),
    {
        let (p, g) = vertical_at(&self.rope, self.cursor_pos, self.cursor_ghost_pos, offset);
        self.cursor_pos = p;
        self.cursor_ghost_pos = g;
    }

    /// Moves to the start of the current line; the ghost follows.
    pub fn move_cursor_home(&mut self)
        requires
            old(self).wf(),
        ensures
            final(self).wf(),
            final(self).text() == old(self).text(),
            final(self).cursor_pos == spec_home_move(old(self).text(), old(self).cursor_pos as int),
            final(self).cursor_ghost_pos == final(self).cursor_pos,
    {
        let p = home_at(&self.rope, self.cursor_pos);
        self.cursor_pos = p;
        self.cursor_ghost_pos = p;
    }

    /// Moves to the navigable end of the current line; the ghost
    /// follows.
    pub fn move_cursor_end(&mut self)
        requires
            old(self).wf(),
        ensures
            final(self).wf(),
            final(self).text() == old(self).text(),
            final(self).cursor_pos == spec_end_move(old(self).text(), old(self).cursor_pos as int),
            final(self).cursor_ghost_pos == final(self).cursor_pos,
    {
        let p = end_at(&self.rope, self.cursor_pos);
        self.cursor_pos = p;
        self.cursor_ghost_pos = p;
    }
}

impl Default for Editor {
    /// An empty editor.
    fn default() -> (r: Editor)
        ensures
            r.wf(),
            r.text() == Seq::<char>::empty(),
            r.cursor_pos == 0,
            r.cursor_ghost_pos == 0,
    {
        Editor { rope: rope_new(), cursor_pos: 0, cursor_ghost_pos: 0 }
    }
}

impl Widget for Editor {
    open spec fn inv(&self) -> bool {
        self.wf()
    }

    fn handle_event(&mut self, event: Event, cmds: &mut CommandWriter)
        ensures
            *final(cmds) == *old(cmds),
            ed_step(*old(self), *final(self), event),
    {
        match event {
            Event::Key(k) => {
                if !k.modifiers.is_empty() {
                    return ;
                }
                match k.key_code {
                    KeyCode::Char(c) => {
                        rope_insert_char(&mut self.rope, self.cursor_pos, c);
                        let newlen = rope_len_chars(&self.rope);
                        assert(self.cursor_pos + 1 <= newlen);
                        self.cursor_pos = self.cursor_pos + 1;
                        self.cursor_ghost_pos = self.cursor_pos;
                    },
                    KeyCode::Return => {
                        rope_insert_char(&mut self.rope, self.cursor_pos, '\n');
                        let newlen = rope_len_chars(&self.rope);
                        assert(self.cursor_pos + 1 <= newlen);
                        self.cursor_pos = self.cursor_pos + 1;
                        self.cursor_ghost_pos = self.cursor_pos;
                    },
                    KeyCode::Delete => {
                        let len = rope_len_chars(&self.rope);
                        if self.cursor_pos < len {
                            let removed = rope_try_remove(
                                &mut self.rope,
                                self.cursor_pos,
                                self.cursor_pos + 1,
                            );
                            proof {
                                assert(removed);
                            }
                            let newlen = rope_len_chars(&self.rope);
                            if self.cursor_ghost_pos > newlen {
                                self.cursor_ghost_pos = newlen;
                            }
                        }
                    },
                    KeyCode::Backspace => {
                        if self.cursor_pos > 0 {
                            let removed = rope_try_remove(
                                &mut self.rope,
                                self.cursor_pos - 1,
                                self.cursor_pos,
                            );
                            proof {
                                assert(removed);
                            }
                            self.cursor_pos = self.cursor_pos - 1;
                        }
                        self.cursor_ghost_pos = self.cursor_pos;
                    },
                    KeyCode::Left => self.move_cursor(-1),
                    KeyCode::Right => self.move_cursor(1),
                    KeyCode::Up => self.move_cursor_vertical(-1),
                    KeyCode::Down => self.move_cursor_vertical(1),
                    KeyCode::Home => self.move_cursor_home(),
                    KeyCode::End => self.move_cursor_end(),
                    _ => {},
                }
            },
            Event::Str(s) => {
                let ghost oldtext = rope_chars(self.rope);
                rope_insert(&mut self.rope, self.cursor_pos, s.as_str());
                let added = s.as_str().unicode_len();
                let newlen = rope_len_chars(&self.rope);
                proof {
                    assert(rope_chars(self.rope).len() == oldtext.len() + s@.len());
                }
                assert(self.cursor_pos + added <= newlen);
                self.cursor_pos = self.cursor_pos + added;
                self.cursor_ghost_pos = self.cursor_pos;
            },
        }
    }

    fn update(&mut self, cmds: &mut CommandWriter)
        ensures
            *final(self) == *old(self),
            *final(cmds) == *old(cmds),
    {
    }

    fn render(&mut self, buf: &mut Buffer)
        ensures
            *final(self) == *old(self),
            forall|x: int, y: int|
                0 <= x < old(buf).spec_width() && 0 <= y < old(buf).spec_height()
                    ==> #[trigger] final(buf).spec_cell(x, y)
                    == crate::editor::pane::spec_rendered_cell(
                    old(self).text(),
                    *old(buf),
                    x,
                    y,
                ),
            final(buf).spec_cursor() == crate::editor::pane::spec_render_cursor(
                old(self).text(),
                old(self).cursor_pos as int,
                *old(buf),
            ),
    {
        crate::editor::pane::render_with_cursor(&self.rope, self.cursor_pos, buf);
    }
}

} // verus!
