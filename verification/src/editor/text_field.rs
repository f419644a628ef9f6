//! The single-line text field backing the command line: direct key
//! handling (no modes), a cursor without a ghost column.

use vstd::prelude::*;

use crate::buffer::Buffer;
use crate::buffer::Cell;
use crate::editor::EditorState;
use crate::event::Event;
use crate::event::KeyCode;
use crate::event::Modifiers;
use crate::rope::rope_chars;
use crate::rope::rope_insert;
use crate::rope::rope_insert_char;
use crate::rope::rope_len_chars;
use crate::rope::rope_new;
use crate::rope::rope_to_string;
use crate::rope::rope_to_vec;
use crate::rope::rope_try_remove;
use crate::text::spec_clamp;
use crate::ui::ControlFlow;
use crate::ui::Widget;

verus! {

/// A one-line editable field: its text and cursor position.
pub struct TextField {
    pub rope: ropey::Rope,
    pub cursor_pos: usize,
}

/// Whether the field consumes a raw event: any unmodified key it
/// understands, or injected text.
pub open spec fn tf_accepts(event: Event) -> bool {
    match event {
        Event::Key(k) => k.modifiers == Modifiers::spec_empty() && match k.key_code {
            KeyCode::Return => true,
            KeyCode::Char(_) => true,
            KeyCode::Delete => true,
            KeyCode::Backspace => true,
            KeyCode::Left => true,
            KeyCode::Right => true,
            KeyCode::Home => true,
            KeyCode::End => true,
            _ => false,
        },
        Event::Str(_) => true,
    }
}

/// How a consumed event transforms the field; an event the field does
/// not accept leaves it unchanged.
pub open spec fn tf_step(o: TextField, n: TextField, event: Event) -> bool {
    let s = rope_chars(o.rope);
    match event {
        Event::Key(k) => if k.modifiers == Modifiers::spec_empty() {
            match k.key_code {
                KeyCode::Return => rope_chars(n.rope) == s.insert(o.cursor_pos as int, '\n')
                    && n.cursor_pos == o.cursor_pos + 1,
                KeyCode::Char(c) => rope_chars(n.rope) == s.insert(o.cursor_pos as int, c)
                    && n.cursor_pos == o.cursor_pos + 1,
                KeyCode::Delete => n.cursor_pos == o.cursor_pos && (if o.cursor_pos < s.len() {
                    rope_chars(n.rope) == s.take(o.cursor_pos as int) + s.skip(o.cursor_pos + 1)
                } else {
                    rope_chars(n.rope) == s
                }),
                KeyCode::Backspace => (if o.cursor_pos > 0 {
                    rope_chars(n.rope) == s.take(o.cursor_pos - 1) + s.skip(o.cursor_pos as int)
                        && n.cursor_pos == o.cursor_pos - 1
                } else {
                    rope_chars(n.rope) == s && n.cursor_pos == 0
                }),
                KeyCode::Left => rope_chars(n.rope) == s && n.cursor_pos == spec_clamp(
                    o.cursor_pos - 1,
                    s.len() as int,
                ),
                KeyCode::Right => rope_chars(n.rope) == s && n.cursor_pos == spec_clamp(
                    o.cursor_pos + 1,
                    s.len() as int,
                ),
                KeyCode::Home => rope_chars(n.rope) == s && n.cursor_pos == 0,
                KeyCode::End => rope_chars(n.rope) == s && n.cursor_pos == s.len(),
                _ => n == o,
            }
        } else {
            n == o
        },
        Event::Str(st) => rope_chars(n.rope) == s.take(o.cursor_pos as int) + st@ + s.skip(
            o.cursor_pos as int,
        ) && n.cursor_pos == o.cursor_pos + st@.len(),
    }
}

impl TextField {
    /// The field's text.
    pub open spec fn text(self) -> Seq<char> {
        rope_chars(self.rope)
    }

    /// The cursor always lies within the text.
    pub open spec fn wf(self) -> bool {
        self.cursor_pos <= self.text().len()
    }

    /// The field's contents as a string.
    pub fn value(&self) -> (r: String)
        ensures
            r@ == self.text(),
    {
        rope_to_string(&self.rope)
    }

    /// Empties the field and homes the cursor.
    pub fn clear(&mut self)
        ensures
            final(self).wf(),
            final(self).text() == Seq::<char>::empty(),
            final(self).cursor_pos == 0,
    {
        self.rope = rope_new();
        self.cursor_pos = 0;
    }

    /// Moves the cursor by `offset`, clamped to the text.
    pub fn move_cursor(&mut self, offset: isize)
        requires
            old(self).wf(),
        ensures
            final(self).wf(),
            final(self).text() == old(self).text(),
            final(self).cursor_pos == spec_clamp(
                old(self).cursor_pos + offset,
                old(self).text().len() as int,
            ),
    {
        let p = crate::nav::horizontal_at(&self.rope, self.cursor_pos, offset);
        self.cursor_pos = p;
    }
}

impl Default for TextField {
    fn default() -> (r: TextField)
        ensures
            r.wf(),
            r.text() == Seq::<char>::empty(),
            r.cursor_pos == 0,
    {
        TextField { rope: rope_new(), cursor_pos: 0 }
    }
}

impl Widget<EditorState> for TextField {
    open spec fn state_ok(state: EditorState) -> bool {
        state.wf()
    }

    open spec fn inv(&self) -> bool {
        self.wf()
    }

    fn handle_event(&mut self, state: &mut EditorState, event: &Event) -> (r: Option<ControlFlow>)
        ensures
            *final(state) == *old(state),
            r == (if tf_accepts(*event) {
                Some(ControlFlow::Continue)
            } else {
                Option::<ControlFlow>::None
            }),
            tf_step(*old(self), *final(self), *event),
    {
        match event {
            Event::Key(k) => {
                if !k.modifiers.is_empty() {
                    return None;
                }
                match k.key_code {
                    KeyCode::Return => {
                        rope_insert_char(&mut self.rope, self.cursor_pos, '\n');
                        let newlen = rope_len_chars(&self.rope);
                        assert(self.cursor_pos + 1 <= newlen);
                        self.cursor_pos = self.cursor_pos + 1;
                    },
                    KeyCode::Char(c) => {
                        rope_insert_char(&mut self.rope, self.cursor_pos, c);
                        let newlen = rope_len_chars(&self.rope);
                        assert(self.cursor_pos + 1 <= newlen);
                        self.cursor_pos = self.cursor_pos + 1;
                    },
                    KeyCode::Delete => {
                        let len = rope_len_chars(&self.rope);
                        if self.cursor_pos < len {
                            let removed = rope_try_remove(
                                &mut self.rope,
                                self.cursor_pos,
                                self.cursor_pos + 1,
                            );
                            proof {
                                assert(removed);
                            }
                        }
                    },
                    KeyCode::Backspace => {
                        if self.cursor_pos > 0 {
                            let removed = rope_try_remove(
                                &mut self.rope,
                                self.cursor_pos - 1,
                                self.cursor_pos,
                            );
                            proof {
                                assert(removed);
                            }
                            self.cursor_pos = self.cursor_pos - 1;
                        }
                    },
                    KeyCode::Left => self.move_cursor(-1),
                    KeyCode::Right => self.move_cursor(1),
                    KeyCode::Home => {
                        self.cursor_pos = 0;
                    },
                    KeyCode::End => {
                        self.cursor_pos = rope_len_chars(&self.rope);
                    },
                    _ => {
                        return None;
                    },
                }
                Some(ControlFlow::Continue)
            },
            Event::Str(s) => {
                let ghost oldtext = rope_chars(self.rope);
                rope_insert(&mut self.rope, self.cursor_pos, s.as_str());
                let added = s.as_str().unicode_len();
                let newlen = rope_len_chars(&self.rope);
                proof {
                    assert(rope_chars(self.rope).len() == oldtext.len() + s@.len());
                }
                assert(self.cursor_pos + added <= newlen);
                self.cursor_pos = self.cursor_pos + added;
                Some(ControlFlow::Continue)
            },
        }
    }

    fn update(&mut self, state: &mut EditorState) -> (r: ControlFlow)
        ensures
            r == ControlFlow::Continue,
            *final(self) == *old(self),
            *final(state) == *old(state),
    {
        ControlFlow::Continue
    }

    fn render(&mut self, buf: &mut Buffer)
        ensures
            *final(self) == *old(self),
            old(buf).spec_width() == 0 || old(buf).spec_height() == 0 ==> *final(buf) == *old(buf),
            old(buf).spec_width() > 0 && old(buf).spec_height() > 0 ==> {
                &&& forall|i: int, j: int|
                    0 <= i < old(buf).spec_width() && 0 <= j < old(buf).spec_height()
                        ==> #[trigger] final(buf).spec_cell(i, j) == (if j == 0 && i < old(
                        self,
                    ).text().len() && i < old(buf).spec_width() {
                        Cell {
                            c: old(self).text()[i],
                            style: old(buf).spec_cell(i, j).style,
                        }
                    } else {
                        old(buf).spec_cell(i, j)
                    })
                &&& final(buf).spec_cursor() == (if old(self).cursor_pos < old(
                    buf,
                ).spec_width() {
                    Some((old(self).cursor_pos, 0usize))
                } else {
                    old(buf).spec_cursor()
                })
            },
    {
        if buf.height() == 0 || buf.width() == 0 {
            return ;
        }
        let chars = rope_to_vec(&self.rope);
        let w = buf.width();
        let cols = if chars.len() < w {
            chars.len()
        } else {
            w
        };
        crate::editor::pane::paint_row(&chars, buf, 0, 0, cols);
        let ghost mid = *buf;
        if self.cursor_pos < w {
            buf.set_cursor(Some((self.cursor_pos, 0)));
        }
        proof {
            assert forall|i: int, j: int|
                0 <= i < old(buf).spec_width() && 0 <= j < old(buf).spec_height()
                    implies #[trigger] buf.spec_cell(i, j) == (if j == 0 && i < old(
                    self,
                ).text().len() && i < old(buf).spec_width() {
                    Cell { c: old(self).text()[i], style: old(buf).spec_cell(i, j).style }
                } else {
                    old(buf).spec_cell(i, j)
                }) by {
                assert(mid.spec_cell(i, j) == (if j == 0 && i < cols {
                    Cell { c: chars@[0 + i], style: old(buf).spec_cell(i, j).style }
                } else {
                    old(buf).spec_cell(i, j)
                }));
                assert(buf.spec_cell(i, j) == mid.spec_cell(i, j));
            }
        }
    }
}

} // verus!
