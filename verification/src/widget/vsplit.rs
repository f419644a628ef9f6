//! The vertical split of the command-queue engine: two stacked
//! children with a focus switched by Shift+Up and Shift+Down; every
//! other event reaches the focused child alone.

use vstd::prelude::*;

use crate::buffer::spec_translate_cursor;
use crate::buffer::Buffer;
use crate::command::CommandWriter;
use crate::editor::vsplit::spec_split_sizes;
use crate::editor::vsplit::Focus;
use crate::event::Event;
use crate::event::KeyCode;
use crate::event::KeyEvent;
use crate::event::Modifiers;
use crate::widget::Widget;

verus! {

/// Two widgets stacked vertically, with explicit or even size
/// allocation and an input focus.
pub struct VSplit<T, B> {
    pub top: T,
    pub bottom: B,
    pub top_constraint: Option<usize>,
    pub bottom_constraint: Option<usize>,
    pub top_buffer: Buffer,
    pub bottom_buffer: Buffer,
    pub focus: Focus,
}

impl<T, B> VSplit<T, B> {
    /// A split of the two children, focused on the top child.
    pub fn new(top: T, bottom: B, top_constraint: Option<usize>, bottom_constraint: Option<usize>)
        -> (r: VSplit<T, B>)
        ensures
            r.top == top,
            r.bottom == bottom,
            r.top_constraint == top_constraint,
            r.bottom_constraint == bottom_constraint,
            r.focus == Focus::Top,
            r.top_buffer.wf(),
            r.bottom_buffer.wf(),
    {
        VSplit {
            top,
            bottom,
            top_constraint,
            bottom_constraint,
            top_buffer: Buffer::new(0, 0),
            bottom_buffer: Buffer::new(0, 0),
            focus: Focus::Top,
        }
    }
}

/// The focus chord moving focus to the bottom child.
pub open spec fn spec_is_focus_down(event: Event) -> bool {
    event == Event::Key(KeyEvent { key_code: KeyCode::Down, modifiers: Modifiers::spec_shift() })
}

/// The focus chord moving focus to the top child.
pub open spec fn spec_is_focus_up(event: Event) -> bool {
    event == Event::Key(KeyEvent { key_code: KeyCode::Up, modifiers: Modifiers::spec_shift() })
}

impl<T: Widget, B: Widget> Widget for VSplit<T, B> {
    open spec fn inv(&self) -> bool {
        self.top.inv() && self.bottom.inv() && self.top_buffer.wf() && self.bottom_buffer.wf()
    }

    /// Focus exclusivity: the focus chords switch focus and touch
    /// neither child; every other event reaches the focused child
    /// alone — the unfocused child is untouched.
    fn handle_event(&mut self, event: Event, cmds: &mut CommandWriter)
        ensures
            final(self).top_constraint == old(self).top_constraint,
            final(self).bottom_constraint == old(self).bottom_constraint,
            spec_is_focus_down(event) ==> final(self).focus == Focus::Bottom && final(self).top
                == old(self).top && final(self).bottom == old(self).bottom,
            spec_is_focus_up(event) ==> final(self).focus == Focus::Top && final(self).top == old(
                self,
            ).top && final(self).bottom == old(self).bottom,
            !spec_is_focus_down(event) && !spec_is_focus_up(event) ==> final(self).focus == old(
                self,
            ).focus && (old(self).focus == Focus::Top ==> final(self).bottom == old(self).bottom)
                && (old(self).focus == Focus::Bottom ==> final(self).top == old(self).top),
    {
        let is_key_chord: bool = match &event {
            Event::Key(k) => {
                if k.key_code == KeyCode::Down && k.modifiers == Modifiers::shift() {
                    self.focus = Focus::Bottom;
                    true
                } else if k.key_code == KeyCode::Up && k.modifiers == Modifiers::shift() {
                    self.focus = Focus::Top;
                    true
                } else {
                    false
                }
            },
            _ => false,
        };
        if !is_key_chord {
            match self.focus {
                Focus::Top => self.top.handle_event(event, cmds),
                Focus::Bottom => self.bottom.handle_event(event, cmds),
            }
        }
    }

    fn update(&mut self, cmds: &mut CommandWriter) {
        self.top.update(cmds);
        self.bottom.update(cmds);
        proof {
            assert(old(cmds).spec_queue().is_prefix_of(cmds.spec_queue()));
        }
    }

    /// Renders both children into sub-buffers sized by the allocation
    /// and composes them; only the focused child's cursor is copied.
    fn render(&mut self, buf: &mut Buffer)
        ensures
            final(self).top_buffer.spec_width() == old(buf).spec_width(),
            final(self).bottom_buffer.spec_width() == old(buf).spec_width(),
            (final(self).top_buffer.spec_height() as int,
                final(self).bottom_buffer.spec_height() as int) == spec_split_sizes(
                old(self).top_constraint,
                old(self).bottom_constraint,
                old(buf).spec_height() as int,
            ),
            final(buf).spec_cursor() == (if old(self).focus == Focus::Top {
                spec_translate_cursor(final(self).top_buffer.spec_cursor(), 0, 0)
            } else {
                spec_translate_cursor(
                    final(self).bottom_buffer.spec_cursor(),
                    0,
                    final(self).top_buffer.spec_height() as int,
                )
            }),
            forall|i: int, j: int|
                0 <= i < old(buf).spec_width() && 0 <= j < old(buf).spec_height()
                    ==> #[trigger] final(buf).spec_cell(i, j)
                    == (if j < final(self).top_buffer.spec_height() {
                    final(self).top_buffer.spec_cell(i, j)
                } else if j < final(self).top_buffer.spec_height()
                    + final(self).bottom_buffer.spec_height() {
                    final(self).bottom_buffer.spec_cell(
                        i,
                        j - final(self).top_buffer.spec_height(),
                    )
                } else {
                    old(buf).spec_cell(i, j)
                }),
    {
        let h = buf.height();
        let w = buf.width();
        let top_size: usize;
        let bottom_size: usize;
        match (self.top_constraint, self.bottom_constraint) {
            (Option::None, Option::None) => {
                top_size = h / 2;
                bottom_size = h / 2;
            },
            (Option::Some(_), Option::Some(_)) => {
                top_size = h / 2;
                bottom_size = h / 2;
            },
            (Option::Some(t), Option::None) => {
                top_size = if t <= h {
                    t
                } else {
                    h
                };
                bottom_size = h - top_size;
            },
            (Option::None, Option::Some(b)) => {
                bottom_size = if b <= h {
                    b
                } else {
                    h
                };
                top_size = h - bottom_size;
            },
        }

        proof {
            crate::buffer::lemma_row_major_fits(w as int, top_size as int, h as int);
            crate::buffer::lemma_row_major_fits(w as int, bottom_size as int, h as int);
        }
        self.top_buffer.resize_and_clear(w, top_size);
        self.bottom_buffer.resize_and_clear(w, bottom_size);

        self.top.render(&mut self.top_buffer);
        self.bottom.render(&mut self.bottom_buffer);

        let top_focus = match self.focus {
            Focus::Top => true,
            Focus::Bottom => false,
        };
        let ghost b0 = *buf;
        buf.blit(0, 0, &self.top_buffer, top_focus);
        let ghost b1 = *buf;
        buf.blit(0, top_size, &self.bottom_buffer, !top_focus);
        proof {
            assert forall|i: int, j: int|
                0 <= i < b0.spec_width() && 0 <= j < b0.spec_height() implies
                #[trigger] buf.spec_cell(i, j) == (if j < top_size {
                self.top_buffer.spec_cell(i, j)
            } else if j < top_size + self.bottom_buffer.spec_height() {
                self.bottom_buffer.spec_cell(i, j - top_size)
            } else {
                b0.spec_cell(i, j)
            }) by {
                assert(b1.spec_cell(i, j) == (if 0 <= i < self.top_buffer.spec_width() && 0 <= j
                    < self.top_buffer.spec_height() {
                    self.top_buffer.spec_cell(i, j)
                } else {
                    b0.spec_cell(i, j)
                }));
            }
        }
    }
}

} // verus!
