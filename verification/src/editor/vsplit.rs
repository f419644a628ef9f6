//! The vertical split: two child widgets stacked with explicit or even
//! size allocation, and an input focus that routes every non-reserved
//! event to exactly one child.

use vstd::prelude::*;

use crate::buffer::spec_translate_cursor;
use crate::buffer::Buffer;
use crate::editor::event::VSplitEvent;
use crate::editor::keymaps::spec_vsplit;
use crate::editor::EditorState;
use crate::event::dup_event;
use crate::event::Event;
use crate::ui::ControlFlow;
use crate::ui::Widget;

verus! {

/// Which child currently receives routed input. Being an enumeration,
/// exactly one of the two values holds at any time.
#[derive(Debug, Clone, Copy, PartialEq, Eq, Structural)]
pub enum Focus {
    Top,
    Bottom,
}

/// Two widgets stacked vertically. Size allocation: with both or
/// neither constraint set, the height splits evenly; with exactly one,
/// that child gets its constraint (clipped to the available height)
/// and the other the remainder.
pub struct VSplit<T, B> {
    pub top: T,
    pub bottom: B,
    pub top_constraint: Option<usize>,
    pub bottom_constraint: Option<usize>,
    pub top_buffer: Buffer,
    pub bottom_buffer: Buffer,
    pub focus: Focus,
}

/// The heights allocated to the two children.
pub open spec fn spec_split_sizes(
    tc: Option<usize>,
    bc: Option<usize>,
    h: int,
) -> (int, int) {
    match (tc, bc) {
        (Option::None, Option::None) => (h / 2, h / 2),
        (Option::Some(t), Option::Some(b)) => (h / 2, h / 2),
        (Option::Some(t), Option::None) => {
            let ts = if t <= h {
                t as int
            } else {
                h
            };
            (ts, h - ts)
        },
        (Option::None, Option::Some(b)) => {
            let bs = if b <= h {
                b as int
            } else {
                h
            };
            (h - bs, bs)
        },
    }
}

impl<T, B> VSplit<T, B> {
    /// A split of the two children with the given constraints, focused
    /// on the top child.
    pub fn new(top: T, bottom: B, top_constraint: Option<usize>, bottom_constraint: Option<usize>)
        -> (r: VSplit<T, B>)
        ensures
            r.top == top,
            r.bottom == bottom,
            r.top_constraint == top_constraint,
            r.bottom_constraint == bottom_constraint,
            r.focus == Focus::Top,
            r.top_buffer.wf(),
            r.bottom_buffer.wf(),
    {
        VSplit {
            top,
            bottom,
            top_constraint,
            bottom_constraint,
            top_buffer: Buffer::new(0, 0),
            bottom_buffer: Buffer::new(0, 0),
            focus: Focus::Top,
        }
    }
}

/// Law (focus exclusivity): the focus is always exactly one of the
/// two children — never neither, never both. Together with
/// `handle_event`'s contract, which routes every non-reserved event to
/// the focused child and leaves the other untouched, this is the
/// split's routing guarantee.
pub proof fn lemma_focus_exclusive(f: Focus)
    ensures
        (f == Focus::Top) <==> !(f == Focus::Bottom),
{
}

impl<T: Widget<EditorState>, B: Widget<EditorState>> Widget<EditorState> for VSplit<T, B> {
    open spec fn state_ok(state: EditorState) -> bool {
        state.wf() && T::state_ok(state) && B::state_ok(state)
    }

    open spec fn inv(&self) -> bool {
        self.top.inv() && self.bottom.inv() && self.top_buffer.wf() && self.bottom_buffer.wf()
    }

    /// Focus exclusivity: a reserved focus chord only switches focus
    /// when not already at that edge (and touches neither child); any
    /// other event reaches the focused child alone — the unfocused
    /// child is untouched.
    fn handle_event(&mut self, state: &mut EditorState, event: &Event) -> (r: Option<ControlFlow>)
        ensures
            final(self).top_constraint == old(self).top_constraint,
            final(self).bottom_constraint == old(self).bottom_constraint,
            match spec_vsplit(*event) {
                Some(ve) => match ve {
                    VSplitEvent::FocusUp => if old(self).focus == Focus::Bottom {
                        r == Some(ControlFlow::Continue) && final(self).focus == Focus::Top
                            && final(self).top == old(self).top && final(self).bottom == old(self).bottom
                    } else {
                        r is None && *final(self) == *old(self)
                    },
                    VSplitEvent::FocusDown => if old(self).focus == Focus::Top {
                        r == Some(ControlFlow::Continue) && final(self).focus == Focus::Bottom
                            && final(self).top == old(self).top && final(self).bottom == old(self).bottom
                    } else {
                        r is None && *final(self) == *old(self)
                    },
                },
                None => final(self).focus == old(self).focus && (old(self).focus == Focus::Top
                    ==> final(self).bottom == old(self).bottom) && (old(self).focus == Focus::Bottom
                    ==> final(self).top == old(self).top),
            },
    {
        match state.key_maps.vsplit(dup_event(event)) {
            Ok(ve) => {
                match ve {
                    VSplitEvent::FocusUp => {
                        if self.focus == Focus::Bottom {
                            self.focus = Focus::Top;
                            Some(ControlFlow::Continue)
                        } else {
                            None
                        }
                    },
                    VSplitEvent::FocusDown => {
                        if self.focus == Focus::Top {
                            self.focus = Focus::Bottom;
                            Some(ControlFlow::Continue)
                        } else {
                            None
                        }
                    },
                }
            },
            Err(_) => {
                match self.focus {
                    Focus::Top => self.top.handle_event(state, event),
                    Focus::Bottom => self.bottom.handle_event(state, event),
                }
            },
        }
    }

    fn update(&mut self, state: &mut EditorState) -> (r: ControlFlow) {
        match self.top.update(state) {
            ControlFlow::Exit => ControlFlow::Exit,
            ControlFlow::Continue => self.bottom.update(state),
        }
    }

    /// Renders both children into sub-buffers sized by the allocation
    /// and composes them; only the focused child's cursor is copied.
    fn render(&mut self, buf: &mut Buffer)
        ensures
            final(self).top_buffer.spec_width() == old(buf).spec_width(),
            final(self).bottom_buffer.spec_width() == old(buf).spec_width(),
            (final(self).top_buffer.spec_height() as int,
                final(self).bottom_buffer.spec_height() as int) == spec_split_sizes(
                old(self).top_constraint,
                old(self).bottom_constraint,
                old(buf).spec_height() as int,
            ),
            final(buf).spec_cursor() == (if old(self).focus == Focus::Top {
                spec_translate_cursor(final(self).top_buffer.spec_cursor(), 0, 0)
            } else {
                spec_translate_cursor(
                    final(self).bottom_buffer.spec_cursor(),
                    0,
                    final(self).top_buffer.spec_height() as int,
                )
            }),
            forall|i: int, j: int|
                0 <= i < old(buf).spec_width() && 0 <= j < old(buf).spec_height()
                    ==> #[trigger] final(buf).spec_cell(i, j)
                    == (if j < final(self).top_buffer.spec_height() {
                    final(self).top_buffer.spec_cell(i, j)
                } else if j < final(self).top_buffer.spec_height()
                    + final(self).bottom_buffer.spec_height() {
                    final(self).bottom_buffer.spec_cell(
                        i,
                        j - final(self).top_buffer.spec_height(),
                    )
                } else {
                    old(buf).spec_cell(i, j)
                }),
    {
        let h = buf.height();
        let w = buf.width();
        let top_size: usize;
        let bottom_size: usize;
        match (self.top_constraint, self.bottom_constraint) {
            (Option::None, Option::None) => {
                top_size = h / 2;
                bottom_size = h / 2;
            },
            (Option::Some(_), Option::Some(_)) => {
                top_size = h / 2;
                bottom_size = h / 2;
            },
            (Option::Some(t), Option::None) => {
                top_size = if t <= h {
                    t
                } else {
                    h
                };
                bottom_size = h - top_size;
            },
            (Option::None, Option::Some(b)) => {
                bottom_size = if b <= h {
                    b
                } else {
                    h
                };
                top_size = h - bottom_size;
            },
        }

        proof {
            crate::buffer::lemma_row_major_fits(w as int, top_size as int, h as int);
            crate::buffer::lemma_row_major_fits(w as int, bottom_size as int, h as int);
        }
        self.top_buffer.resize_and_clear(w, top_size);
        self.bottom_buffer.resize_and_clear(w, bottom_size);

        self.top.render(&mut self.top_buffer);
        self.bottom.render(&mut self.bottom_buffer);

        let top_focus = match self.focus {
            Focus::Top => true,
            Focus::Bottom => false,
        };
        let ghost b0 = *buf;
        buf.blit(0, 0, &self.top_buffer, top_focus);
        let ghost b1 = *buf;
        buf.blit(0, top_size, &self.bottom_buffer, !top_focus);
        proof {
            assert forall|i: int, j: int|
                0 <= i < b0.spec_width() && 0 <= j < b0.spec_height() implies
                #[trigger] buf.spec_cell(i, j) == (if j < top_size {
                self.top_buffer.spec_cell(i, j)
            } else if j < top_size + self.bottom_buffer.spec_height() {
                self.bottom_buffer.spec_cell(i, j - top_size)
            } else {
                b0.spec_cell(i, j)
            }) by {
                assert(b1.spec_cell(i, j) == (if 0 <= i < self.top_buffer.spec_width() && 0 <= j
                    < self.top_buffer.spec_height() {
                    self.top_buffer.spec_cell(i, j)
                } else {
                    b0.spec_cell(i, j)
                }));
            }
        }
    }
}

} // verus!
