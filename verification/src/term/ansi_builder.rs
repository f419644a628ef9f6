//! The escape-code builder: accumulates one frame's terminal output,
//! emitting style codes only for fields that changed, an absolute
//! cursor-position code only when the position changed, and a cursor
//! visibility toggle only when visibility changed.

use vstd::prelude::*;

use crate::chars::push_dec;
use crate::chars::push_str_stripped;
use crate::chars::spec_dec_rep;
use crate::chars::spec_is_control;
use crate::chars::spec_strip_controls;
use crate::style::push_style_transition;
use crate::style::spec_style_transition;
use crate::style::Style;

verus! {

/// One-based screen coordinate for the wire format, saturating at the
/// integer limit.
pub open spec fn spec_one_based(v: int) -> int {
    if v + 1 <= usize::MAX {
        v + 1
    } else {
        usize::MAX as int
    }
}

/// The absolute cursor-position escape for zero-based column `x`,
/// row `y` (the wire format is 1-indexed, row first).
#[verifier::opaque]
pub open spec fn spec_cursor_pos_code(x: int, y: int) -> Seq<char> {
    seq!['\u{1b}', '['] + spec_dec_rep(spec_one_based(y)) + seq![';'] + spec_dec_rep(
        spec_one_based(x),
    ) + seq!['H']
}

/// The cursor show / hide escape.
#[verifier::opaque]
pub open spec fn spec_show_code(vis: bool) -> Seq<char> {
    if vis {
        seq!['\u{1b}', '[', '?', '2', '5', 'h']
    } else {
        seq!['\u{1b}', '[', '?', '2', '5', 'l']
    }
}

/// The full screen-clear escape, emitted once per frame.
#[verifier::opaque]
pub open spec fn spec_clear_code() -> Seq<char> {
    seq!['\u{1b}', '[', '3', 'J']
}

/// Accumulates one frame of terminal output while remembering the last
/// style, cursor position and cursor visibility it emitted.
#[derive(Debug)]
pub struct AnsiBuilder {
    pub s: Vec<char>,
    pub style: Style,
    pub cursor_visible: bool,
    pub cursor_pos: (usize, usize),
}

impl AnsiBuilder {
    /// Everything written so far.
    pub open spec fn spec_output(self) -> Seq<char> {
        self.s@
    }

    /// The style the previous write left active.
    pub open spec fn spec_style(self) -> Style {
        self.style
    }

    /// Whether the cursor is visible after the output so far.
    pub open spec fn spec_visible(self) -> bool {
        self.cursor_visible
    }

    /// The cursor position last emitted.
    pub open spec fn spec_pos(self) -> (usize, usize) {
        self.cursor_pos
    }

    /// The style, position and visibility state, unchanged.
    pub open spec fn same_state(self, other: AnsiBuilder) -> bool {
        self.style == other.style && self.cursor_visible == other.cursor_visible
            && self.cursor_pos == other.cursor_pos
    }

    /// Appends the characters of `s`, dropping control characters.
    pub fn write_str(&mut self, s: &str)
        ensures
            final(self).spec_output() == old(self).spec_output() + spec_strip_controls(s@),
            final(self).same_state(*old(self)),
    {
        push_str_stripped(&mut self.s, s);
    }

    /// Appends `c` unless it is a control character.
    pub fn write_char(&mut self, c: char)
        ensures
            final(self).spec_output() == old(self).spec_output() + (if spec_is_control(c) {
                Seq::<char>::empty()
            } else {
                seq![c]
            }),
            final(self).same_state(*old(self)),
    {
        if !crate::chars::is_control(c) {
            self.s.push(c);
        }
        proof {
            assert(self.s@ =~= old(self).spec_output() + (if spec_is_control(c) {
                Seq::<char>::empty()
            } else {
                seq![c]
            }));
        }
    }

    /// Appends the carriage-return / line-feed pair that separates rows.
    pub fn write_newline(&mut self)
        ensures
            final(self).spec_output() == old(self).spec_output() + seq!['\r', '\n'],
            final(self).same_state(*old(self)),
    {
        self.s.push('\r');
        self.s.push('\n');
        proof {
            assert(self.s@ =~= old(self).spec_output() + seq!['\r', '\n']);
        }
    }

    /// Emits SGR sequences for exactly the fields of `style` that differ
    /// from the style last written, then remembers `style`.
    pub fn write_style(&mut self, style: Style)
        ensures
            final(self).spec_output() == old(self).spec_output() + spec_style_transition(
                old(self).spec_style(),
                style,
            ),
            final(self).spec_style() == style,
            final(self).spec_visible() == old(self).spec_visible(),
            final(self).spec_pos() == old(self).spec_pos(),
    {
        push_style_transition(&mut self.s, self.style, style);
        self.style = style;
    }

    /// Emits the full screen-clear escape.
    pub fn clear_screen(&mut self)
        ensures
            final(self).spec_output() == old(self).spec_output() + spec_clear_code(),
            final(self).same_state(*old(self)),
    {
        self.s.push('\u{1b}');
        self.s.push('[');
        self.s.push('3');
        self.s.push('J');
        proof {
            reveal(spec_clear_code);
            assert(self.s@ =~= old(self).spec_output() + spec_clear_code());
        }
    }

    /// Emits an absolute cursor-position escape, unless the position
    /// equals the one last emitted; remembers the new position.
    pub fn set_cursor_position(&mut self, x: usize, y: usize)
        ensures
            final(self).spec_output() == old(self).spec_output() + (if (x, y) == old(
                self,
            ).spec_pos() {
                Seq::<char>::empty()
            } else {
                spec_cursor_pos_code(x as int, y as int)
            }),
            final(self).spec_pos() == (x, y),
            final(self).spec_style() == old(self).spec_style(),
            final(self).spec_visible() == old(self).spec_visible(),
    {
        let (px, py) = self.cursor_pos;
        if x == px && y == py {
            proof {
                assert(self.s@ =~= old(self).spec_output() + Seq::<char>::empty());
            }
            return ;
        }

        let row = y.saturating_add(1);
        let col = x.saturating_add(1);
        self.s.push('\u{1b}');
        self.s.push('[');
        push_dec(&mut self.s, row);
        self.s.push(';');
        push_dec(&mut self.s, col);
        self.s.push('H');
        self.cursor_pos = (x, y);
        proof {
            reveal(spec_cursor_pos_code);
            assert(row as int == spec_one_based(y as int));
            assert(col as int == spec_one_based(x as int));
            assert(self.s@ =~= old(self).spec_output() + spec_cursor_pos_code(
                x as int,
                y as int,
            ));
        }
    }

    /// Emits a cursor visibility toggle, unless visibility is unchanged;
    /// remembers the new visibility.
    pub fn show_cursor(&mut self, vis: bool)
        ensures
            final(self).spec_output() == old(self).spec_output() + (if vis == old(
                self,
            ).spec_visible() {
                Seq::<char>::empty()
            } else {
                spec_show_code(vis)
            }),
            final(self).spec_visible() == vis,
            final(self).spec_style() == old(self).spec_style(),
            final(self).spec_pos() == old(self).spec_pos(),
    {
        if vis == self.cursor_visible {
            proof {
                assert(self.s@ =~= old(self).spec_output() + Seq::<char>::empty());
            }
            return ;
        }

        self.s.push('\u{1b}');
        self.s.push('[');
        self.s.push('?');
        self.s.push('2');
        self.s.push('5');
        if vis {
            self.s.push('h');
        } else {
            self.s.push('l');
        }
        self.cursor_visible = vis;
        proof {
            reveal(spec_show_code);
            assert(self.s@ =~= old(self).spec_output() + spec_show_code(vis));
        }
    }

    /// Resets the style to the default and hands back everything written.
    pub fn finish(self) -> (r: String)
        ensures
            r@ == self.spec_output() + spec_style_transition(
                self.spec_style(),
                Style::spec_default(),
            ),
    {
        let mut this = self;
        this.write_style(Style::default());
        crate::chars::chars_to_string(&this.s)
    }
}

impl Default for AnsiBuilder {
    /// A fresh builder: it starts by homing the cursor and hiding it, so
    /// the frame that follows draws over a known screen state.
    fn default() -> (r: AnsiBuilder)
        ensures
            r.spec_output() == spec_cursor_pos_code(0, 0) + spec_show_code(false),
            r.spec_style() == Style::spec_default(),
            r.spec_visible() == false,
            r.spec_pos() == (0usize, 0usize),
    {
        let mut b = AnsiBuilder {
            s: Vec::new(),
            style: Style::default(),
            cursor_visible: true,
            cursor_pos: (1, 1),
        };
        b.set_cursor_position(0, 0);
        b.show_cursor(false);
        proof {
            assert(b.spec_output() =~= spec_cursor_pos_code(0, 0) + spec_show_code(false));
        }
        b
    }
}

} // verus!
