//! Encoding a render buffer into one escape-code stream: rows walked
//! top to bottom, columns left to right, style diffed cell to cell, a
//! screen clear first, the cursor handled last.

use vstd::prelude::*;

use crate::buffer::Buffer;
use crate::chars::spec_is_control;
use crate::style::spec_style_transition;
use crate::style::Style;
use crate::term::ansi_builder::spec_clear_code;
use crate::term::ansi_builder::spec_cursor_pos_code;
use crate::term::ansi_builder::spec_show_code;
use crate::term::ansi_builder::AnsiBuilder;

verus! {

/// The character stream a style-diffing walk emits from position
/// `(x, y)` of the buffer onward, starting with style `st` active:
/// each cell contributes the style transition and its character (control
/// characters are dropped), and each row but the last ends with a
/// carriage-return / line-feed pair.
pub open spec fn spec_encode_from(buf: Buffer, st: Style, y: int, x: int) -> Seq<char>
    decreases buf.spec_height() - y, buf.spec_width() - x + 1,
{
    if y < 0 || y >= buf.spec_height() || x < 0 {
        Seq::empty()
    } else if x >= buf.spec_width() {
        (if y + 1 < buf.spec_height() {
            seq!['\r', '\n']
        } else {
            Seq::<char>::empty()
        }) + spec_encode_from(buf, st, y + 1, 0)
    } else {
        spec_style_transition(st, buf.spec_cell(x, y).style) + (if spec_is_control(
            buf.spec_cell(x, y).c,
        ) {
            Seq::<char>::empty()
        } else {
            seq![buf.spec_cell(x, y).c]
        }) + spec_encode_from(buf, buf.spec_cell(x, y).style, y, x + 1)
    }
}

/// The style left active after the walk: the last cell's style, or `st`
/// when the buffer has no cells.
pub open spec fn spec_style_after(buf: Buffer, st: Style) -> Style {
    if buf.spec_width() == 0 || buf.spec_height() == 0 {
        st
    } else {
        buf.spec_cell(buf.spec_width() - 1, buf.spec_height() - 1).style
    }
}

/// What the encoder emits for the buffer's cursor, given the builder's
/// remembered position and visibility: a grid with a cursor gets a
/// position code (suppressed when unchanged) and a show toggle
/// (suppressed when already visible); a grid without one gets a hide
/// toggle (suppressed when already hidden).
pub open spec fn spec_cursor_part(
    cursor: Option<(usize, usize)>,
    vis: bool,
    pos: (usize, usize),
) -> Seq<char> {
    match cursor {
        Some(c) => (if c == pos {
            Seq::<char>::empty()
        } else {
            spec_cursor_pos_code(c.0 as int, c.1 as int)
        }) + (if vis {
            Seq::<char>::empty()
        } else {
            spec_show_code(true)
        }),
        None => if vis {
            spec_show_code(false)
        } else {
            Seq::empty()
        },
    }
}

/// The pure content of the buffer from `(x, y)` onward: the cells'
/// characters with control characters dropped, rows separated by a
/// carriage-return / line-feed pair — no escape codes at all.
pub open spec fn spec_content_from(buf: Buffer, y: int, x: int) -> Seq<char>
    decreases buf.spec_height() - y, buf.spec_width() - x + 1,
{
    if y < 0 || y >= buf.spec_height() || x < 0 {
        Seq::empty()
    } else if x >= buf.spec_width() {
        (if y + 1 < buf.spec_height() {
            seq!['\r', '\n']
        } else {
            Seq::<char>::empty()
        }) + spec_content_from(buf, y + 1, 0)
    } else {
        (if spec_is_control(buf.spec_cell(x, y).c) {
            Seq::<char>::empty()
        } else {
            seq![buf.spec_cell(x, y).c]
        }) + spec_content_from(buf, y, x + 1)
    }
}

/// Every cell of the buffer carries style `st`.
pub open spec fn spec_uniform_style(buf: Buffer, st: Style) -> bool {
    forall|i: int, j: int|
        0 <= i < buf.spec_width() && 0 <= j < buf.spec_height() ==> (#[trigger] buf.spec_cell(
            i,
            j,
        )).style == st
}

/// Over a uniformly styled buffer, the style-diffing walk emits pure
/// content: every cell-to-cell transition is empty.
proof fn lemma_encode_from_uniform(buf: Buffer, st: Style, y: int, x: int)
    requires
        spec_uniform_style(buf, st),
    ensures
        spec_encode_from(buf, st, y, x) == spec_content_from(buf, y, x),
    decreases buf.spec_height() - y, buf.spec_width() - x + 1,
{
    if y < 0 || y >= buf.spec_height() || x < 0 {
    } else if x >= buf.spec_width() {
        lemma_encode_from_uniform(buf, st, y + 1, 0);
    } else {
        lemma_encode_from_uniform(buf, st, y, x + 1);
        assert(buf.spec_cell(x, y).style == st);
        assert(spec_style_transition(st, st) =~= Seq::<char>::empty());
        assert(spec_encode_from(buf, st, y, x) =~= spec_content_from(buf, y, x));
    }
}

/// Law (encoder idempotence under no change): when a builder's retained
/// state already matches a grid — every cell carries the style the
/// builder last emitted, and the builder's cursor position and
/// visibility agree with the grid's cursor — encoding that grid appends
/// only the screen clear and the grid's literal content: no SGR code and
/// no cursor escape is emitted. Encoding any grid once puts the builder
/// in exactly this state for a uniformly styled grid, so a second
/// encoding of an unchanged grid is escape-free.
pub proof fn lemma_encoder_idempotent(b: AnsiBuilder, buf: Buffer)
    requires
        buf.wf(),
        spec_uniform_style(buf, b.spec_style()),
        match buf.spec_cursor() {
            Some(c) => b.spec_pos() == c && b.spec_visible(),
            None => !b.spec_visible(),
        },
    ensures
        spec_encode_from(buf, b.spec_style(), 0, 0) == spec_content_from(buf, 0, 0),
        spec_cursor_part(buf.spec_cursor(), b.spec_visible(), b.spec_pos()) == Seq::<char>::empty(),
{
    lemma_encode_from_uniform(buf, b.spec_style(), 0, 0);
    assert(spec_cursor_part(buf.spec_cursor(), b.spec_visible(), b.spec_pos()) =~= Seq::<
        char,
    >::empty());
}

/// Walks `buf` into `b`: one screen clear, every cell with its style
/// diffed against the previous emission, rows separated by newlines,
/// then the cursor position and visibility.
pub fn encode_buffer(b: &mut AnsiBuilder, buf: &Buffer)
    requires
        buf.wf(),
    ensures
        final(b).spec_output() == old(b).spec_output() + spec_clear_code() + spec_encode_from(
            *buf,
            old(b).spec_style(),
            0,
            0,
        ) + spec_cursor_part(buf.spec_cursor(), old(b).spec_visible(), old(b).spec_pos()),
        final(b).spec_style() == spec_style_after(*buf, old(b).spec_style()),
        final(b).spec_visible() == (buf.spec_cursor() is Some),
        final(b).spec_pos() == (match buf.spec_cursor() {
            Some(c) => c,
            None => old(b).spec_pos(),
        }),
{
    let ghost st0 = b.spec_style();
    let ghost target = old(b).spec_output() + spec_clear_code() + spec_encode_from(*buf, st0, 0, 0);

    b.clear_screen();

    let h = buf.height();
    let w = buf.width();

    let mut y: usize = 0;
    while y < h
        invariant
            buf.wf(),
            w == buf.spec_width(),
            h == buf.spec_height(),
            y <= h,
            b.spec_output() + spec_encode_from(*buf, b.spec_style(), y as int, 0) == target,
            b.spec_style() == (if y == 0 || w == 0 {
                st0
            } else {
                buf.spec_cell(w - 1, y - 1).style
            }),
            b.spec_visible() == old(b).spec_visible(),
            b.spec_pos() == old(b).spec_pos(),
        decreases h - y,
    {
        let mut x: usize = 0;
        while x < w
            invariant
                buf.wf(),
                w == buf.spec_width(),
                h == buf.spec_height(),
                y < h,
                x <= w,
                b.spec_output() + spec_encode_from(*buf, b.spec_style(), y as int, x as int)
                    == target,
                b.spec_style() == (if x > 0 {
                    buf.spec_cell(x - 1, y as int).style
                } else if y == 0 || w == 0 {
                    st0
                } else {
                    buf.spec_cell(w - 1, y - 1).style
                }),
                b.spec_visible() == old(b).spec_visible(),
                b.spec_pos() == old(b).spec_pos(),
            decreases w - x,
        {
            let ghost pre = *b;
            let cell = match buf.get(x, y) {
                Some(c) => *c,
                None => {
                    proof {
                        assert(false);
                    }
                    crate::buffer::Cell::char(' ')
                },
            };
            b.write_style(cell.style);
            b.write_char(cell.c);
            proof {
                assert(buf.spec_cell(x as int, y as int) == cell);
                assert(spec_encode_from(*buf, pre.spec_style(), y as int, x as int)
                    == spec_style_transition(pre.spec_style(), cell.style) + (if spec_is_control(
                    cell.c,
                ) {
                    Seq::<char>::empty()
                } else {
                    seq![cell.c]
                }) + spec_encode_from(*buf, cell.style, y as int, x as int + 1));
                assert(b.spec_output() + spec_encode_from(*buf, cell.style, y as int, x as int + 1)
                    =~= pre.spec_output() + spec_encode_from(
                    *buf,
                    pre.spec_style(),
                    y as int,
                    x as int,
                ));
            }
            x = x + 1;
        }

        let ghost pre = *b;
        if y + 1 < h {
            b.write_newline();
        }
        proof {
            assert(spec_encode_from(*buf, pre.spec_style(), y as int, w as int) == (if y + 1 < h {
                seq!['\r', '\n']
            } else {
                Seq::<char>::empty()
            }) + spec_encode_from(*buf, pre.spec_style(), y as int + 1, 0));
            assert(b.spec_output() + spec_encode_from(*buf, b.spec_style(), y as int + 1, 0)
                =~= pre.spec_output() + spec_encode_from(*buf, pre.spec_style(), y as int, w as int));
        }
        y = y + 1;
    }

    proof {
        assert(spec_encode_from(*buf, b.spec_style(), h as int, 0) == Seq::<char>::empty());
        assert(b.spec_output() =~= target);
        assert(b.spec_style() == spec_style_after(*buf, st0));
    }

    let ghost rows_done = *b;
    match buf.cursor() {
        Some((cx, cy)) => {
            b.set_cursor_position(cx, cy);
            b.show_cursor(true);
        },
        None => {
            b.show_cursor(false);
        },
    }
    proof {
        assert(b.spec_output() =~= rows_done.spec_output() + spec_cursor_part(
            buf.spec_cursor(),
            old(b).spec_visible(),
            old(b).spec_pos(),
        ));
        assert(b.spec_output() =~= old(b).spec_output() + spec_clear_code() + spec_encode_from(
            *buf,
            st0,
            0,
            0,
        ) + spec_cursor_part(buf.spec_cursor(), old(b).spec_visible(), old(b).spec_pos()));
    }
}

} // verus!
