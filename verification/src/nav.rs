//! Executable cursor navigation over the text store, proved against the
//! navigation model in `text`: position / coordinate conversion, line
//! lengths, and the horizontal, vertical, home and end moves.

use vstd::prelude::*;

use crate::rope::rope_char_to_line;
use crate::rope::rope_chars;
use crate::rope::rope_len_chars;
use crate::rope::rope_len_lines;
use crate::rope::rope_line_to_char;
use crate::text::lemma_line_extent;
use crate::text::lemma_line_start_le;
use crate::text::lemma_line_start_unique;
use crate::text::lemma_line_start_valid;
use crate::text::lemma_position_on_line;
use crate::text::line_count;
use crate::text::line_of;
use crate::text::line_start;
use crate::text::nav_line_len;
use crate::text::spec_end_move;
use crate::text::spec_home_move;
use crate::text::spec_horizontal_move;
use crate::text::spec_vertical_move;

verus! {

/// The start of line `line`, connected to the model's `line_start`.
pub fn line_start_of(rope: &ropey::Rope, line: usize) -> (p: usize)
    requires
        line < line_count(rope_chars(*rope)),
    ensures
        p == line_start(rope_chars(*rope), line as int),
        0 <= p <= rope_chars(*rope).len(),
{
    let p = rope_line_to_char(rope, line);
    proof {
        let s = rope_chars(*rope);
        lemma_line_start_valid(s, line as int);
        lemma_line_start_unique(s, line as int, p as int, line_start(s, line as int));
    }
    p
}

/// The navigable length of line `line`: its character count without
/// the trailing newline, except on the last line, which has none.
pub fn line_len_at(rope: &ropey::Rope, line: usize) -> (r: usize)
    requires
        line < line_count(rope_chars(*rope)),
    ensures
        r == nav_line_len(rope_chars(*rope), line as int),
{
    let ghost s = rope_chars(*rope);
    let nlines = rope_len_lines(rope);
    let start = line_start_of(rope, line);
    let next = if line + 1 == nlines {
        rope_len_chars(rope)
    } else {
        line_start_of(rope, line + 1)
    };
    proof {
        lemma_line_extent(s, line as int);
        assert(next == line_start(s, line + 1));
    }
    if line + 1 == nlines {
        next - start
    } else {
        next - start
            - 1
    }
}

/// The screen coordinates of an absolute position: its line, and its
/// column within that line.
pub fn pos_to_xy_at(rope: &ropey::Rope, pos: usize) -> (r: (usize, usize))
    requires
        pos <= rope_chars(*rope).len(),
    ensures
        r.1 == line_of(rope_chars(*rope), pos as int),
        r.0 == pos - line_start(rope_chars(*rope), line_of(rope_chars(*rope), pos as int) as int),
{
    let ghost s = rope_chars(*rope);
    let y = rope_char_to_line(rope, pos);
    proof {
        lemma_line_start_le(s, pos as int);
    }
    let start = line_start_of(rope, y);
    (pos - start, y)
}

/// A horizontal move: the position shifted by `offset` and clamped to
/// the text.
pub fn horizontal_at(rope: &ropey::Rope, pos: usize, offset: isize) -> (r: usize)
    requires
        pos <= rope_chars(*rope).len(),
    ensures
        r == spec_horizontal_move(rope_chars(*rope), pos as int, offset as int),
        r <= rope_chars(*rope).len(),
{
    let len = rope_len_chars(rope);
    if offset >= 0 {
        let mag = offset as usize;
        match pos.checked_add(mag) {
            Some(t) => if t > len {
                len
            } else {
                t
            },
            None => len,
        }
    } else {
        let mag = ((-(offset + 1)) as usize) + 1;
        proof {
            assert(mag == -(offset as int));
        }
        if pos < mag {
            0
        } else {
            pos - mag
        }
    }
}

/// A vertical move by `offset` lines, returning the new cursor and
/// ghost positions: snapping to the text's start or end past the first
/// or last line, and otherwise carrying the ghost column onto the
/// target line.
pub fn vertical_at(rope: &ropey::Rope, pos: usize, gpos: usize, offset: isize) -> (r: (
    usize,
    usize,
))
    requires
        pos <= rope_chars(*rope).len(),
        gpos <= rope_chars(*rope).len(),
    ensures
        (r.0 as int, r.1 as int) == spec_vertical_move(
            rope_chars(*rope),
            pos as int,
            gpos as int,
            offset as int,
        ),
        r.0 <= rope_chars(*rope).len(),
        r.1 <= rope_chars(*rope).len(),
{
    let ghost s = rope_chars(*rope);
    let cur = rope_char_to_line(rope, pos);
    let nlines = rope_len_lines(rope);
    let len = rope_len_chars(rope);
    proof {
        lemma_line_start_le(s, pos as int);
    }

    let target: usize;
    if offset < 0 {
        let mag = ((-(offset + 1)) as usize) + 1;
        proof {
            assert(mag == -(offset as int));
        }
        if cur < mag {
            return (0, 0);
        }
        target = cur - mag;
    } else {
        let mag = offset as usize;
        if mag >= nlines - cur {
            return (len, len);
        }
        target = cur + mag;
    }

    let gl = rope_char_to_line(rope, gpos);
    proof {
        lemma_line_start_le(s, gpos as int);
    }
    let gstart = line_start_of(rope, gl);
    let gx = gpos - gstart;
    let limit = line_len_at(rope, target);
    let col = if gx <= limit {
        gx
    } else {
        limit
    };
    let tstart = line_start_of(rope, target);
    proof {
        lemma_line_extent(s, target as int);
        lemma_position_on_line(s, target as int, col as int);
    }
    (tstart + col, gpos)
}

/// Home: the start of the current line.
pub fn home_at(rope: &ropey::Rope, pos: usize) -> (r: usize)
    requires
        pos <= rope_chars(*rope).len(),
    ensures
        r == spec_home_move(rope_chars(*rope), pos as int),
        r <= rope_chars(*rope).len(),
{
    let ghost s = rope_chars(*rope);
    let l = rope_char_to_line(rope, pos);
    proof {
        lemma_line_start_le(s, pos as int);
    }
    line_start_of(rope, l)
}

/// End: the navigable end of the current line.
pub fn end_at(rope: &ropey::Rope, pos: usize) -> (r: usize)
    requires
        pos <= rope_chars(*rope).len(),
    ensures
        r == spec_end_move(rope_chars(*rope), pos as int),
        r <= rope_chars(*rope).len(),
{
    let ghost s = rope_chars(*rope);
    let len = rope_len_chars(rope);
    let l = rope_char_to_line(rope, pos);
    proof {
        lemma_line_start_le(s, pos as int);
    }
    let start = line_start_of(rope, l);
    let limit = line_len_at(rope, l);
    proof {
        lemma_position_on_line(s, l as int, limit as int);
    }
    assert(start + limit <= len);
    start + limit
}

} // verus!
