//! The line structure of a text: a text is a sequence of scalar values,
//! lines are separated by newline characters, and every position lies on
//! exactly one line. These definitions and lemmas are what the cursor
//! navigation algorithm is proved against.

use vstd::prelude::*;

verus! {

/// The number of newline characters among the first `n` characters.
pub open spec fn newlines_up_to(s: Seq<char>, n: int) -> nat
    decreases n,
{
    if n <= 0 {
        0
    } else {
        newlines_up_to(s, n - 1) + (if 0 <= n - 1 < s.len() && s[n - 1] == '\n' {
            1nat
        } else {
            0nat
        })
    }
}

/// How many lines the text has: one more than its newline count.
/// The empty text has one (empty) line.
pub open spec fn line_count(s: Seq<char>) -> nat {
    newlines_up_to(s, s.len() as int) + 1
}

/// The index of the line that position `pos` lies on. A newline lies on
/// the line it terminates; the position one past the end lies on the
/// last line.
pub open spec fn line_of(s: Seq<char>, pos: int) -> nat {
    newlines_up_to(s, pos)
}

/// `p` is the first position of line `l`: the newline count up to `p`
/// is `l`, and `p` is either the start of the text or just after a
/// newline.
pub open spec fn is_line_start(s: Seq<char>, l: int, p: int) -> bool {
    0 <= p <= s.len() && newlines_up_to(s, p) == l && (p == 0 || s[p - 1] == '\n')
}

/// The first position of line `l`. Past the last line this is the text
/// length, so that line lengths can be computed uniformly.
pub open spec fn line_start(s: Seq<char>, l: int) -> int {
    if l <= 0 {
        0
    } else if l >= line_count(s) {
        s.len() as int
    } else {
        choose|p: int| is_line_start(s, l, p)
    }
}

/// The length of line `l` including its trailing newline, if any.
pub open spec fn raw_line_len(s: Seq<char>, l: int) -> int {
    line_start(s, l + 1) - line_start(s, l)
}

/// The navigable length of line `l`: the trailing newline, present on
/// every line but the last, is excluded.
pub open spec fn nav_line_len(s: Seq<char>, l: int) -> int {
    if l == line_count(s) - 1 {
        raw_line_len(s, l)
    } else {
        raw_line_len(s, l) - 1
    }
}

/// The newline count never decreases as the prefix grows.
pub proof fn lemma_newlines_mono(s: Seq<char>, m: int, n: int)
    requires
        m <= n,
    ensures
        newlines_up_to(s, m) <= newlines_up_to(s, n),
    decreases n - m,
{
    if m < n {
        lemma_newlines_mono(s, m, n - 1);
    }
}

/// Every line index below the line count has a line start at or before
/// any position whose newline count has reached it.
pub proof fn lemma_crossing(s: Seq<char>, l: int, q: int)
    requires
        0 < l,
        0 <= q <= s.len(),
        newlines_up_to(s, q) >= l,
    ensures
        exists|p: int| #[trigger] is_line_start(s, l, p) && p <= q,
    decreases q,
{
    if q <= 0 {
        assert(newlines_up_to(s, 0) == 0);
    } else {
        if newlines_up_to(s, q - 1) >= l {
            lemma_crossing(s, l, q - 1);
            let p = choose|p: int| #[trigger] is_line_start(s, l, p) && p <= q - 1;
            assert(is_line_start(s, l, p) && p <= q);
        } else {
            assert(newlines_up_to(s, q) == newlines_up_to(s, q - 1) + (if 0 <= q - 1 < s.len()
                && s[q - 1] == '\n' {
                1nat
            } else {
                0nat
            }));
            assert(s[q - 1] == '\n');
            assert(newlines_up_to(s, q) == l);
            assert(is_line_start(s, l, q));
        }
    }
}

/// Each line of the text has exactly one start position.
pub proof fn lemma_line_start_unique(s: Seq<char>, l: int, p1: int, p2: int)
    requires
        is_line_start(s, l, p1),
        is_line_start(s, l, p2),
    ensures
        p1 == p2,
{
    if p1 < p2 {
        assert(p2 > 0);
        assert(s[p2 - 1] == '\n');
        lemma_newlines_mono(s, p1, p2 - 1);
        assert(newlines_up_to(s, p2) == newlines_up_to(s, p2 - 1) + 1);
    } else if p2 < p1 {
        assert(p1 > 0);
        assert(s[p1 - 1] == '\n');
        lemma_newlines_mono(s, p2, p1 - 1);
        assert(newlines_up_to(s, p1) == newlines_up_to(s, p1 - 1) + 1);
    }
}

/// `line_start` really is the start of line `l`, for every line of the
/// text.
pub proof fn lemma_line_start_valid(s: Seq<char>, l: int)
    requires
        0 <= l < line_count(s),
    ensures
        is_line_start(s, l, line_start(s, l)),
    decreases l,
{
    if l == 0 {
        assert(newlines_up_to(s, 0) == 0);
        assert(is_line_start(s, 0, 0));
    } else {
        assert(newlines_up_to(s, s.len() as int) >= l);
        lemma_crossing(s, l, s.len() as int);
        let p = choose|p: int| #[trigger] is_line_start(s, l, p) && p <= s.len() as int;
        assert(is_line_start(s, l, p));
        assert(is_line_start(s, l, line_start(s, l)));
    }
}

/// The start of the line containing `pos` lies at or before `pos`.
pub proof fn lemma_line_start_le(s: Seq<char>, pos: int)
    requires
        0 <= pos <= s.len(),
    ensures
        0 <= line_of(s, pos) < line_count(s),
        is_line_start(s, line_of(s, pos) as int, line_start(s, line_of(s, pos) as int)),
        line_start(s, line_of(s, pos) as int) <= pos,
{
    let l = line_of(s, pos) as int;
    lemma_newlines_mono(s, pos, s.len() as int);
    assert(l < line_count(s));
    lemma_line_start_valid(s, l);
    let p = line_start(s, l);
    if p > pos {
        assert(p > 0);
        assert(s[p - 1] == '\n');
        lemma_newlines_mono(s, pos, p - 1);
        assert(newlines_up_to(s, p) == newlines_up_to(s, p - 1) + 1);
        assert(false);
    }
}

/// Consecutive line starts are ordered, and every position from a
/// line's start up to (but excluding) the next line's start lies on
/// that line; on the last line the end position itself lies on it too.
pub proof fn lemma_line_extent(s: Seq<char>, l: int)
    requires
        0 <= l < line_count(s),
    ensures
        line_start(s, l) <= line_start(s, l + 1) <= s.len(),
        l < line_count(s) - 1 ==> line_start(s, l) < line_start(s, l + 1),
        forall|q: int|
            line_start(s, l) <= q < line_start(s, l + 1) ==> line_of(s, q) == l,
        l == line_count(s) - 1 ==> line_start(s, l + 1) == s.len() && line_of(s, s.len() as int)
            == l,
{
    lemma_line_start_valid(s, l);
    let start = line_start(s, l);
    if l + 1 < line_count(s) {
        lemma_line_start_valid(s, l + 1);
        let next = line_start(s, l + 1);
        assert(newlines_up_to(s, start) == l);
        assert(newlines_up_to(s, next) == l + 1);
        if next <= start {
            lemma_newlines_mono(s, next, start);
            assert(false);
        }
        assert forall|q: int| start <= q < next implies line_of(s, q) == l by {
            lemma_newlines_mono(s, start, q);
            if newlines_up_to(s, q) > l {
                lemma_crossing(s, l + 1, q);
                let p = choose|p: int| #[trigger] is_line_start(s, l + 1, p) && p <= q;
                lemma_line_start_unique(s, l + 1, p, next);
                assert(false);
            }
        }
    } else {
        assert(line_start(s, l + 1) == s.len());
        assert(newlines_up_to(s, s.len() as int) == line_count(s) - 1);
        assert forall|q: int| start <= q < s.len() as int implies line_of(s, q) == l by {
            lemma_newlines_mono(s, start, q);
            lemma_newlines_mono(s, q, s.len() as int);
        }
    }
}

/// A position within a line's navigable extent maps back to that line
/// and column: the round trip through `line_of` and `line_start` is
/// exact.
pub proof fn lemma_position_on_line(s: Seq<char>, l: int, x: int)
    requires
        0 <= l < line_count(s),
        0 <= x <= nav_line_len(s, l),
    ensures
        0 <= line_start(s, l) + x <= s.len(),
        line_of(s, line_start(s, l) + x) == l,
        line_start(s, l) + x - line_start(s, l) == x,
{
    lemma_line_extent(s, l);
    lemma_line_start_valid(s, l);
    let start = line_start(s, l);
    if l == line_count(s) - 1 {
        if start + x < s.len() {
            assert(line_of(s, start + x) == l);
        } else {
            assert(start + x == s.len());
        }
    } else {
        assert(start + x < line_start(s, l + 1));
    }
}

/// A position clamped to the text's extent `[0, len]`.
pub open spec fn spec_clamp(pos: int, len: int) -> int {
    if pos < 0 {
        0
    } else if pos > len {
        len
    } else {
        pos
    }
}

/// Where a horizontal move by `off` lands: the target clamped to the
/// text. Horizontal moves also reset the ghost column to the landing
/// position.
pub open spec fn spec_horizontal_move(s: Seq<char>, pos: int, off: int) -> int {
    spec_clamp(pos + off, s.len() as int)
}

/// Where a vertical move by `off` lines lands, as the pair of the new
/// cursor position and the new ghost position. Moving above the first
/// line snaps to the very start; past the last line, to the very end
/// (both reset the ghost). Otherwise the ghost's column, clamped to the
/// target line's navigable length, picks the position on the target
/// line, and the ghost is left untouched.
pub open spec fn spec_vertical_move(s: Seq<char>, pos: int, ghost: int, off: int) -> (int, int) {
    let cur = line_of(s, pos) as int;
    if cur + off < 0 {
        (0, 0)
    } else if cur + off >= line_count(s) {
        (s.len() as int, s.len() as int)
    } else {
        let target = cur + off;
        let gl = line_of(s, ghost) as int;
        let gx = ghost - line_start(s, gl);
        let limit = nav_line_len(s, target);
        let col = if gx <= limit {
            gx
        } else {
            limit
        };
        (line_start(s, target) + col, ghost)
    }
}

/// Where Home lands: the start of the current line.
pub open spec fn spec_home_move(s: Seq<char>, pos: int) -> int {
    line_start(s, line_of(s, pos) as int)
}

/// Where End lands: the navigable end of the current line, before its
/// trailing newline if it has one.
pub open spec fn spec_end_move(s: Seq<char>, pos: int) -> int {
    line_start(s, line_of(s, pos) as int) + nav_line_len(s, line_of(s, pos) as int)
}

/// Law (round-trip clamping): for every position and signed offset, a
/// horizontal move lands within `[0, len]`.
pub proof fn lemma_horizontal_move_in_bounds(s: Seq<char>, pos: int, off: int)
    ensures
        0 <= spec_horizontal_move(s, pos, off) <= s.len(),
{
}

/// A vertical move from positions inside the text lands inside the
/// text, and so does the ghost it leaves behind.
pub proof fn lemma_vertical_move_in_bounds(s: Seq<char>, pos: int, ghost: int, off: int)
    requires
        0 <= pos <= s.len(),
        0 <= ghost <= s.len(),
    ensures
        0 <= spec_vertical_move(s, pos, ghost, off).0 <= s.len(),
        0 <= spec_vertical_move(s, pos, ghost, off).1 <= s.len(),
{
    let cur = line_of(s, pos) as int;
    if cur + off < 0 {
    } else if cur + off >= line_count(s) {
    } else {
        let target = cur + off;
        lemma_line_start_le(s, ghost);
        let gl = line_of(s, ghost) as int;
        let gx = ghost - line_start(s, gl);
        let limit = nav_line_len(s, target);
        lemma_line_extent(s, target);
        let col = if gx <= limit {
            gx
        } else {
            limit
        };
        lemma_position_on_line(s, target, col);
    }
}

/// Law (ghost-column stability): from line `l`, column `c`, with `c`
/// within both that line's and the next line's navigable lengths,
/// moving down one line and then up one line returns the cursor to
/// exactly the same position, and leaves the ghost there too — even
/// though the intermediate position may sit on a line of a different
/// length.
pub proof fn lemma_ghost_column_round_trip(s: Seq<char>, l: int, c: int)
    requires
        0 <= l,
        l + 1 < line_count(s),
        0 <= c <= nav_line_len(s, l),
        c <= nav_line_len(s, l + 1),
    ensures
        ({
            let pos = line_start(s, l) + c;
            let down = spec_vertical_move(s, pos, pos, 1);
            let up = spec_vertical_move(s, down.0, down.1, -1);
            up.0 == pos && up.1 == pos
        }),
{
    let pos = line_start(s, l) + c;
    lemma_position_on_line(s, l, c);
    lemma_position_on_line(s, l + 1, c);
    assert(line_of(s, pos) == l);
    let down = spec_vertical_move(s, pos, pos, 1);
    assert(down.0 == line_start(s, l + 1) + c);
    assert(down.1 == pos);
    assert(line_of(s, down.0) == l + 1);
    let up = spec_vertical_move(s, down.0, down.1, -1);
    assert(up.0 == line_start(s, l) + c);
    assert(up.1 == pos);
}

} // verus!
