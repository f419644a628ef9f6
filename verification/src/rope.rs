//! The boundary to the external text store: a rope holding the editable
//! text, indexed by scalar values. Its contents are modelled as a
//! character sequence, and each operation's contract is stated against
//! the line structure defined in `text`. With the line-break features
//! disabled, the rope splits lines on the newline character alone,
//! which is exactly the model in `text`.

use vstd::prelude::*;

use crate::text::is_line_start;
use crate::text::line_count;
use crate::text::line_of;

verus! {

#[verifier::external_type_specification]
#[verifier::external_body]
pub struct ExRope(ropey::Rope);

/// The text the rope holds, as a sequence of scalar values.
pub uninterp spec fn rope_chars(r: ropey::Rope) -> Seq<char>;

/// Relies on `ropey::Rope::new`: a fresh rope holds no text.
#[verifier::external_body]
pub fn rope_new() -> (r: ropey::Rope)
    ensures
        rope_chars(r) == Seq::<char>::empty(),
{
    ropey::Rope::new()
}

/// Relies on `ropey::Rope::len_chars`: the total number of scalar
/// values in the rope.
#[verifier::external_body]
pub fn rope_len_chars(r: &ropey::Rope) -> (n: usize)
    ensures
        n == rope_chars(*r).len(),
{
    r.len_chars()
}

/// Relies on `ropey::Rope::len_lines`: one more than the number of
/// line breaks, which with the line-break features disabled counts
/// exactly the newline characters.
#[verifier::external_body]
pub fn rope_len_lines(r: &ropey::Rope) -> (n: usize)
    ensures
        n == line_count(rope_chars(*r)),
{
    r.len_lines()
}

/// Relies on `ropey::Rope::char_to_line`: the index of the line that
/// the given scalar position lies on; the position one past the end
/// lies on the last line. Panics past the end, which the precondition
/// rules out.
#[verifier::external_body]
pub fn rope_char_to_line(r: &ropey::Rope, pos: usize) -> (l: usize)
    requires
        pos <= rope_chars(*r).len(),
    ensures
        l == line_of(rope_chars(*r), pos as int),
{
    r.char_to_line(pos)
}

/// Relies on `ropey::Rope::line_to_char`: the scalar position where
/// the given line starts; one past the last line yields the text
/// length. Panics past that, which the precondition rules out.
#[verifier::external_body]
pub fn rope_line_to_char(r: &ropey::Rope, line: usize) -> (p: usize)
    requires
        line <= line_count(rope_chars(*r)),
    ensures
        line < line_count(rope_chars(*r)) ==> is_line_start(rope_chars(*r), line as int, p as int),
        line == line_count(rope_chars(*r)) ==> p == rope_chars(*r).len(),
{
    r.line_to_char(line)
}

/// Relies on `ropey::Rope::insert_char`: inserts one scalar at the
/// given position. Panics past the end, which the precondition rules
/// out.
#[verifier::external_body]
pub fn rope_insert_char(r: &mut ropey::Rope, pos: usize, c: char)
    requires
        pos <= rope_chars(*old(r)).len(),
    ensures
        rope_chars(*final(r)) == rope_chars(*old(r)).insert(pos as int, c),
{
    r.insert_char(pos, c);
}

/// Relies on `ropey::Rope::insert`: inserts a string's scalars at the
/// given position. Panics past the end, which the precondition rules
/// out.
#[verifier::external_body]
pub fn rope_insert(r: &mut ropey::Rope, pos: usize, text: &str)
    requires
        pos <= rope_chars(*old(r)).len(),
    ensures
        rope_chars(*final(r)) == rope_chars(*old(r)).take(pos as int) + text@ + rope_chars(
            *old(r),
        ).skip(pos as int),
{
    r.insert(pos, text);
}

/// Relies on `ropey::Rope::try_remove`: removes the scalars in
/// `start..end` and reports success; a backwards or out-of-bounds
/// range is refused and leaves the rope unchanged.
#[verifier::external_body]
pub fn rope_try_remove(r: &mut ropey::Rope, start: usize, end: usize) -> (ok: bool)
    ensures
        ok == (start <= end <= rope_chars(*old(r)).len()),
        ok ==> rope_chars(*final(r)) == rope_chars(*old(r)).take(start as int) + rope_chars(
            *old(r),
        ).skip(end as int),
        !ok ==> rope_chars(*final(r)) == rope_chars(*old(r)),
{
    r.try_remove(start..end).is_ok()
}

/// Relies on the rope's `Display` implementation, which writes out
/// exactly the text the rope holds.
#[verifier::external_body]
pub fn rope_to_string(r: &ropey::Rope) -> (s: String)
    ensures
        s@ == rope_chars(*r),
{
    r.to_string()
}

/// Relies on `ropey::Rope::chars`, which iterates the rope's scalars
/// in order.
#[verifier::external_body]
pub fn rope_to_vec(r: &ropey::Rope) -> (v: Vec<char>)
    ensures
        v@ == rope_chars(*r),
{
    r.chars().collect()
}

} // verus!
