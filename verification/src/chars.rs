//! Character-level helpers shared by the render and input paths:
//! the control-character predicate, decimal formatting of numbers into
//! character buffers, and the one bridge from `Vec<char>` to `String`.

use vstd::prelude::*;

verus! {

/// A control character in the Unicode sense: the C0 range (below 0x20),
/// DEL (0x7f), and the C1 range (0x80..0x9f).
pub open spec fn spec_is_control(c: char) -> bool {
    (c as u32) < 0x20 || (0x7f <= (c as u32) && (c as u32) < 0xa0)
}

/// Executable mirror of `spec_is_control`.
pub fn is_control(c: char) -> (r: bool)
    ensures
        r == spec_is_control(c),
{
    let n = c as u32;
    n < 0x20 || (0x7f <= n && n < 0xa0)
}

/// An ASCII control character: the C0 range or DEL.
pub open spec fn spec_is_ascii_control(c: char) -> bool {
    (c as u32) < 0x20 || (c as u32) == 0x7f
}

/// Executable mirror of `spec_is_ascii_control`.
pub fn is_ascii_control(c: char) -> (r: bool)
    ensures
        r == spec_is_ascii_control(c),
{
    let n = c as u32;
    n < 0x20 || n == 0x7f
}

/// The character for one decimal digit.
pub open spec fn spec_digit_char(d: int) -> char {
    if d == 0 {
        '0'
    } else if d == 1 {
        '1'
    } else if d == 2 {
        '2'
    } else if d == 3 {
        '3'
    } else if d == 4 {
        '4'
    } else if d == 5 {
        '5'
    } else if d == 6 {
        '6'
    } else if d == 7 {
        '7'
    } else if d == 8 {
        '8'
    } else {
        '9'
    }
}

/// The decimal representation of a non-negative number, most significant
/// digit first, with no leading zeros (`0` is written as "0").
pub open spec fn spec_dec_rep(n: int) -> Seq<char>
    decreases n,
{
    if n < 10 {
        seq![spec_digit_char(n)]
    } else {
        spec_dec_rep(n / 10).push(spec_digit_char(n % 10))
    }
}

/// Appends the character for a single decimal digit.
pub fn push_digit(out: &mut Vec<char>, d: usize)
    requires
        d < 10,
    ensures
        final(out)@ == old(out)@.push(spec_digit_char(d as int)),
{
    if d == 0 {
        out.push('0');
    } else if d == 1 {
        out.push('1');
    } else if d == 2 {
        out.push('2');
    } else if d == 3 {
        out.push('3');
    } else if d == 4 {
        out.push('4');
    } else if d == 5 {
        out.push('5');
    } else if d == 6 {
        out.push('6');
    } else if d == 7 {
        out.push('7');
    } else if d == 8 {
        out.push('8');
    } else {
        out.push('9');
    }
}

/// Appends the decimal representation of `n`.
pub fn push_dec(out: &mut Vec<char>, n: usize)
    ensures
        final(out)@ == old(out)@ + spec_dec_rep(n as int),
    decreases n,
{
    if n < 10 {
        push_digit(out, n);
        assert(old(out)@ + spec_dec_rep(n as int) =~= old(out)@.push(spec_digit_char(n as int)));
    } else {
        push_dec(out, n / 10);
        push_digit(out, n % 10);
        assert((old(out)@ + spec_dec_rep(n as int / 10)).push(spec_digit_char(n as int % 10))
            =~= old(out)@ + spec_dec_rep(n as int));
    }
}

/// The characters of `s` with every control character removed, in order.
pub open spec fn spec_strip_controls(s: Seq<char>) -> Seq<char>
    decreases s.len(),
{
    if s.len() == 0 {
        Seq::empty()
    } else {
        spec_strip_controls(s.drop_last()) + (if spec_is_control(s.last()) {
            Seq::empty()
        } else {
            seq![s.last()]
        })
    }
}

/// Appends the characters of `s`, dropping control characters.
pub fn push_str_stripped(out: &mut Vec<char>, s: &str)
    ensures
        final(out)@ == old(out)@ + spec_strip_controls(s@),
{
    let n = s.unicode_len();
    let mut i: usize = 0;
    while i < n
        invariant
            i <= n,
            n == s@.len(),
            out@ == old(out)@ + spec_strip_controls(s@.take(i as int)),
        decreases n - i,
    {
        let c = s.get_char(i);
        if !is_control(c) {
            out.push(c);
        }
        i = i + 1;
        proof {
            assert(s@.take(i as int).drop_last() =~= s@.take(i - 1));
            assert(s@.take(i as int).last() == s@[i - 1]);
            assert(spec_strip_controls(s@.take(i as int)) == spec_strip_controls(s@.take(i - 1))
                + (if spec_is_control(s@[i - 1]) {
                Seq::<char>::empty()
            } else {
                seq![s@[i - 1]]
            }));
            assert(out@ =~= old(out)@ + spec_strip_controls(s@.take(i as int)));
        }
    }
    proof {
        assert(s@.take(n as int) =~= s@);
    }
}

/// Appends all characters of `s` unchanged.
pub fn push_str_all(out: &mut Vec<char>, s: &str)
    ensures
        final(out)@ == old(out)@ + s@,
{
    let n = s.unicode_len();
    let mut i: usize = 0;
    while i < n
        invariant
            i <= n,
            n == s@.len(),
            out@ == old(out)@ + s@.take(i as int),
        decreases n - i,
    {
        let c = s.get_char(i);
        out.push(c);
        i = i + 1;
        proof {
            assert(out@ =~= old(out)@ + s@.take(i as int));
        }
    }
    proof {
        assert(s@.take(n as int) =~= s@);
    }
}

/// Relies on `String::push`, which appends the given character to the
/// end of the string.
#[verifier::external_body]
fn push_char(s: &mut String, c: char)
    ensures
        final(s)@ == old(s)@.push(c),
{
    s.push(c);
}

/// Builds the `String` holding exactly the given characters.
pub fn chars_to_string(v: &Vec<char>) -> (r: String)
    ensures
        r@ == v@,
{
    let mut s = String::new();
    let mut i: usize = 0;
    while i < v.len()
        invariant
            i <= v.len(),
            s@ == v@.take(i as int),
        decreases v.len() - i,
    {
        push_char(&mut s, v[i]);
        i = i + 1;
        assert(v@.take(i as int) =~= v@.take(i - 1).push(v@[i - 1]));
    }
    assert(v@.take(v.len() as int) =~= v@);
    s
}

} // verus!
