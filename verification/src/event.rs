//! Input events and the byte-stream decoder: one chunk of bytes from
//! the terminal becomes at most one key event, covering control bytes,
//! UTF-8 text and ANSI VT / xterm escape sequences.

use vstd::prelude::*;

use vstd::utf8::decode_utf8;
use vstd::utf8::valid_utf8;

verus! {

/// An independent bit-set of the four keyboard modifiers.
#[derive(Debug, Clone, Copy, PartialEq, Eq, Structural)]
pub struct Modifiers {
    pub shift: bool,
    pub alt: bool,
    pub ctrl: bool,
    pub meta: bool,
}

impl Modifiers {
    /// No modifier held.
    pub open spec fn spec_empty() -> Modifiers {
        Modifiers { shift: false, alt: false, ctrl: false, meta: false }
    }

    /// Control alone.
    pub open spec fn spec_ctrl() -> Modifiers {
        Modifiers { shift: false, alt: false, ctrl: true, meta: false }
    }

    /// Alt alone.
    pub open spec fn spec_alt() -> Modifiers {
        Modifiers { shift: false, alt: true, ctrl: false, meta: false }
    }

    /// Shift alone.
    pub open spec fn spec_shift() -> Modifiers {
        Modifiers { shift: true, alt: false, ctrl: false, meta: false }
    }

    /// The modifier set encoded in the low four bits of `bits`:
    /// Shift is bit 0, Alt bit 1, Ctrl bit 2, Meta bit 3.
    pub open spec fn spec_from_bits(bits: u8) -> Modifiers {
        Modifiers {
            shift: bits & 1 != 0,
            alt: bits & 2 != 0,
            ctrl: bits & 4 != 0,
            meta: bits & 8 != 0,
        }
    }

    /// The union of two modifier sets.
    pub open spec fn spec_union(self, other: Modifiers) -> Modifiers {
        Modifiers {
            shift: self.shift || other.shift,
            alt: self.alt || other.alt,
            ctrl: self.ctrl || other.ctrl,
            meta: self.meta || other.meta,
        }
    }

    pub fn empty() -> (r: Modifiers)
        ensures
            r == Modifiers::spec_empty(),
    {
        Modifiers { shift: false, alt: false, ctrl: false, meta: false }
    }

    pub fn ctrl() -> (r: Modifiers)
        ensures
            r == Modifiers::spec_ctrl(),
    {
        Modifiers { shift: false, alt: false, ctrl: true, meta: false }
    }

    pub fn alt() -> (r: Modifiers)
        ensures
            r == Modifiers::spec_alt(),
    {
        Modifiers { shift: false, alt: true, ctrl: false, meta: false }
    }

    pub fn shift() -> (r: Modifiers)
        ensures
            r == Modifiers::spec_shift(),
    {
        Modifiers { shift: true, alt: false, ctrl: false, meta: false }
    }

    /// Decodes the low four bits; higher bits are ignored.
    pub fn from_bits_truncate(bits: u8) -> (r: Modifiers)
        ensures
            r == Modifiers::spec_from_bits(bits),
    {
        Modifiers {
            shift: bits & 1 != 0,
            alt: bits & 2 != 0,
            ctrl: bits & 4 != 0,
            meta: bits & 8 != 0,
        }
    }

    pub fn is_empty(&self) -> (r: bool)
        ensures
            r == (*self == Modifiers::spec_empty()),
    {
        !self.shift && !self.alt && !self.ctrl && !self.meta
    }

    pub fn union(self, other: Modifiers) -> (r: Modifiers)
        ensures
            r == self.spec_union(other),
    {
        Modifiers {
            shift: self.shift || other.shift,
            alt: self.alt || other.alt,
            ctrl: self.ctrl || other.ctrl,
            meta: self.meta || other.meta,
        }
    }
}

impl Default for Modifiers {
    fn default() -> (r: Modifiers)
        ensures
            r == Modifiers::spec_empty(),
    {
        Modifiers { shift: false, alt: false, ctrl: false, meta: false }
    }
}

/// The closed set of keys the decoder can report.
#[derive(Debug, Clone, Copy, PartialEq, Eq, Structural)]
pub enum KeyCode {
    Char(char),
    Function(u8),
    Tab,
    Newline,
    Return,
    Escape,
    Up,
    Down,
    Right,
    Left,
    End,
    Home,
    Insert,
    Delete,
    PageUp,
    PageDown,
    Backspace,
}

/// A key together with the modifiers held with it.
#[derive(Debug, Clone, Copy, PartialEq, Eq, Structural)]
pub struct KeyEvent {
    pub key_code: KeyCode,
    pub modifiers: Modifiers,
}

impl KeyEvent {
    /// The event for `key_code` with no modifiers.
    pub open spec fn spec_key(key_code: KeyCode) -> KeyEvent {
        KeyEvent { key_code, modifiers: Modifiers::spec_empty() }
    }

    /// The event for `key_code` with no modifiers.
    pub fn key(key_code: KeyCode) -> (r: KeyEvent)
        ensures
            r == KeyEvent::spec_key(key_code),
    {
        KeyEvent { key_code, modifiers: Modifiers::empty() }
    }
}

/// One structured input event: a key press, or an externally injected
/// piece of literal text (pasted or composed input).
#[derive(Debug, Clone)]
pub enum Event {
    Key(KeyEvent),
    Str(String),
}

impl Event {
    /// A key event with no modifiers.
    pub open spec fn spec_just_key(key_code: KeyCode) -> Event {
        Event::Key(KeyEvent::spec_key(key_code))
    }

    /// A key event with no modifiers.
    pub fn just_key(key_code: KeyCode) -> (r: Event)
        ensures
            r == Event::spec_just_key(key_code),
    {
        Event::Key(KeyEvent::key(key_code))
    }
}

/// `b` carries the same input as `a`: equal key events, or injected
/// text with the same characters.
pub open spec fn spec_event_like(a: Event, b: Event) -> bool {
    match (a, b) {
        (Event::Key(x), Event::Key(y)) => x == y,
        (Event::Str(x), Event::Str(y)) => x@ == y@,
        _ => false,
    }
}

/// A copy of an event: key events are copied exactly, injected text
/// character for character.
pub fn dup_event(e: &Event) -> (r: Event)
    ensures
        spec_event_like(*e, r),
{
    match e {
        Event::Key(k) => Event::Key(*k),
        Event::Str(s) => Event::Str(s.clone()),
    }
}

/// Relies on `str::from_utf8`: it succeeds exactly on valid UTF-8 and
/// the resulting string views the decoded characters of those bytes.
#[verifier::external_body]
fn bytes_to_str(v: &[u8]) -> (r: Option<&str>)
    ensures
        r matches Some(s) ==> valid_utf8(v@) && s@ == decode_utf8(v@),
        r is None ==> !valid_utf8(v@),
{
    std::str::from_utf8(v).ok()
}

/// The numeric value of a run of decimal digit bytes.
pub open spec fn spec_dec_val(s: Seq<u8>) -> int
    decreases s.len(),
{
    if s.len() == 0 {
        0
    } else {
        spec_dec_val(s.drop_last()) * 10 + (s.last() - 48)
    }
}

/// Every byte is an ASCII decimal digit.
pub open spec fn spec_all_digits(s: Seq<u8>) -> bool {
    forall|i: int| 0 <= i < s.len() ==> 48 <= #[trigger] s[i] <= 57
}

/// What `str::parse::<u8>` accepts on these bytes: an optional leading
/// plus sign, then at least one digit, with a value that fits in a byte.
pub open spec fn spec_parse_u8(s: Seq<u8>) -> Option<u8> {
    let t = if s.len() > 0 && s[0] == 43 {
        s.skip(1)
    } else {
        s
    };
    if t.len() > 0 && spec_all_digits(t) && spec_dec_val(t) <= 255 {
        Some(spec_dec_val(t) as u8)
    } else {
        None
    }
}

/// The value of a digit string never shrinks as digits are appended.
proof fn lemma_dec_val_prefix(s: Seq<u8>, i: int)
    requires
        spec_all_digits(s),
        0 <= i <= s.len(),
    ensures
        0 <= spec_dec_val(s.take(i)) <= spec_dec_val(s),
    decreases s.len() - i,
{
    lemma_dec_val_nonneg(s.take(i));
    if i == s.len() {
        assert(s.take(i) =~= s);
    } else {
        lemma_dec_val_prefix(s, i + 1);
        assert(s.take(i + 1).drop_last() =~= s.take(i));
        assert(s.take(i + 1).last() == s[i]);
        assert(spec_dec_val(s.take(i + 1)) == spec_dec_val(s.take(i)) * 10 + (s[i] - 48));
        lemma_dec_val_nonneg(s.take(i));
    }
}

proof fn lemma_dec_val_nonneg(s: Seq<u8>)
    requires
        spec_all_digits(s),
    ensures
        spec_dec_val(s) >= 0,
    decreases s.len(),
{
    if s.len() > 0 {
        assert(spec_all_digits(s.drop_last()));
        lemma_dec_val_nonneg(s.drop_last());
    }
}

/// Parses a decimal byte value as `str::parse::<u8>` would.
fn parse_u8_bytes(s: &[u8]) -> (r: Option<u8>)
    ensures
        r == spec_parse_u8(s@),
{
    let n = s.len();
    let start: usize = if n > 0 && s[0] == 43 {
        1
    } else {
        0
    };
    let ghost t = if s@.len() > 0 && s@[0] == 43 {
        s@.skip(1)
    } else {
        s@
    };
    proof {
        assert(t =~= s@.subrange(start as int, n as int));
    }
    if start == n {
        return None;
    }
    let mut acc: u8 = 0;
    let mut i: usize = start;
    while i < n
        invariant
            start <= i <= n,
            n == s@.len(),
            t == s@.subrange(start as int, n as int),
            t == (if s@.len() > 0 && s@[0] == 43 {
                s@.skip(1)
            } else {
                s@
            }),
            spec_all_digits(t.take(i - start)),
            acc == spec_dec_val(t.take(i - start)),
        decreases n - i,
    {
        let b = s[i];
        if b < 48 || b > 57 {
            proof {
                assert(t[i - start] == b);
                assert(!spec_all_digits(t));
            }
            return None;
        }
        let d = b - 48;
        if acc > 25 || (acc == 25 && d > 5) {
            proof {
                assert(t.take(i - start + 1).drop_last() =~= t.take(i - start));
                assert(t.take(i - start + 1).last() == t[i - start]);
                assert(spec_dec_val(t.take(i - start + 1)) == acc * 10 + d);
                assert(spec_all_digits(t.take(i - start + 1)));
                if spec_all_digits(t) {
                    lemma_dec_val_prefix(t, i - start + 1);
                    assert(spec_dec_val(t) >= acc * 10 + d);
                    assert(spec_dec_val(t) > 255);
                }
            }
            return None;
        }
        acc = acc * 10 + d;
        i = i + 1;
        proof {
            assert(t.take(i - start).drop_last() =~= t.take(i - start - 1));
            assert(t.take(i - start).last() == t[i - start - 1]);
        }
    }
    proof {
        assert(t.take(n - start) =~= t);
    }
    Some(acc)
}

/// The modifier set encoded by a VT / xterm numeric parameter: the
/// parameter minus one, read as the four modifier bits; an unparsable
/// parameter yields nothing.
pub open spec fn spec_parse_modifiers(s: Seq<u8>) -> Option<Modifiers> {
    match spec_parse_u8(s) {
        Some(n) => Some(
            Modifiers::spec_from_bits(
                (if n >= 1 {
                    (n - 1) as u8
                } else {
                    0u8
                }),
            ),
        ),
        None => None,
    }
}

/// Decodes an escape-sequence modifier parameter.
pub fn parse_modifiers(bytes: &[u8]) -> (r: Option<Modifiers>)
    ensures
        r == spec_parse_modifiers(bytes@),
{
    match parse_u8_bytes(bytes) {
        Some(n) => {
            let b = if n >= 1 {
                n - 1
            } else {
                0
            };
            Some(Modifiers::from_bits_truncate(b))
        },
        None => None,
    }
}

/// What one chunk decodes to when it does not start with escape:
/// Tab, Newline and Return map directly; other bytes below 27 map to
/// Ctrl plus the corresponding letter; a single remaining byte is read
/// as a character directly; longer chunks must be valid UTF-8 and
/// yield their first character; ASCII control characters are rejected.
pub open spec fn spec_decode_bytes(s: Seq<u8>) -> Option<KeyEvent> {
    if s.len() == 0 {
        None
    } else if s[0] == 9 {
        Some(KeyEvent::spec_key(KeyCode::Tab))
    } else if s[0] == 10 {
        Some(KeyEvent::spec_key(KeyCode::Newline))
    } else if s[0] == 13 {
        Some(KeyEvent::spec_key(KeyCode::Return))
    } else if s[0] < 27 {
        Some(
            KeyEvent {
                key_code: KeyCode::Char((((s[0] + 64) as u8) as u32) as char),
                modifiers: Modifiers::spec_ctrl(),
            },
        )
    } else if s.len() == 1 {
        let c = (s[0] as u32) as char;
        if crate::chars::spec_is_ascii_control(c) {
            None
        } else {
            Some(KeyEvent { key_code: KeyCode::Char(c), modifiers: Modifiers::spec_empty() })
        }
    } else if valid_utf8(s) {
        let c = decode_utf8(s)[0];
        if crate::chars::spec_is_ascii_control(c) {
            None
        } else {
            Some(KeyEvent { key_code: KeyCode::Char(c), modifiers: Modifiers::spec_empty() })
        }
    } else {
        None
    }
}

/// Decodes a character chunk: control keys, control characters and
/// UTF-8 text.
pub fn decode_bytes(bytes: &[u8]) -> (r: Option<KeyEvent>)
    requires
        bytes@.len() > 0,
    ensures
        r == spec_decode_bytes(bytes@),
{
    let first = bytes[0];
    if first == 9 {
        return Some(KeyEvent::key(KeyCode::Tab));
    }
    if first == 10 {
        return Some(KeyEvent::key(KeyCode::Newline));
    }
    if first == 13 {
        return Some(KeyEvent::key(KeyCode::Return));
    }
    if first < 27 {
        let letter = (64 + first) as char;
        return Some(KeyEvent { key_code: KeyCode::Char(letter), modifiers: Modifiers::ctrl() });
    }
    if bytes.len() == 1 {
        let c = first as char;
        if crate::chars::is_ascii_control(c) {
            return None;
        }
        return Some(KeyEvent { key_code: KeyCode::Char(c), modifiers: Modifiers::empty() });
    }
    match bytes_to_str(bytes) {
        Some(st) => {
            proof {
                assert(decode_utf8(bytes@).len() > 0);
            }
            let c = st.get_char(0);
            if crate::chars::is_ascii_control(c) {
                None
            } else {
                Some(KeyEvent { key_code: KeyCode::Char(c), modifiers: Modifiers::empty() })
            }
        },
        None => None,
    }
}

/// The key selected by the numeric code of a VT sequence
/// (`ESC [ <code> ~`). The numeric code 16 is intentionally unassigned,
/// and codes past 21 are not recognised.
pub open spec fn spec_vt_key(code: Seq<u8>) -> Option<KeyCode> {
    if code.len() == 1 {
        if code[0] == 49 {
            Some(KeyCode::Home)
        } else if code[0] == 50 {
            Some(KeyCode::Insert)
        } else if code[0] == 51 {
            Some(KeyCode::Delete)
        } else if code[0] == 52 {
            Some(KeyCode::End)
        } else if code[0] == 53 {
            Some(KeyCode::PageUp)
        } else if code[0] == 54 {
            Some(KeyCode::PageDown)
        } else if code[0] == 55 {
            Some(KeyCode::Home)
        } else if code[0] == 56 {
            Some(KeyCode::End)
        } else {
            None
        }
    } else if code.len() == 2 && code[0] == 49 {
        if code[1] == 49 {
            Some(KeyCode::Function(1))
        } else if code[1] == 50 {
            Some(KeyCode::Function(2))
        } else if code[1] == 51 {
            Some(KeyCode::Function(3))
        } else if code[1] == 52 {
            Some(KeyCode::Function(4))
        } else if code[1] == 53 {
            Some(KeyCode::Function(5))
        } else if code[1] == 55 {
            Some(KeyCode::Function(6))
        } else if code[1] == 56 {
            Some(KeyCode::Function(7))
        } else if code[1] == 57 {
            Some(KeyCode::Function(8))
        } else {
            None
        }
    } else if code.len() == 2 && code[0] == 50 {
        if code[1] == 48 {
            Some(KeyCode::Function(9))
        } else if code[1] == 49 {
            Some(KeyCode::Function(10))
        } else {
            None
        }
    } else {
        None
    }
}

/// Maps a VT numeric code.
fn vt_key(code: &[u8]) -> (r: Option<KeyCode>)
    ensures
        r == spec_vt_key(code@),
{
    if code.len() == 1 {
        match code[0] {
            49 => Some(KeyCode::Home),
            50 => Some(KeyCode::Insert),
            51 => Some(KeyCode::Delete),
            52 => Some(KeyCode::End),
            53 => Some(KeyCode::PageUp),
            54 => Some(KeyCode::PageDown),
            55 => Some(KeyCode::Home),
            56 => Some(KeyCode::End),
            _ => None,
        }
    } else if code.len() == 2 && code[0] == 49 {
        match code[1] {
            49 => Some(KeyCode::Function(1)),
            50 => Some(KeyCode::Function(2)),
            51 => Some(KeyCode::Function(3)),
            52 => Some(KeyCode::Function(4)),
            53 => Some(KeyCode::Function(5)),
            55 => Some(KeyCode::Function(6)),
            56 => Some(KeyCode::Function(7)),
            57 => Some(KeyCode::Function(8)),
            _ => None,
        }
    } else if code.len() == 2 && code[0] == 50 {
        match code[1] {
            48 => Some(KeyCode::Function(9)),
            49 => Some(KeyCode::Function(10)),
            _ => None,
        }
    } else {
        None
    }
}

/// The key selected by the final letter of an xterm sequence
/// (`ESC [ ... <letter>`).
pub open spec fn spec_xterm_key(b: u8) -> Option<KeyCode> {
    if b == 65 {
        Some(KeyCode::Up)
    } else if b == 66 {
        Some(KeyCode::Down)
    } else if b == 67 {
        Some(KeyCode::Right)
    } else if b == 68 {
        Some(KeyCode::Left)
    } else if b == 70 {
        Some(KeyCode::End)
    } else if b == 72 {
        Some(KeyCode::Home)
    } else if b == 80 {
        Some(KeyCode::Function(1))
    } else if b == 81 {
        Some(KeyCode::Function(2))
    } else if b == 82 {
        Some(KeyCode::Function(3))
    } else if b == 83 {
        Some(KeyCode::Function(4))
    } else {
        None
    }
}

/// Maps an xterm terminator letter.
fn xterm_key(b: u8) -> (r: Option<KeyCode>)
    ensures
        r == spec_xterm_key(b),
{
    match b {
        65 => Some(KeyCode::Up),
        66 => Some(KeyCode::Down),
        67 => Some(KeyCode::Right),
        68 => Some(KeyCode::Left),
        70 => Some(KeyCode::End),
        72 => Some(KeyCode::Home),
        80 => Some(KeyCode::Function(1)),
        81 => Some(KeyCode::Function(2)),
        82 => Some(KeyCode::Function(3)),
        83 => Some(KeyCode::Function(4)),
        _ => None,
    }
}

/// The position of the first semicolon byte at or after `i`.
pub open spec fn spec_find_semi(s: Seq<u8>, i: int) -> Option<int>
    decreases s.len() - i,
{
    if i < 0 || i >= s.len() {
        None
    } else if s[i] == 59 {
        Some(i)
    } else {
        spec_find_semi(s, i + 1)
    }
}

/// Finds the first semicolon.
fn find_semi(s: &[u8]) -> (r: Option<usize>)
    ensures
        match r {
            Some(i) => i < s@.len() && s@[i as int] == 59 && spec_find_semi(s@, 0) == Some(i as int),
            None => spec_find_semi(s@, 0) is None,
        },
{
    let n = s.len();
    let mut i: usize = 0;
    while i < n
        invariant
            i <= n,
            n == s@.len(),
            spec_find_semi(s@, 0) == spec_find_semi(s@, i as int),
        decreases n - i,
    {
        if s[i] == 59 {
            return Some(i);
        }
        i = i + 1;
    }
    None
}

/// The event a VT sequence yields for a code and a modifier set.
pub open spec fn spec_vt_event(code: Seq<u8>, m: Modifiers) -> Option<Event> {
    match spec_vt_key(code) {
        Some(k) => Some(Event::Key(KeyEvent { key_code: k, modifiers: m })),
        None => None,
    }
}

/// What one byte chunk from the terminal decodes to: at most one key
/// event. A chunk that does not start with escape is character input;
/// a lone (or doubled) escape is the Escape key; `ESC [` sequences are
/// VT (digit codes closed by `~`) or xterm (closed by a letter), each
/// with an optional numeric modifier parameter after a semicolon;
/// escape followed by exactly one other byte is that byte's character
/// with Alt added. Anything else is dropped.
pub open spec fn spec_parse_event(s: Seq<u8>) -> Option<Event> {
    if s.len() == 0 {
        None
    } else if s[0] != 27 {
        match spec_decode_bytes(s) {
            Some(k) => Some(Event::Key(k)),
            None => None,
        }
    } else {
        let rest = s.skip(1);
        if rest.len() == 0 || rest == seq![27u8] {
            Some(Event::spec_just_key(KeyCode::Escape))
        } else if rest == seq![91u8] {
            Some(
                Event::Key(
                    KeyEvent { key_code: KeyCode::Char('['), modifiers: Modifiers::spec_alt() },
                ),
            )
        } else if rest.len() >= 2 && rest[0] == 91 && rest.last() == 126 {
            let mid = rest.subrange(1, rest.len() - 1);
            match spec_find_semi(mid, 0) {
                Some(i) => match spec_parse_modifiers(mid.skip(i + 1)) {
                    Some(m) => spec_vt_event(mid.take(i), m),
                    None => None,
                },
                None => spec_vt_event(mid, Modifiers::spec_empty()),
            }
        } else if rest.len() >= 2 && rest[0] == 91 {
            match spec_xterm_key(rest.last()) {
                None => None,
                Some(k) => {
                    let field = rest.subrange(1, rest.len() - 1);
                    let mbytes = match spec_find_semi(field, 0) {
                        Some(i) => field.skip(i + 1),
                        None => field,
                    };
                    if mbytes.len() == 0 {
                        Some(
                            Event::Key(
                                KeyEvent { key_code: k, modifiers: Modifiers::spec_empty() },
                            ),
                        )
                    } else {
                        match spec_parse_modifiers(mbytes) {
                            Some(m) => Some(Event::Key(KeyEvent { key_code: k, modifiers: m })),
                            None => None,
                        }
                    }
                },
            }
        } else if rest.len() == 1 {
            match spec_decode_bytes(rest) {
                Some(k) => Some(
                    Event::Key(
                        KeyEvent {
                            key_code: k.key_code,
                            modifiers: k.modifiers.spec_union(Modifiers::spec_alt()),
                        },
                    ),
                ),
                None => None,
            }
        } else {
            None
        }
    }
}

/// Turns one byte chunk into at most one structured input event.
pub fn parse_event(bytes: &[u8]) -> (r: Option<Event>)
    ensures
        r == spec_parse_event(bytes@),
{
    let n = bytes.len();
    if n == 0 {
        return None;
    }
    let first = bytes[0];
    if first != 27 {
        return match decode_bytes(bytes) {
            Some(k) => Some(Event::Key(k)),
            None => None,
        };
    }
    let rest: &[u8] = &bytes[1..n];
    let m = rest.len();
    proof {
        assert(rest@ =~= bytes@.skip(1));
    }
    if m == 0 || (m == 1 && rest[0] == 27) {
        proof {
            if m == 1 {
                assert(rest@ =~= seq![27u8]);
            }
        }
        return Some(Event::just_key(KeyCode::Escape));
    }
    if m == 1 && rest[0] == 91 {
        proof {
            assert(rest@ =~= seq![91u8]);
        }
        return Some(
            Event::Key(KeyEvent { key_code: KeyCode::Char('['), modifiers: Modifiers::alt() }),
        );
    }
    if m >= 2 && rest[0] == 91 && rest[m - 1] == 126 {
        let mid: &[u8] = &rest[1..m - 1];
        proof {
            assert(mid@ =~= rest@.subrange(1, rest@.len() - 1));
        }
        return match find_semi(mid) {
            Some(i) => {
                let code: &[u8] = &mid[0..i];
                let modbytes: &[u8] = &mid[i + 1..mid.len()];
                proof {
                    assert(code@ =~= mid@.take(i as int));
                    assert(modbytes@ =~= mid@.skip(i + 1));
                }
                match parse_modifiers(modbytes) {
                    Some(mo) => {
                        match vt_key(code) {
                            Some(k) => Some(
                                Event::Key(KeyEvent { key_code: k, modifiers: mo }),
                            ),
                            None => None,
                        }
                    },
                    None => None,
                }
            },
            None => {
                match vt_key(mid) {
                    Some(k) => Some(
                        Event::Key(KeyEvent { key_code: k, modifiers: Modifiers::empty() }),
                    ),
                    None => None,
                }
            },
        };
    }
    if m >= 2 && rest[0] == 91 {
        let last = rest[m - 1];
        return match xterm_key(last) {
            None => None,
            Some(k) => {
                let field: &[u8] = &rest[1..m - 1];
                proof {
                    assert(field@ =~= rest@.subrange(1, rest@.len() - 1));
                }
                let mbytes: &[u8] = match find_semi(field) {
                    Some(i) => &field[i + 1..field.len()],
                    None => field,
                };
                proof {
                    assert(mbytes@ =~= (match spec_find_semi(field@, 0) {
                        Some(i) => field@.skip(i + 1),
                        None => field@,
                    }));
                }
                if mbytes.len() == 0 {
                    Some(Event::Key(KeyEvent { key_code: k, modifiers: Modifiers::empty() }))
                } else {
                    match parse_modifiers(mbytes) {
                        Some(mo) => Some(Event::Key(KeyEvent { key_code: k, modifiers: mo })),
                        None => None,
                    }
                }
            },
        };
    }
    if m == 1 {
        return match decode_bytes(rest) {
            Some(k) => Some(
                Event::Key(
                    KeyEvent {
                        key_code: k.key_code,
                        modifiers: k.modifiers.union(Modifiers::alt()),
                    },
                ),
            ),
            None => None,
        };
    }
    None
}

} // verus!
