//! Text styling: a small colour palette, font weight, and the `Style`
//! record carried by every rendered cell.

use vstd::prelude::*;

verus! {

/// One of the eight classic terminal palette entries, or the terminal's
/// own default colour.
#[derive(Debug, Clone, Copy, PartialEq, Eq, Structural)]
pub enum Color {
    Black,
    Red,
    Green,
    Yellow,
    Blue,
    Magenta,
    Cyan,
    White,
    Default,
}

impl Color {
    /// The palette index used on the wire: 0-7 for the named colours,
    /// 9 for the terminal default.
    pub open spec fn spec_code(self) -> u8 {
        match self {
            Color::Black => 0,
            Color::Red => 1,
            Color::Green => 2,
            Color::Yellow => 3,
            Color::Blue => 4,
            Color::Magenta => 5,
            Color::Cyan => 6,
            Color::White => 7,
            Color::Default => 9,
        }
    }

    #[verifier::when_used_as_spec(spec_code)]
    pub fn code(self) -> (n: u8)
        ensures
            n == self.spec_code(),
    {
        match self {
            Color::Black => 0,
            Color::Red => 1,
            Color::Green => 2,
            Color::Yellow => 3,
            Color::Blue => 4,
            Color::Magenta => 5,
            Color::Cyan => 6,
            Color::White => 7,
            Color::Default => 9,
        }
    }
}

impl Default for Color {
    fn default() -> (c: Color)
        ensures
            c == Color::Default,
    {
        Color::Default
    }
}

/// Font weight of a cell.
#[derive(Debug, Clone, Copy, PartialEq, Eq, Structural)]
pub enum Weight {
    Normal,
    Bold,
    Dim,
}

impl Default for Weight {
    fn default() -> (w: Weight)
        ensures
            w == Weight::Normal,
    {
        Weight::Normal
    }
}

/// The full text style of one cell: colours, weight and underlining.
#[derive(Debug, Clone, Copy, PartialEq, Eq, Structural)]
pub struct Style {
    pub fg: Color,
    pub bg: Color,
    pub weight: Weight,
    pub underline: bool,
}

impl Style {
    /// The style every cell starts with: default colours, normal weight,
    /// no underline.
    pub open spec fn spec_default() -> Style {
        Style { fg: Color::Default, bg: Color::Default, weight: Weight::Normal, underline: false }
    }
}

impl Default for Style {
    fn default() -> (s: Style)
        ensures
            s == Style::spec_default(),
    {
        Style { fg: Color::Default, bg: Color::Default, weight: Weight::Normal, underline: false }
    }
}

/// The SGR sequence selecting foreground colour `c`.
#[verifier::opaque]
pub open spec fn spec_fg_code(c: Color) -> Seq<char> {
    seq!['\u{1b}', '[', '3', crate::chars::spec_digit_char(c.spec_code() as int), 'm']
}

/// The SGR sequence selecting background colour `c`.
#[verifier::opaque]
pub open spec fn spec_bg_code(c: Color) -> Seq<char> {
    seq!['\u{1b}', '[', '4', crate::chars::spec_digit_char(c.spec_code() as int), 'm']
}

/// The SGR sequence selecting font weight `w`.
#[verifier::opaque]
pub open spec fn spec_weight_code(w: Weight) -> Seq<char> {
    match w {
        Weight::Normal => seq!['\u{1b}', '[', '2', '2', 'm'],
        Weight::Bold => seq!['\u{1b}', '[', '1', 'm'],
        Weight::Dim => seq!['\u{1b}', '[', '2', 'm'],
    }
}

/// The SGR sequence switching underlining on or off.
#[verifier::opaque]
pub open spec fn spec_underline_code(u: bool) -> Seq<char> {
    if u {
        seq!['\u{1b}', '[', '4', 'm']
    } else {
        seq!['\u{1b}', '[', '2', '4', 'm']
    }
}

/// Exactly what a style-diffing writer emits when moving from style
/// `from` to style `to`: one SGR sequence per field that differs, in
/// foreground, background, weight, underline order, and nothing for
/// fields that agree.
pub open spec fn spec_style_transition(from: Style, to: Style) -> Seq<char> {
    (if to.fg != from.fg {
        spec_fg_code(to.fg)
    } else {
        Seq::empty()
    }) + (if to.bg != from.bg {
        spec_bg_code(to.bg)
    } else {
        Seq::empty()
    }) + (if to.weight != from.weight {
        spec_weight_code(to.weight)
    } else {
        Seq::empty()
    }) + (if to.underline != from.underline {
        spec_underline_code(to.underline)
    } else {
        Seq::empty()
    })
}

/// Emits `spec_fg_code(c)`.
fn push_fg_code(out: &mut Vec<char>, c: Color)
    ensures
        final(out)@ == old(out)@ + spec_fg_code(c),
{
    out.push('\u{1b}');
    out.push('[');
    out.push('3');
    crate::chars::push_digit(out, c.code() as usize);
    out.push('m');
    proof {
        reveal(spec_fg_code);
        assert(out@ =~= old(out)@ + spec_fg_code(c));
    }
}

/// Emits `spec_bg_code(c)`.
fn push_bg_code(out: &mut Vec<char>, c: Color)
    ensures
        final(out)@ == old(out)@ + spec_bg_code(c),
{
    out.push('\u{1b}');
    out.push('[');
    out.push('4');
    crate::chars::push_digit(out, c.code() as usize);
    out.push('m');
    proof {
        reveal(spec_bg_code);
        assert(out@ =~= old(out)@ + spec_bg_code(c));
    }
}

/// Emits `spec_weight_code(w)`.
fn push_weight_code(out: &mut Vec<char>, w: Weight)
    ensures
        final(out)@ == old(out)@ + spec_weight_code(w),
{
    match w {
        Weight::Normal => {
            out.push('\u{1b}');
            out.push('[');
            out.push('2');
            out.push('2');
            out.push('m');
        },
        Weight::Bold => {
            out.push('\u{1b}');
            out.push('[');
            out.push('1');
            out.push('m');
        },
        Weight::Dim => {
            out.push('\u{1b}');
            out.push('[');
            out.push('2');
            out.push('m');
        },
    }
    proof {
        reveal(spec_weight_code);
        assert(out@ =~= old(out)@ + spec_weight_code(w));
    }
}

/// Emits `spec_underline_code(u)`.
fn push_underline_code(out: &mut Vec<char>, u: bool)
    ensures
        final(out)@ == old(out)@ + spec_underline_code(u),
{
    if u {
        out.push('\u{1b}');
        out.push('[');
        out.push('4');
        out.push('m');
    } else {
        out.push('\u{1b}');
        out.push('[');
        out.push('2');
        out.push('4');
        out.push('m');
    }
    proof {
        reveal(spec_underline_code);
        assert(out@ =~= old(out)@ + spec_underline_code(u));
    }
}

/// Emits `spec_style_transition(from, to)` into a character buffer.
pub fn push_style_transition(out: &mut Vec<char>, from: Style, to: Style)
    ensures
        final(out)@ == old(out)@ + spec_style_transition(from, to),
{
    let ghost p1: Seq<char> = if to.fg != from.fg {
        spec_fg_code(to.fg)
    } else {
        Seq::empty()
    };
    let ghost p2: Seq<char> = if to.bg != from.bg {
        spec_bg_code(to.bg)
    } else {
        Seq::empty()
    };
    let ghost p3: Seq<char> = if to.weight != from.weight {
        spec_weight_code(to.weight)
    } else {
        Seq::empty()
    };
    let ghost p4: Seq<char> = if to.underline != from.underline {
        spec_underline_code(to.underline)
    } else {
        Seq::empty()
    };
    if to.fg != from.fg {
        push_fg_code(out, to.fg);
    }
    proof {
        assert(out@ =~= old(out)@ + p1);
    }
    if to.bg != from.bg {
        push_bg_code(out, to.bg);
    }
    proof {
        assert(out@ =~= old(out)@ + p1 + p2);
    }
    if to.weight != from.weight {
        push_weight_code(out, to.weight);
    }
    proof {
        assert(out@ =~= old(out)@ + p1 + p2 + p3);
    }
    if to.underline != from.underline {
        push_underline_code(out, to.underline);
    }
    proof {
        assert(out@ =~= old(out)@ + p1 + p2 + p3 + p4);
        assert(old(out)@ + p1 + p2 + p3 + p4 =~= old(out)@ + (p1 + p2 + p3 + p4));
        assert(spec_style_transition(from, to) == p1 + p2 + p3 + p4);
    }
}

/// Accumulates terminal output, emitting an SGR sequence only for the
/// style fields that differ from the style last written.
#[derive(Debug, Clone)]
pub struct AnsiBuilder {
    pub s: Vec<char>,
    pub style: Style,
}

impl AnsiBuilder {
    /// Everything written so far.
    pub open spec fn spec_output(self) -> Seq<char> {
        self.s@
    }

    /// The style the previous write left active.
    pub open spec fn spec_style(self) -> Style {
        self.style
    }

    /// Appends the characters of `s`, dropping control characters.
    pub fn write_str(&mut self, s: &str)
        ensures
            final(self).spec_output() == old(self).spec_output()
                + crate::chars::spec_strip_controls(s@),
            final(self).spec_style() == old(self).spec_style(),
    {
        crate::chars::push_str_stripped(&mut self.s, s);
    }

    /// Appends the characters of `s` unchanged.
    pub fn write_raw(&mut self, s: &str)
        ensures
            final(self).spec_output() == old(self).spec_output() + s@,
            final(self).spec_style() == old(self).spec_style(),
    {
        crate::chars::push_str_all(&mut self.s, s);
    }

    /// Emits SGR sequences for exactly the fields of `style` that differ
    /// from the style last written, then remembers `style`.
    pub fn write_style(&mut self, style: Style)
        ensures
            final(self).spec_output() == old(self).spec_output() + spec_style_transition(
                old(self).spec_style(),
                style,
            ),
            final(self).spec_style() == style,
    {
        push_style_transition(&mut self.s, self.style, style);
        self.style = style;
    }

    /// Resets the style to the default and hands back everything written.
    pub fn finish(self) -> (r: String)
        ensures
            r@ == self.spec_output() + spec_style_transition(
                self.spec_style(),
                Style::spec_default(),
            ),
    {
        let mut this = self;
        this.write_style(Style::default());
        crate::chars::chars_to_string(&this.s)
    }
}

impl Default for AnsiBuilder {
    fn default() -> (r: AnsiBuilder)
        ensures
            r.spec_output() == Seq::<char>::empty(),
            r.spec_style() == Style::spec_default(),
    {
        AnsiBuilder { s: Vec::new(), style: Style::default() }
    }
}

} // verus!
