use vstd::prelude::*;

use vstd::seq_lib::lemma_concat_associative;
use vstd::string::StringSliceAdditionalSpecFns;

use crate::color::Color;
use crate::style::Style;

verus! {

/// The escape byte that opens every control sequence.
pub const ESC: u8 = 0x1b;

/// Decimal digits of `n`, most significant first, with no leading zeros.
pub open spec fn decimal(n: nat) -> Seq<u8>
    decreases n,
{
    if n < 10 {
        seq![(0x30 + n) as u8]
    } else {
        decimal(n / 10) + seq![(0x30 + n % 10) as u8]
    }
}

/// The numeric parameters of a control sequence in decimal, joined by `;`.
pub open spec fn params(codes: Seq<u8>) -> Seq<u8>
    decreases codes.len(),
{
    if codes.len() == 0 {
        seq![]
    } else if codes.len() == 1 {
        decimal(codes[0] as nat)
    } else {
        params(codes.drop_last()) + seq![0x3bu8] + decimal(codes.last() as nat)
    }
}

/// One complete SGR fragment: `ESC [ <codes joined by ;> m`.
pub open spec fn sgr(codes: Seq<u8>) -> Seq<u8> {
    seq![ESC, 0x5bu8] + params(codes) + seq![0x6du8]
}

/// The reset fragment `ESC [ 0 m`.
pub open spec fn reset_sgr() -> Seq<u8> {
    sgr(seq![0u8])
}

/// The SGR codes that select color `c` on the foreground or background layer.
///
/// Named colors use the direct codes (30–37, 40–47), or with `intense` the
/// bright palette entries 8–15 through the 256-color form. Palette and RGB
/// colors ignore `intense`.
pub open spec fn color_codes(c: Color, background: bool, intense: bool) -> Seq<u8> {
    let extended: u8 = if background { 48 } else { 38 };
    match c {
        Color::Fixed(n) => seq![extended, 5u8, n],
        Color::Rgb(r, g, b) => seq![extended, 2u8, r, g, b],
        _ => if intense {
            seq![extended, 5u8, (8 + c.base_index()) as u8]
        } else {
            seq![((if background { 40u8 } else { 30u8 }) + c.base_index()) as u8]
        },
    }
}

/// The fragment for a flag with SGR code `code`, empty when the flag is off.
pub open spec fn flag_sgr(on: bool, code: u8) -> Seq<u8> {
    if on {
        sgr(seq![code])
    } else {
        seq![]
    }
}

/// The fragment for an optional color, empty when it is unset.
pub open spec fn color_sgr(c: Option<Color>, background: bool, intense: bool) -> Seq<u8> {
    match c {
        Some(c) => sgr(color_codes(c, background, intense)),
        None => seq![],
    }
}

/// The bytes that render style `s`.
///
/// The default style renders as the reset fragment. Any other style renders
/// one fragment per flag that is on, in the order bold, dim, italic,
/// underline, blink, reverse, hidden, strikethrough, then the foreground
/// color, then the background color.
pub open spec fn render(s: Style) -> Seq<u8> {
    if s == Style::plain() {
        reset_sgr()
    } else {
        flags_sgr(s) + color_sgr(s.fg, false, s.intense) + color_sgr(s.bg, true, s.intense)
    }
}

/// The fragments of the flags of `s` that are on, in their fixed order.
pub open spec fn flags_sgr(s: Style) -> Seq<u8> {
    flag_sgr(s.bold, 1) + flag_sgr(s.dimmed, 2) + flag_sgr(s.italic, 3) + flag_sgr(s.underline, 4)
        + flag_sgr(s.blink, 5) + flag_sgr(s.reverse, 7) + flag_sgr(s.hidden, 8) + flag_sgr(
        s.strikethrough,
        9,
    )
}

/// Appends the decimal digits of `n`.
fn push_decimal(out: &mut Vec<u8>, n: u8)
    ensures
        final(out)@ == old(out)@ + decimal(n as nat),
{
    let ghost start = out@;
    if n >= 100 {
        let (h, t, u) = (n / 100, (n / 10) % 10, n % 10);
        out.push(0x30 + h);
        out.push(0x30 + t);
        out.push(0x30 + u);
        let ghost m: nat = (n / 10) as nat;
        assert(decimal(m / 10) == seq![(0x30 + h) as u8]);
        assert(decimal(m) == decimal(m / 10) + seq![(0x30 + t) as u8]);
        assert(decimal(n as nat) == decimal(m) + seq![(0x30 + u) as u8]);
        assert(out@ =~= start + decimal(n as nat));
    } else if n >= 10 {
        out.push(0x30 + n / 10);
        out.push(0x30 + n % 10);
        assert(decimal((n / 10) as nat) == seq![(0x30 + n / 10) as u8]);
        assert(decimal(n as nat) == decimal((n / 10) as nat) + seq![(0x30 + n % 10) as u8]);
        assert(out@ =~= start + decimal(n as nat));
    } else {
        out.push(0x30 + n);
        assert(out@ =~= start + decimal(n as nat));
    }
}

/// Appends one SGR fragment carrying `codes`.
fn push_sgr(out: &mut Vec<u8>, codes: &[u8])
    requires
        codes@.len() > 0,
    ensures
        final(out)@ == old(out)@ + sgr(codes@),
{
    let ghost start = out@;
    out.push(ESC);
    out.push(0x5b);
    push_decimal(out, codes[0]);
    assert(codes@.take(1).drop_last() =~= codes@.take(0));
    let mut i: usize = 1;
    while i < codes.len()
        invariant
            1 <= i <= codes@.len(),
            out@ == start + seq![ESC, 0x5bu8] + params(codes@.take(i as int)),
        decreases codes@.len() - i,
    {
        out.push(0x3b);
        push_decimal(out, codes[i]);
        assert(codes@.take(i + 1).drop_last() =~= codes@.take(i as int));
        i = i + 1;
    }
    out.push(0x6d);
    assert(codes@.take(i as int) =~= codes@);
    assert(out@ =~= start + sgr(codes@));
}

/// Position of a named color in the base palette.
fn base_index(c: Color) -> (r: u8)
    ensures
        r == c.base_index(),
        r < 8,
{
    match c {
        Color::Black => 0,
        Color::Red => 1,
        Color::Green => 2,
        Color::Yellow => 3,
        Color::Blue => 4,
        Color::Magenta => 5,
        Color::Cyan => 6,
        Color::White => 7,
        Color::Fixed(_) => 0,
        Color::Rgb(_, _, _) => 0,
    }
}

/// Appends the fragment that selects color `c` on one layer.
fn push_color(out: &mut Vec<u8>, c: Color, background: bool, intense: bool)
    ensures
        final(out)@ == old(out)@ + sgr(color_codes(c, background, intense)),
{
    let extended: u8 = if background { 48 } else { 38 };
    let codes: Vec<u8> = match c {
        Color::Fixed(n) => vec![extended, 5, n],
        Color::Rgb(r, g, b) => vec![extended, 2, r, g, b],
        _ => if intense {
            vec![extended, 5, 8 + base_index(c)]
        } else {
            vec![(if background { 40 } else { 30 }) + base_index(c)]
        },
    };
    assert(codes@ =~= color_codes(c, background, intense));
    push_sgr(out, codes.as_slice());
}

/// Appends the fragment of a flag with SGR code `code` when it is on.
fn push_flag(out: &mut Vec<u8>, on: bool, code: u8)
    ensures
        final(out)@ == old(out)@ + flag_sgr(on, code),
{
    if on {
        let codes: Vec<u8> = vec![code];
        assert(codes@ =~= seq![code]);
        push_sgr(out, codes.as_slice());
    } else {
        assert(out@ =~= out@ + flag_sgr(on, code));
    }
}

/// Appends the fragments of the flags of `s` that are on.
fn push_flags(out: &mut Vec<u8>, s: &Style)
    ensures
        final(out)@ == old(out)@ + flags_sgr(*s),
{
    let ghost start = out@;
    push_flag(out, s.bold, 1);
    push_flag(out, s.dimmed, 2);
    proof {
        lemma_concat_associative(start, flag_sgr(s.bold, 1), flag_sgr(s.dimmed, 2));
    }
    let ghost acc = flag_sgr(s.bold, 1) + flag_sgr(s.dimmed, 2);
    push_flag(out, s.italic, 3);
    proof {
        lemma_concat_associative(start, acc, flag_sgr(s.italic, 3));
    }
    let ghost acc = acc + flag_sgr(s.italic, 3);
    push_flag(out, s.underline, 4);
    proof {
        lemma_concat_associative(start, acc, flag_sgr(s.underline, 4));
    }
    let ghost acc = acc + flag_sgr(s.underline, 4);
    push_flag(out, s.blink, 5);
    proof {
        lemma_concat_associative(start, acc, flag_sgr(s.blink, 5));
    }
    let ghost acc = acc + flag_sgr(s.blink, 5);
    push_flag(out, s.reverse, 7);
    proof {
        lemma_concat_associative(start, acc, flag_sgr(s.reverse, 7));
    }
    let ghost acc = acc + flag_sgr(s.reverse, 7);
    push_flag(out, s.hidden, 8);
    proof {
        lemma_concat_associative(start, acc, flag_sgr(s.hidden, 8));
    }
    let ghost acc = acc + flag_sgr(s.hidden, 8);
    push_flag(out, s.strikethrough, 9);
    proof {
        lemma_concat_associative(start, acc, flag_sgr(s.strikethrough, 9));
    }
}

impl Style {
    /// Whether this is the default style: no colors and no flags.
    pub fn is_plain(&self) -> (r: bool)
        ensures
            r == (*self == Style::plain()),
    {
        self.fg.is_none() && self.bg.is_none() && !self.bold && !self.dimmed && !self.italic
            && !self.underline && !self.blink && !self.reverse && !self.hidden
            && !self.strikethrough && !self.intense
    }

    /// Appends the escape sequence of this style to `out`.
    ///
    /// The default style writes the reset fragment. When `color_enabled` is
    /// false nothing is written, whatever the style holds.
    pub fn write_to(&self, out: &mut Vec<u8>, color_enabled: bool)
        ensures
            final(out)@ == old(out)@ + (if color_enabled {
                render(*self)
            } else {
                seq![]
            }),
    {
        let ghost start = out@;
        if !color_enabled {
            assert(out@ =~= start + seq![]);
            return;
        }
        if self.is_plain() {
            let codes: Vec<u8> = vec![0];
            assert(codes@ =~= seq![0u8]);
            push_sgr(out, codes.as_slice());
            return;
        }
        push_flags(out, self);
        match self.fg {
            Some(c) => push_color(out, c, false, self.intense),
            None => {},
        }
        let ghost fg = color_sgr(self.fg, false, self.intense);
        let ghost bg = color_sgr(self.bg, true, self.intense);
        assert(out@ == start + flags_sgr(*self) + fg);
        match self.bg {
            Some(c) => push_color(out, c, true, self.intense),
            None => {},
        }
        proof {
            lemma_concat_associative(start, flags_sgr(*self), fg);
            lemma_concat_associative(start, flags_sgr(*self) + fg, bg);
        }
    }
}

/// Whether output may be colored: the terminal supports it and the user has
/// not turned color off.
pub fn allows_color(capability_present: bool, user_disabled: bool) -> (r: bool)
    ensures
        r == (capability_present && !user_disabled),
{
    capability_present && !user_disabled
}

/// The bytes of `text` wrapped in style `s`: the style's escape, the text,
/// then the reset escape. With color off, the text alone.
pub open spec fn painted(s: Style, text: Seq<u8>, color_enabled: bool) -> Seq<u8> {
    if color_enabled {
        render(s) + text + reset_sgr()
    } else {
        text
    }
}

/// Appends every byte of `bytes`.
fn push_bytes(out: &mut Vec<u8>, bytes: &[u8])
    ensures
        final(out)@ == old(out)@ + bytes@,
{
    let ghost start = out@;
    let mut i: usize = 0;
    while i < bytes.len()
        invariant
            i <= bytes@.len(),
            out@ == start + bytes@.take(i as int),
        decreases bytes@.len() - i,
    {
        out.push(bytes[i]);
        assert(bytes@.take(i + 1) =~= bytes@.take(i as int).push(bytes@[i as int]));
        i = i + 1;
    }
    assert(bytes@.take(i as int) =~= bytes@);
}

impl Style {
    /// Wraps `input` in this style: the style's escape, the text's UTF-8
    /// bytes, then the reset escape.
    pub fn paint(self, input: &str, color_enabled: bool) -> (r: Vec<u8>)
        ensures
            r@ == painted(self, input.spec_bytes(), color_enabled),
    {
        let mut out: Vec<u8> = Vec::new();
        self.write_to(&mut out, color_enabled);
        push_bytes(&mut out, input.as_bytes());
        Style::reset().write_to(&mut out, color_enabled);
        assert(out@ =~= painted(self, input.spec_bytes(), color_enabled));
        out
    }
}

impl Color {
    /// Wraps `input` in this foreground color; the same as painting with
    /// [`Color::normal`].
    pub fn paint(self, input: &str, color_enabled: bool) -> (r: Vec<u8>)
        ensures
            r@ == painted(Style { fg: Some(self), ..Style::plain() }, input.spec_bytes(), color_enabled),
    {
        self.normal().paint(input, color_enabled)
    }
}

} // verus!
