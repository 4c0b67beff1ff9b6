use vstd::prelude::*;

use crate::color::Color;
use crate::difference::{delta, difference, needs_reset, transition, Difference};
use crate::render::{color_sgr, decimal, params, render, reset_sgr, sgr, ESC};
use crate::style::{merged, Style};

verus! {

/// Whether `next` has every attribute that `prev` has: each color that
/// `prev` sets is set in `next` (possibly to another color), and each flag
/// on in `prev` is on in `next`.
pub open spec fn has_all_of(next: Style, prev: Style) -> bool {
    &&& (prev.fg is Some ==> next.fg is Some)
    &&& (prev.bg is Some ==> next.bg is Some)
    &&& (prev.bold ==> next.bold)
    &&& (prev.dimmed ==> next.dimmed)
    &&& (prev.italic ==> next.italic)
    &&& (prev.underline ==> next.underline)
    &&& (prev.blink ==> next.blink)
    &&& (prev.reverse ==> next.reverse)
    &&& (prev.hidden ==> next.hidden)
    &&& (prev.strikethrough ==> next.strikethrough)
    &&& (prev.intense ==> next.intense)
}

/// A style never differs from itself: the transition is `Unchanged` and
/// writes nothing.
pub proof fn lemma_between_same(s: Style)
    ensures
        difference(s, s) == Difference::Unchanged,
        transition(s, s) == Seq::<u8>::empty(),
{
}

/// The default style renders as the four bytes `ESC [ 0 m`.
pub proof fn lemma_default_renders_reset()
    ensures
        render(Style::plain()) == seq![ESC, 0x5bu8, 0x30u8, 0x6du8],
        reset_sgr() == seq![ESC, 0x5bu8, 0x30u8, 0x6du8],
{
    assert(decimal(0) == seq![0x30u8]);
    assert(reset_sgr() =~= seq![ESC, 0x5bu8, 0x30u8, 0x6du8]);
}

/// A style whose only attribute is a named foreground color renders as the
/// single fragment `ESC [ 3 <n> m`, with `n` the color's base index.
pub proof fn lemma_named_foreground(c: Color)
    requires
        c.is_named(),
    ensures
        render(Style { fg: Some(c), ..Style::plain() }) == seq![
            ESC,
            0x5bu8,
            0x33u8,
            (0x30 + c.base_index()) as u8,
            0x6du8,
        ],
{
    let code = (30 + c.base_index()) as u8;
    assert(decimal((code / 10) as nat) == seq![0x33u8]);
    assert(decimal(code as nat) == seq![0x33u8, (0x30 + c.base_index()) as u8]);
    assert(sgr(seq![code]) =~= seq![ESC, 0x5bu8, 0x33u8, (0x30 + c.base_index()) as u8, 0x6du8]);
}

/// A style with a named foreground color and the intense flag, and nothing
/// else, renders as the 256-color fragment `ESC [ 38 ; 5 ; <8 + n> m`, with
/// `n` the color's base index: black 8, red 9, ..., white 15.
pub proof fn lemma_intense_named_foreground(c: Color)
    requires
        c.is_named(),
    ensures
        render(Style { fg: Some(c), intense: true, ..Style::plain() }) == seq![
            ESC,
            0x5bu8,
            0x33u8,
            0x38u8,
            0x3bu8,
            0x35u8,
            0x3bu8,
        ] + decimal((8 + c.base_index()) as nat) + seq![0x6du8],
{
    let codes = seq![38u8, 5u8, (8 + c.base_index()) as u8];
    assert(codes.drop_last().drop_last() =~= seq![38u8]);
    assert(codes.drop_last() =~= seq![38u8, 5u8]);
    assert(decimal(3) == seq![0x33u8]);
    assert(decimal(38) == seq![0x33u8, 0x38u8]);
    assert(decimal(5) == seq![0x35u8]);
    assert(params(seq![38u8]) == seq![0x33u8, 0x38u8]);
    assert(params(seq![38u8, 5u8]) =~= seq![0x33u8, 0x38u8, 0x3bu8, 0x35u8]);
    assert(params(codes) == seq![0x33u8, 0x38u8, 0x3bu8, 0x35u8] + seq![0x3bu8] + decimal(
        (8 + c.base_index()) as nat,
    ));
    assert(sgr(codes) =~= seq![ESC, 0x5bu8, 0x33u8, 0x38u8, 0x3bu8, 0x35u8, 0x3bu8] + decimal(
        (8 + c.base_index()) as nat,
    ) + seq![0x6du8]);
}

/// An RGB color renders as `ESC [ 38 ; 2 ; r ; g ; b m` on the foreground and
/// `ESC [ 48 ; 2 ; r ; g ; b m` on the background, whatever the intense flag.
pub proof fn lemma_rgb(r: u8, g: u8, b: u8, intense: bool)
    ensures
        color_sgr(Some(Color::Rgb(r, g, b)), false, intense) == sgr(seq![38u8, 2u8, r, g, b]),
        color_sgr(Some(Color::Rgb(r, g, b)), true, intense) == sgr(seq![48u8, 2u8, r, g, b]),
        render(Style { fg: Some(Color::Rgb(r, g, b)), intense: intense, ..Style::plain() }) == sgr(
            seq![38u8, 2u8, r, g, b],
        ),
        render(Style { bg: Some(Color::Rgb(r, g, b)), intense: intense, ..Style::plain() }) == sgr(
            seq![48u8, 2u8, r, g, b],
        ),
{
    let fg = Style { fg: Some(Color::Rgb(r, g, b)), intense: intense, ..Style::plain() };
    let bg = Style { bg: Some(Color::Rgb(r, g, b)), intense: intense, ..Style::plain() };
    assert(render(fg) =~= sgr(seq![38u8, 2u8, r, g, b]));
    assert(render(bg) =~= sgr(seq![48u8, 2u8, r, g, b]));
}

/// Merging with the default style resets to the default style, while merging
/// the default style with `s` gives `s` unchanged.
pub proof fn lemma_merge_default(s: Style)
    ensures
        merged(s, Style::plain()) == Style::plain(),
        merged(Style::plain(), s) == s,
{
}

/// When `next` has every attribute of `prev`, the transition is never a
/// reset.
pub proof fn lemma_superset_never_resets(prev: Style, next: Style)
    requires
        has_all_of(next, prev),
    ensures
        !(difference(prev, next) is Reset),
{
}

/// Going from the default style to `next` writes `next` in full, or nothing
/// when `next` is the default style too.
pub proof fn lemma_from_default(next: Style)
    ensures
        transition(Style::plain(), next) == if next == Style::plain() {
            Seq::<u8>::empty()
        } else {
            render(next)
        },
{
    if next != Style::plain() {
        assert(delta(Style::plain(), next) == next);
    }
}

/// When `next` drops a color or turns off bold, italic, underline or intense
/// that `prev` has, the transition is a reset, and what it writes after the
/// reset fragment is exactly what going from the default style to `next`
/// writes.
pub proof fn lemma_dropped_attribute_resets(prev: Style, next: Style)
    requires
        needs_reset(prev, next),
    ensures
        difference(prev, next) == Difference::Reset,
        transition(prev, next) == reset_sgr() + transition(Style::plain(), next),
{
    lemma_from_default(next);
}

} // verus!
