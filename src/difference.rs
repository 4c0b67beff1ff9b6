use vstd::prelude::*;

use crate::render::{render, reset_sgr};
use crate::style::Style;

verus! {

/// The transition from one rendered style to another.
#[derive(Debug, PartialEq, Eq, Structural, Copy, Clone)]
pub enum Difference {
    /// The two styles are equal: nothing needs to be written.
    Unchanged,
    /// The next style only adds to the previous one: writing this style,
    /// which holds just what changed, is enough.
    Add(Style),
    /// Some attribute of the previous style must be cleared: reset, then
    /// write the next style in full.
    Reset,
}

/// Whether going from `prev` to `next` drops a color or turns off bold,
/// italic, underline or intense, which only a reset can undo.
pub open spec fn needs_reset(prev: Style, next: Style) -> bool {
    ||| (prev.fg is Some && next.fg is None)
    ||| (prev.bg is Some && next.bg is None)
    ||| (prev.bold && !next.bold)
    ||| (prev.italic && !next.italic)
    ||| (prev.underline && !next.underline)
    ||| (prev.intense && !next.intense)
}

/// What must be added to `prev` to reach `next`: each color that changed,
/// and each flag that is newly on.
pub open spec fn delta(prev: Style, next: Style) -> Style {
    Style {
        fg: if next.fg != prev.fg { next.fg } else { None },
        bg: if next.bg != prev.bg { next.bg } else { None },
        bold: !prev.bold && next.bold,
        dimmed: !prev.dimmed && next.dimmed,
        italic: !prev.italic && next.italic,
        underline: !prev.underline && next.underline,
        blink: !prev.blink && next.blink,
        reverse: !prev.reverse && next.reverse,
        hidden: !prev.hidden && next.hidden,
        strikethrough: !prev.strikethrough && next.strikethrough,
        intense: !prev.intense && next.intense,
    }
}

/// The transition from `prev` to `next`.
pub open spec fn difference(prev: Style, next: Style) -> Difference {
    if prev == next {
        Difference::Unchanged
    } else if needs_reset(prev, next) {
        Difference::Reset
    } else {
        Difference::Add(delta(prev, next))
    }
}

/// The bytes written to move the terminal from `prev` to `next`.
///
/// Nothing for equal styles; the delta's fragments for an addition; for a
/// reset, the reset fragment followed by the fragments of `next`, where a
/// default `next` adds nothing after the reset.
pub open spec fn transition(prev: Style, next: Style) -> Seq<u8> {
    match difference(prev, next) {
        Difference::Unchanged => seq![],
        Difference::Add(d) => render(d),
        Difference::Reset => reset_sgr() + if next == Style::plain() {
            seq![]
        } else {
            render(next)
        },
    }
}

impl Difference {
    /// Computes the transition from `prev` to `next`.
    pub fn between(prev: &Style, next: &Style) -> (r: Difference)
        ensures
            r == difference(*prev, *next),
    {
        if prev == next {
            return Difference::Unchanged;
        }
        if (prev.fg.is_some() && next.fg.is_none()) || (prev.bg.is_some() && next.bg.is_none()) || (
        prev.bold && !next.bold) || (prev.italic && !next.italic) || (prev.underline
            && !next.underline) || (prev.intense && !next.intense) {
            return Difference::Reset;
        }
        Difference::Add(
            Style {
                fg: if next.fg != prev.fg {
                    next.fg
                } else {
                    None
                },
                bg: if next.bg != prev.bg {
                    next.bg
                } else {
                    None
                },
                bold: !prev.bold && next.bold,
                dimmed: !prev.dimmed && next.dimmed,
                italic: !prev.italic && next.italic,
                underline: !prev.underline && next.underline,
                blink: !prev.blink && next.blink,
                reverse: !prev.reverse && next.reverse,
                hidden: !prev.hidden && next.hidden,
                strikethrough: !prev.strikethrough && next.strikethrough,
                intense: !prev.intense && next.intense,
            },
        )
    }
}

impl Style {
    /// Appends to `out` only what moves the terminal from `prev` to this
    /// style. When `color_enabled` is false nothing is written.
    pub fn write_difference(&self, out: &mut Vec<u8>, prev: &Style, color_enabled: bool)
        ensures
            final(out)@ == old(out)@ + (if color_enabled {
                transition(*prev, *self)
            } else {
                seq![]
            }),
    {
        let ghost start = out@;
        if !color_enabled {
            assert(out@ =~= start + seq![]);
            return;
        }
        match Difference::between(prev, self) {
            Difference::Unchanged => {
                assert(out@ =~= start + seq![]);
            },
            Difference::Add(d) => {
                d.write_to(out, true);
            },
            Difference::Reset => {
                Style::reset().write_to(out, true);
                if !self.is_plain() {
                    self.write_to(out, true);
                } else {
                    assert(out@ =~= start + reset_sgr() + seq![]);
                }
            },
        }
    }
}

} // verus!
