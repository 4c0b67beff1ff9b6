use vstd::prelude::*;

use crate::style::Style;

verus! {

/// A foreground or background color.
#[derive(Debug, PartialEq, Eq, Structural, Copy, Clone)]
pub enum Color {
    /// Red text.
    Red,
    /// Green text.
    Green,
    /// Yellow text.
    Yellow,
    /// Blue text.
    Blue,
    /// Magenta (purple) text.
    Magenta,
    /// Cyan text.
    Cyan,
    /// White text.
    White,
    /// Black text.
    Black,
    /// An index into the 256-color palette.
    Fixed(u8),
    /// A 24-bit true color, one byte per channel.
    Rgb(u8, u8, u8),
}

impl Color {
    /// Whether this is one of the eight named base colors.
    pub open spec fn is_named(self) -> bool {
        !(self is Fixed) && !(self is Rgb)
    }

    /// Position of a named color in the ANSI base palette
    /// (black 0, red 1, green 2, yellow 3, blue 4, magenta 5, cyan 6, white 7).
    pub open spec fn base_index(self) -> u8 {
        match self {
            Color::Black => 0,
            Color::Red => 1,
            Color::Green => 2,
            Color::Yellow => 3,
            Color::Blue => 4,
            Color::Magenta => 5,
            Color::Cyan => 6,
            Color::White => 7,
            Color::Fixed(_) => 0,
            Color::Rgb(_, _, _) => 0,
        }
    }
}

impl Color {
    /// Returns a style with this color as its foreground.
    pub fn normal(self) -> (r: Style)
        ensures
            r == (Style { fg: Some(self), ..Style::plain() }),
    {
        Style { fg: Some(self), ..Style::new() }
    }

    /// Returns a style with this foreground color and bold text.
    pub fn bold(self) -> (r: Style)
        ensures
            r == (Style { fg: Some(self), bold: true, ..Style::plain() }),
    {
        Style { fg: Some(self), bold: true, ..Style::new() }
    }

    /// Returns a style with this foreground color and dimmed text.
    pub fn dimmed(self) -> (r: Style)
        ensures
            r == (Style { fg: Some(self), dimmed: true, ..Style::plain() }),
    {
        Style { fg: Some(self), dimmed: true, ..Style::new() }
    }

    /// Returns a style with this foreground color and italic text.
    pub fn italic(self) -> (r: Style)
        ensures
            r == (Style { fg: Some(self), italic: true, ..Style::plain() }),
    {
        Style { fg: Some(self), italic: true, ..Style::new() }
    }

    /// Returns a style with this foreground color and underlined text.
    pub fn underline(self) -> (r: Style)
        ensures
            r == (Style { fg: Some(self), underline: true, ..Style::plain() }),
    {
        Style { fg: Some(self), underline: true, ..Style::new() }
    }

    /// Returns a style with this foreground color and blinking text.
    pub fn blink(self) -> (r: Style)
        ensures
            r == (Style { fg: Some(self), blink: true, ..Style::plain() }),
    {
        Style { fg: Some(self), blink: true, ..Style::new() }
    }

    /// Returns a style with this foreground color and struck-through text.
    pub fn strikethrough(self) -> (r: Style)
        ensures
            r == (Style { fg: Some(self), strikethrough: true, ..Style::plain() }),
    {
        Style { fg: Some(self), strikethrough: true, ..Style::new() }
    }

    /// Returns a style with this foreground color, intense.
    pub fn intense(self) -> (r: Style)
        ensures
            r == (Style { fg: Some(self), intense: true, ..Style::plain() }),
    {
        Style { fg: Some(self), intense: true, ..Style::new() }
    }

    /// Returns a style with this foreground color on background `bg`.
    pub fn on(self, bg: Color) -> (r: Style)
        ensures
            r == (Style { fg: Some(self), bg: Some(bg), ..Style::plain() }),
    {
        Style { fg: Some(self), bg: Some(bg), ..Style::new() }
    }
}

} // verus!
