use vstd::prelude::*;

use crate::color::Color;

verus! {

/// One instruction that sets an attribute; a sequence of them builds a
/// [`Style`].
#[derive(Debug, PartialEq, Eq, Structural, Copy, Clone)]
pub enum StyleSpec {
    /// Go back to the plain terminal style.
    Reset,
    /// Bold text.
    Bold,
    /// Underlined text.
    Underline,
    /// Italic text.
    Italic,
    /// Bright variants of the named colors.
    Intense,
    /// Set the foreground color.
    Fg(Color),
    /// Set the background color.
    Bg(Color),
    /// A raw SGR code; it has no attribute of its own in a style.
    Number(u8),
}

/// The attributes applied to a span of text: optional foreground and
/// background colors and a set of independent flags.
///
/// An unset color means "inherit the terminal's default". `intense` is not a
/// color of its own: it makes named colors render through the bright range of
/// the 256-color palette.
#[derive(Debug, PartialEq, Eq, Structural, Copy, Clone)]
pub struct Style {
    pub fg: Option<Color>,
    pub bg: Option<Color>,
    pub bold: bool,
    pub dimmed: bool,
    pub italic: bool,
    pub underline: bool,
    pub blink: bool,
    pub reverse: bool,
    pub hidden: bool,
    pub strikethrough: bool,
    pub intense: bool,
}

impl Style {
    /// The default style: no colors and every flag off.
    pub open spec fn plain() -> Style {
        Style {
            fg: None,
            bg: None,
            bold: false,
            dimmed: false,
            italic: false,
            underline: false,
            blink: false,
            reverse: false,
            hidden: false,
            strikethrough: false,
            intense: false,
        }
    }

    /// Create a new style with no colors and no flags.
    pub fn new() -> (r: Style)
        ensures
            r == Style::plain(),
    {
        Style {
            fg: None,
            bg: None,
            bold: false,
            dimmed: false,
            italic: false,
            underline: false,
            blink: false,
            reverse: false,
            hidden: false,
            strikethrough: false,
            intense: false,
        }
    }
}

impl Style {
    /// The style that resets the terminal: the default style.
    pub fn reset() -> (r: Style)
        ensures
            r == Style::plain(),
    {
        Style::new()
    }
}

/// `b` applied after `a`: colors of `b` override those of `a` and flags
/// accumulate, except that merging with the default style resets to it.
pub open spec fn merged(a: Style, b: Style) -> Style {
    if b == Style::plain() {
        Style::plain()
    } else {
        Style {
            fg: if b.fg is Some { b.fg } else { a.fg },
            bg: if b.bg is Some { b.bg } else { a.bg },
            bold: a.bold || b.bold,
            dimmed: a.dimmed || b.dimmed,
            italic: a.italic || b.italic,
            underline: a.underline || b.underline,
            blink: a.blink || b.blink,
            reverse: a.reverse || b.reverse,
            hidden: a.hidden || b.hidden,
            strikethrough: a.strikethrough || b.strikethrough,
            intense: a.intense || b.intense,
        }
    }
}

/// Style `s` with the attribute of `spec` set.
pub open spec fn with_spec(s: Style, spec: StyleSpec) -> Style {
    match spec {
        StyleSpec::Reset => Style::plain(),
        StyleSpec::Bold => Style { bold: true, ..s },
        StyleSpec::Underline => Style { underline: true, ..s },
        StyleSpec::Italic => Style { italic: true, ..s },
        StyleSpec::Intense => Style { intense: true, ..s },
        StyleSpec::Fg(c) => Style { fg: Some(c), ..s },
        StyleSpec::Bg(c) => Style { bg: Some(c), ..s },
        StyleSpec::Number(_) => s,
    }
}

/// Style `s` with the attribute of `spec` cleared.
pub open spec fn without_spec(s: Style, spec: StyleSpec) -> Style {
    match spec {
        StyleSpec::Bold => Style { bold: false, ..s },
        StyleSpec::Underline => Style { underline: false, ..s },
        StyleSpec::Italic => Style { italic: false, ..s },
        StyleSpec::Intense => Style { intense: false, ..s },
        StyleSpec::Fg(_) => Style { fg: None, ..s },
        StyleSpec::Bg(_) => Style { bg: None, ..s },
        StyleSpec::Reset | StyleSpec::Number(_) => s,
    }
}

/// Style `s` with each of `specs` applied in order.
pub open spec fn with_specs(s: Style, specs: Seq<StyleSpec>) -> Style
    decreases specs.len(),
{
    if specs.len() == 0 {
        s
    } else {
        with_spec(with_specs(s, specs.drop_last()), specs.last())
    }
}

impl Style {
    /// Combines this style with `with`, applied after it: `with`'s colors
    /// override, flags accumulate, and merging with the default style gives
    /// the default style.
    pub fn merge(self, with: Style) -> (r: Style)
        ensures
            r == merged(self, with),
    {
        if with.is_plain() {
            return Style::new();
        }
        Style {
            fg: if with.fg.is_some() {
                with.fg
            } else {
                self.fg
            },
            bg: if with.bg.is_some() {
                with.bg
            } else {
                self.bg
            },
            bold: with.bold || self.bold,
            dimmed: with.dimmed || self.dimmed,
            italic: with.italic || self.italic,
            underline: with.underline || self.underline,
            blink: with.blink || self.blink,
            reverse: with.reverse || self.reverse,
            hidden: with.hidden || self.hidden,
            strikethrough: with.strikethrough || self.strikethrough,
            intense: with.intense || self.intense,
        }
    }

    /// Merges `with` into this style in place; see [`Style::merge`].
    pub fn merge_assign(&mut self, with: Style)
        ensures
            *final(self) == merged(*old(self), with),
    {
        *self = self.merge(with);
    }

    /// Sets the attribute that `style` names; `Reset` goes back to the
    /// default style and a raw code changes nothing.
    pub fn add_spec(&mut self, style: StyleSpec) -> (r: &mut Style)
        ensures
            *r == with_spec(*old(self), style),
            *final(self) == *final(r),
    {
        match style {
            StyleSpec::Fg(color) => self.fg = Some(color),
            StyleSpec::Bg(color) => self.bg = Some(color),
            StyleSpec::Bold => self.bold = true,
            StyleSpec::Italic => self.italic = true,
            StyleSpec::Intense => self.intense = true,
            StyleSpec::Underline => self.underline = true,
            StyleSpec::Reset => *self = Style::new(),
            StyleSpec::Number(_) => {},
        }
        self
    }

    /// Clears the attribute that `style` names; `Reset` and a raw code change
    /// nothing.
    pub fn remove(&mut self, style: StyleSpec) -> (r: &mut Style)
        ensures
            *r == without_spec(*old(self), style),
            *final(self) == *final(r),
    {
        match style {
            StyleSpec::Fg(_) => self.fg = None,
            StyleSpec::Bg(_) => self.bg = None,
            StyleSpec::Bold => self.bold = false,
            StyleSpec::Italic => self.italic = false,
            StyleSpec::Intense => self.intense = false,
            StyleSpec::Underline => self.underline = false,
            StyleSpec::Reset | StyleSpec::Number(_) => {},
        }
        self
    }

    /// Applies each of `specs` to this style, in order.
    pub fn extend_specs(&mut self, specs: &[StyleSpec])
        ensures
            *final(self) == with_specs(*old(self), specs@),
    {
        let ghost start = *self;
        let mut i: usize = 0;
        while i < specs.len()
            invariant
                i <= specs@.len(),
                *self == with_specs(start, specs@.take(i as int)),
            decreases specs@.len() - i,
        {
            self.add_spec(specs[i]);
            assert(specs@.take(i + 1).drop_last() =~= specs@.take(i as int));
            i = i + 1;
        }
        assert(specs@.take(i as int) =~= specs@);
    }

    /// Builds a style from the default one by applying each of `specs` in
    /// order.
    pub fn from_specs(specs: &[StyleSpec]) -> (r: Style)
        ensures
            r == with_specs(Style::plain(), specs@),
    {
        let mut style = Style::new();
        style.extend_specs(specs);
        style
    }
}

impl Style {
    /// Create a new style with the foreground color set.
    pub fn from_fg(color: Color) -> (r: Style)
        ensures
            r == (Style { fg: Some(color), ..Style::plain() }),
    {
        Style { fg: Some(color), ..Style::new() }
    }

    /// Create a new style with the background color set.
    pub fn from_bg(color: Color) -> (r: Style)
        ensures
            r == (Style { bg: Some(color), ..Style::plain() }),
    {
        Style { bg: Some(color), ..Style::new() }
    }

    /// Set the foreground color, or unset it with `None`; returns the updated
    /// style.
    pub fn fg(&mut self, color: Option<Color>) -> (r: Style)
        ensures
            *final(self) == (Style { fg: color, ..*old(self) }),
            r == *final(self),
    {
        self.fg = color;
        *self
    }

    /// Set the background color, or unset it with `None`; returns the updated
    /// style.
    pub fn bg(&mut self, color: Option<Color>) -> (r: Style)
        ensures
            *final(self) == (Style { bg: color, ..*old(self) }),
            r == *final(self),
    {
        self.bg = color;
        *self
    }

    /// Set the intense flag; returns the updated style.
    pub fn intense(&mut self, intense: bool) -> (r: Style)
        ensures
            *final(self) == (Style { intense: intense, ..*old(self) }),
            r == *final(self),
    {
        self.intense = intense;
        *self
    }

    /// Set the italic flag; returns the updated style.
    pub fn italic(&mut self, italic: bool) -> (r: Style)
        ensures
            *final(self) == (Style { italic: italic, ..*old(self) }),
            r == *final(self),
    {
        self.italic = italic;
        *self
    }

    /// Set the underline flag; returns the updated style.
    pub fn underline(&mut self, underline: bool) -> (r: Style)
        ensures
            *final(self) == (Style { underline: underline, ..*old(self) }),
            r == *final(self),
    {
        self.underline = underline;
        *self
    }

    /// Set the bold flag; returns the updated style.
    pub fn bold(&mut self, bold: bool) -> (r: Style)
        ensures
            *final(self) == (Style { bold: bold, ..*old(self) }),
            r == *final(self),
    {
        self.bold = bold;
        *self
    }
}

impl From<StyleSpec> for Style {
    /// The default style with the attribute of `s` set.
    fn from(s: StyleSpec) -> (r: Style) {
        let mut style = Style::new();
        *style.add_spec(s)
    }
}

impl vstd::std_specs::convert::FromSpecImpl<StyleSpec> for Style {
    open spec fn obeys_from_spec() -> bool {
        true
    }

    open spec fn from_spec(s: StyleSpec) -> Style {
        with_spec(Style::plain(), s)
    }
}

impl From<Color> for Style {
    /// A style with `c` as its foreground color.
    fn from(c: Color) -> (r: Style) {
        c.normal()
    }
}

impl vstd::std_specs::convert::FromSpecImpl<Color> for Style {
    open spec fn obeys_from_spec() -> bool {
        true
    }

    open spec fn from_spec(c: Color) -> Style {
        Style { fg: Some(c), ..Style::plain() }
    }
}

impl Default for Style {
    fn default() -> (r: Style)
        ensures
            r == Style::plain(),
    {
        Style::new()
    }
}

} // verus!
