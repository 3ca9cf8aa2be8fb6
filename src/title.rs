use vstd::prelude::*;
use crate::text::{char_from_u32, push_char};

verus! {

/// Horizontal alignment of a block title.
#[derive(Debug, Clone, Copy, PartialEq, Eq, Structural)]
pub enum TitleAlignment {
    /// At the start (left) of the border.
    Start,
    /// Centered on the border (default).
    Center,
    /// At the end (right) of the border.
    End,
}

impl Default for TitleAlignment {
    fn default() -> (r: Self)
        ensures
            r == TitleAlignment::Center,
    {
        TitleAlignment::Center
    }
}

/// Vertical position of a block title.
#[derive(Debug, Clone, Copy, PartialEq, Eq, Structural)]
pub enum TitlePosition {
    /// On the top border (default).
    Top,
    /// On the bottom border.
    Bottom,
}

impl Default for TitlePosition {
    fn default() -> (r: Self)
        ensures
            r == TitlePosition::Top,
    {
        TitlePosition::Top
    }
}

/// A Unicode "font" for title text, drawn from the mathematical
/// alphanumeric symbols.
#[derive(Debug, Clone, Copy, PartialEq, Eq, Structural)]
pub enum TitleStyle {
    /// Text left as it is (default).
    Normal,
    /// Bold letters and digits.
    Bold,
    /// Italic letters.
    Italic,
    /// Bold italic letters.
    BoldItalic,
    /// Script letters.
    Script,
    /// Bold script letters.
    BoldScript,
    /// Sans-serif letters and digits.
    SansSerif,
    /// Bold sans-serif letters and digits.
    BoldSansSerif,
    /// Italic sans-serif letters.
    ItalicSansSerif,
    /// Monospace letters and digits.
    Monospace,
}

impl Default for TitleStyle {
    fn default() -> (r: Self)
        ensures
            r == TitleStyle::Normal,
    {
        TitleStyle::Normal
    }
}

/// The code points at which a style's capital letters, small letters and
/// digits start; zero where the style leaves that range unchanged.
pub open spec fn style_bases(style: TitleStyle) -> (u32, u32, u32) {
    match style {
        TitleStyle::Normal => (0, 0, 0),
        TitleStyle::Bold => (0x1D400, 0x1D41A, 0x1D7CE),
        TitleStyle::Italic => (0x1D434, 0x1D44E, 0),
        TitleStyle::BoldItalic => (0x1D468, 0x1D482, 0),
        TitleStyle::Script => (0x1D49C, 0x1D4B6, 0),
        TitleStyle::BoldScript => (0x1D4D0, 0x1D4EA, 0),
        TitleStyle::SansSerif => (0x1D5A0, 0x1D5BA, 0x1D7E2),
        TitleStyle::BoldSansSerif => (0x1D5D4, 0x1D5EE, 0x1D7EC),
        TitleStyle::ItalicSansSerif => (0x1D608, 0x1D622, 0),
        TitleStyle::Monospace => (0x1D670, 0x1D68A, 0x1D7F6),
    }
}

/// The code of `c` once `style` is applied: an ASCII letter or digit moves
/// to the style's range when it has one, anything else stays.
pub open spec fn styled_code(style: TitleStyle, c: u32) -> u32 {
    let (upper, lower, digit) = style_bases(style);
    if 0x41 <= c <= 0x5A && upper != 0 {
        (upper + (c - 0x41)) as u32
    } else if 0x61 <= c <= 0x7A && lower != 0 {
        (lower + (c - 0x61)) as u32
    } else if 0x30 <= c <= 0x39 && digit != 0 {
        (digit + (c - 0x30)) as u32
    } else {
        c
    }
}

fn bases(style: TitleStyle) -> (r: (u32, u32, u32))
    ensures
        r == style_bases(style),
{
    match style {
        TitleStyle::Normal => (0, 0, 0),
        TitleStyle::Bold => (0x1D400, 0x1D41A, 0x1D7CE),
        TitleStyle::Italic => (0x1D434, 0x1D44E, 0),
        TitleStyle::BoldItalic => (0x1D468, 0x1D482, 0),
        TitleStyle::Script => (0x1D49C, 0x1D4B6, 0),
        TitleStyle::BoldScript => (0x1D4D0, 0x1D4EA, 0),
        TitleStyle::SansSerif => (0x1D5A0, 0x1D5BA, 0x1D7E2),
        TitleStyle::BoldSansSerif => (0x1D5D4, 0x1D5EE, 0x1D7EC),
        TitleStyle::ItalicSansSerif => (0x1D608, 0x1D622, 0),
        TitleStyle::Monospace => (0x1D670, 0x1D68A, 0x1D7F6),
    }
}

impl TitleStyle {
    /// `text` with each character mapped through the style (see
    /// `styled_code`); the result has as many characters as `text`.
    pub fn apply(&self, text: &str) -> (r: String)
        ensures
            r@.len() == text@.len(),
            forall|i: int| 0 <= i < text@.len() ==> r@[i] as u32 == styled_code(*self, text@[i] as u32),
    {
        let (upper, lower, digit) = bases(*self);
        let n = text.unicode_len();
        let mut out = String::new();
        let mut i: usize = 0;
        while i < n
            invariant
                n == text@.len(),
                i <= n,
                (upper, lower, digit) == style_bases(*self),
                out@.len() == i,
                forall|k: int| 0 <= k < i ==> out@[k] as u32 == styled_code(*self, text@[k] as u32),
            decreases n - i,
        {
            let c = text.get_char(i);
            let code = c as u32;
            let mapped: u32 = if 0x41 <= code && code <= 0x5A && upper != 0 {
                upper + (code - 0x41)
            } else if 0x61 <= code && code <= 0x7A && lower != 0 {
                lower + (code - 0x61)
            } else if 0x30 <= code && code <= 0x39 && digit != 0 {
                digit + (code - 0x30)
            } else {
                code
            };
            let d = match char_from_u32(mapped) {
                Some(d) => d,
                None => c,
            };
            proof {
                vstd::utf8::char_is_scalar(c);
            }
            push_char(&mut out, d);
            i = i + 1;
        }
        out
    }
}

} // verus!
