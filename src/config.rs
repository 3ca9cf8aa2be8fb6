use vstd::prelude::*;

verus! {

/// How the disc is drawn.
#[derive(Debug, Clone, Copy, PartialEq, Eq, Structural)]
pub enum Resolution {
    /// One glyph per cell (default).
    Standard,
    /// Eight braille dots per cell, two wide and four tall.
    Braille,
}

impl Default for Resolution {
    fn default() -> (r: Self)
        ensures
            r == Resolution::Standard,
    {
        Resolution::Standard
    }
}

/// The side of the chart that the legend takes.
#[derive(Debug, Clone, Copy, PartialEq, Eq, Structural)]
pub enum LegendPosition {
    /// Right of the disc (default).
    Right,
    /// Left of the disc.
    Left,
    /// Above the disc.
    Top,
    /// Below the disc.
    Bottom,
}

impl Default for LegendPosition {
    fn default() -> (r: Self)
        ensures
            r == LegendPosition::Right,
    {
        LegendPosition::Right
    }
}

/// How legend entries are laid out.
#[derive(Debug, Clone, Copy, PartialEq, Eq, Structural)]
pub enum LegendLayout {
    /// One entry per line, a blank line between entries (default).
    Vertical,
    /// All entries on one row.
    Horizontal,
}

impl Default for LegendLayout {
    fn default() -> (r: Self)
        ensures
            r == LegendLayout::Vertical,
    {
        LegendLayout::Vertical
    }
}

/// Where legend text sits within the legend area.
#[derive(Debug, Clone, Copy, PartialEq, Eq, Structural)]
pub enum LegendAlignment {
    /// Flush left (default).
    Left,
    /// Centered.
    Center,
    /// Flush right.
    Right,
}

impl Default for LegendAlignment {
    fn default() -> (r: Self)
        ensures
            r == LegendAlignment::Left,
    {
        LegendAlignment::Left
    }
}

/// A rectangle of terminal cells.
#[derive(Debug, Clone, Copy, PartialEq, Eq, Structural)]
pub struct Rect {
    pub x: u16,
    pub y: u16,
    pub width: u16,
    pub height: u16,
}

impl Rect {
    /// Whether the rectangle holds no cell.
    pub fn is_empty(&self) -> (r: bool)
        ensures
            r == (self.width == 0 || self.height == 0),
    {
        self.width == 0 || self.height == 0
    }
}

} // verus!
