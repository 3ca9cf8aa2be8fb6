use vstd::prelude::*;

verus! {

/// The border styles that a chart's surrounding block can take.
#[derive(Debug, Clone, Copy, PartialEq, Eq, Structural)]
pub enum BorderStyle {
    /// Single lines with square corners (default).
    Standard,
    /// Single lines with rounded corners.
    Rounded,
    /// Dashed lines with square corners.
    Dashed,
    /// Dashed lines with rounded corners.
    RoundedDashed,
    /// Single lines with blank corners.
    CornerGapped,
    /// Single lines with blank, rounded-style corners.
    RoundedCornerGapped,
    /// Double lines with square corners.
    DoubleLineStandard,
    /// Double lines with rounded corners.
    DoubleLineRounded,
    /// Thick lines with square corners.
    Thick,
    /// Thick lines with rounded corners.
    ThickRounded,
    /// Thick dashed lines.
    ThickDashed,
    /// Thick lines with blank corners.
    ThickCornerGapped,
}

impl Default for BorderStyle {
    fn default() -> (r: Self)
        ensures
            r == BorderStyle::Standard,
    {
        BorderStyle::Standard
    }
}

} // verus!
