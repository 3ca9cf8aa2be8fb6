use vstd::prelude::*;
use crate::config::{LegendAlignment, LegendLayout, LegendPosition, Rect, Resolution};
use crate::legend::{entry_text, legend_entry_text};
use crate::slice::{
    cumulative, lemma_cumulative_mono, lemma_cumulative_step, percent_of, percent_tenths, total_of,
    total_value, PieSlice,
};
use crate::symbols::{LEGEND_MARKER, PIE_CHAR};

verus! {

/// Below this width the legend is left out.
pub const MIN_LEGEND_AREA_WIDTH: u16 = 20;

/// Below this height the legend is left out.
pub const MIN_LEGEND_AREA_HEIGHT: u16 = 10;

/// The narrowest a side legend in vertical layout is made.
pub const MIN_SIDE_LEGEND_WIDTH: u16 = 20;

/// The widest a side legend in horizontal layout is made.
pub const MAX_ROW_LEGEND_WIDTH: u16 = 60;

/// Height of the strip that a one-row legend above or below the disc takes.
pub const ROW_LEGEND_HEIGHT: u16 = 3;

/// The lowest a stacked legend above or below the disc is made.
pub const MIN_STACK_LEGEND_HEIGHT: u16 = 4;

/// The highest a stacked legend above or below the disc is made.
pub const MAX_STACK_LEGEND_HEIGHT: u16 = 9;

/// Widths are measured up to this value; anything wider is this wide.
pub const WIDTH_CAP: u16 = 0xFFFF;

/// A pie chart: the slices and how they are drawn.
#[derive(Debug, Clone)]
pub struct PieChart {
    /// The slices, in drawing, angle and legend order.
    pub slices: Vec<PieSlice>,
    /// Whether a legend is drawn.
    pub show_legend: bool,
    /// Whether legend entries show each slice's share.
    pub show_percentages: bool,
    /// The glyph of the disc in standard resolution.
    pub pie_char: char,
    /// The marker in front of each legend entry.
    pub legend_marker: String,
    /// Standard or braille drawing.
    pub resolution: Resolution,
    /// The side that the legend takes.
    pub legend_position: LegendPosition,
    /// Stacked or one-row legend.
    pub legend_layout: LegendLayout,
    /// Placement of legend text within the legend area.
    pub legend_alignment: LegendAlignment,
}

/// A share in percent as an exact fraction: `numerator / denominator`.
#[derive(Debug, Clone, Copy, PartialEq, Eq, Structural)]
pub struct Percentage {
    pub numerator: u128,
    pub denominator: u128,
}

/// Whether the rectangle lies within the coordinate range.
pub open spec fn rect_wf(r: Rect) -> bool {
    r.x + r.width <= 0xFFFF && r.y + r.height <= 0xFFFF
}

impl PieChart {
    /// Sum of the slice values.
    pub open spec fn total_spec(&self) -> int {
        total_of(self.slices@)
    }

    /// The legend text of slice `i`.
    pub open spec fn item_text(&self, i: int) -> Seq<char> {
        entry_text(
            self.legend_marker@,
            self.slices@[i].label@,
            percent_tenths(self.slices@[i].value as int, self.total_spec()) as nat,
            self.show_percentages,
        )
    }

    /// The width of slice `i`'s legend entry in a row: its text and two
    /// spaces.
    pub open spec fn item_width(&self, i: int) -> int {
        self.item_text(i).len() as int + 2
    }

    /// The widest of the first `n` entries.
    pub open spec fn max_item_width(&self, n: int) -> int
        decreases n,
    {
        if n <= 0 {
            0
        } else {
            vstd::math::max(self.max_item_width(n - 1), self.item_width(n - 1))
        }
    }

    /// The combined width of the first `n` entries.
    pub open spec fn sum_item_width(&self, n: int) -> int
        decreases n,
    {
        if n <= 0 {
            0
        } else {
            self.sum_item_width(n - 1) + self.item_width(n - 1)
        }
    }

    /// Width that a stacked legend needs: its widest entry and two cells of
    /// padding.
    pub open spec fn stacked_width(&self) -> int {
        self.max_item_width(self.slices@.len() as int) + 2
    }

    /// Width that a one-row legend needs: all its entries side by side.
    pub open spec fn row_width(&self) -> int {
        self.sum_item_width(self.slices@.len() as int)
    }

    /// Width of a legend beside the disc in an area `w` cells wide: a
    /// stacked legend takes what it needs within a third of the area but no
    /// less than twenty cells; a one-row legend takes what it needs within
    /// four fifths of the area and sixty cells.
    pub open spec fn side_legend_width(&self, w: int) -> int {
        match self.legend_layout {
            LegendLayout::Vertical => vstd::math::max(
                vstd::math::min(self.stacked_width(), w / 3),
                MIN_SIDE_LEGEND_WIDTH as int,
            ),
            LegendLayout::Horizontal => vstd::math::min(
                self.row_width(),
                vstd::math::min(w * 4 / 5, MAX_ROW_LEGEND_WIDTH as int),
            ),
        }
    }

    /// Height of the strip that a legend above or below the disc takes: a
    /// one-row legend takes three rows; a stacked one, a single column, two
    /// rows per entry, kept between four and nine rows.
    pub open spec fn strip_height(&self) -> int {
        match self.legend_layout {
            LegendLayout::Horizontal => ROW_LEGEND_HEIGHT as int,
            LegendLayout::Vertical => {
                let n = self.slices@.len() as int;
                vstd::math::min(
                    vstd::math::max(2 * n, MIN_STACK_LEGEND_HEIGHT as int),
                    MAX_STACK_LEGEND_HEIGHT as int,
                )
            },
        }
    }

    /// The disc's rectangle and the legend's, if any, within `area`. The
    /// legend's strip lies beside the disc, one cell apart; the legend keeps
    /// one cell of padding within its strip on every side but the one facing
    /// the disc.
    pub open spec fn layout(&self, area: Rect) -> (Rect, Option<Rect>) {
        let (x, y, w, h) = (area.x as int, area.y as int, area.width as int, area.height as int);
        if !self.show_legend || w < MIN_LEGEND_AREA_WIDTH || h < MIN_LEGEND_AREA_HEIGHT {
            (area, None)
        } else {
            match self.legend_position {
                LegendPosition::Right | LegendPosition::Left => {
                    let lw = self.side_legend_width(w);
                    let pw = w - lw - 1;
                    if pw <= 0 {
                        (area, None)
                    } else if self.legend_position == LegendPosition::Right {
                        (
                            Rect { x: area.x, y: area.y, width: pw as u16, height: area.height },
                            Some(Rect { x: (x + pw + 1) as u16, y: (y + 1) as u16, width: vstd::math::max(lw - 1, 0) as u16, height: (h - 2) as u16 }),
                        )
                    } else {
                        (
                            Rect { x: (x + lw + 1) as u16, y: area.y, width: pw as u16, height: area.height },
                            Some(Rect { x: (x + 1) as u16, y: (y + 1) as u16, width: vstd::math::max(lw - 1, 0) as u16, height: (h - 2) as u16 }),
                        )
                    }
                },
                LegendPosition::Top | LegendPosition::Bottom => {
                    let lh = self.strip_height();
                    let ph = h - lh - 1;
                    if ph <= 0 {
                        (area, None)
                    } else if self.legend_position == LegendPosition::Top {
                        (
                            Rect { x: area.x, y: (y + lh + 1) as u16, width: area.width, height: ph as u16 },
                            Some(Rect { x: (x + 1) as u16, y: (y + 1) as u16, width: (w - 2) as u16, height: (lh - 1) as u16 }),
                        )
                    } else {
                        (
                            Rect { x: area.x, y: area.y, width: area.width, height: ph as u16 },
                            Some(Rect { x: (x + 1) as u16, y: (y + ph + 1) as u16, width: (w - 2) as u16, height: (lh - 1) as u16 }),
                        )
                    }
                },
            }
        }
    }

    /// The disc's and the legend's rectangles lie within the area.
    pub proof fn lemma_layout_within(&self, area: Rect)
        requires
            rect_wf(area),
        ensures
            rect_wf(self.layout(area).0),
            self.layout(area).0.width <= area.width,
            self.layout(area).0.height <= area.height,
            8 * area.width * area.height <= usize::MAX ==> 8 * self.layout(area).0.width * self.layout(area).0.height <= usize::MAX,
            self.layout(area).1 matches Some(l) ==> rect_wf(l),
    {
        self.lemma_widths_nonneg(self.slices@.len() as int);
        let p = self.layout(area).0;
        assert(8 * p.width * p.height <= 8 * area.width * area.height) by (nonlinear_arith)
            requires p.width <= area.width, p.height <= area.height;
    }

    pub(crate) proof fn lemma_widths_nonneg(&self, n: int)
        ensures
            self.sum_item_width(n) >= 0,
            self.max_item_width(n) >= 0,
        decreases n,
    {
        if n > 0 {
            self.lemma_widths_nonneg(n - 1);
        }
    }

    proof fn lemma_value_le_total(&self, i: int)
        requires
            0 <= i < self.slices@.len(),
        ensures
            self.slices@[i].value <= self.total_spec(),
    {
        lemma_cumulative_step(self.slices@, i);
        lemma_cumulative_mono(self.slices@, i, i + 1);
        lemma_cumulative_mono(self.slices@, i + 1, self.slices@.len() as int);
    }

    /// The legend widths that the slices need, stacked and in a row, each
    /// capped at `WIDTH_CAP`.
    pub(crate) fn measure_legend(&self) -> (r: (u16, u16))
        ensures
            r.0 == vstd::math::min(self.stacked_width(), WIDTH_CAP as int),
            r.1 == vstd::math::min(self.row_width(), WIDTH_CAP as int),
    {
        let total = total_value(&self.slices);
        let mut widest: u16 = 0;
        let mut sum: u16 = 0;
        let mut i: usize = 0;
        while i < self.slices.len()
            invariant
                i <= self.slices@.len(),
                total == self.total_spec(),
                total <= crate::slice::MAX_TOTAL,
                widest == vstd::math::min(self.max_item_width(i as int), WIDTH_CAP as int),
                sum == vstd::math::min(self.sum_item_width(i as int), WIDTH_CAP as int),
                self.max_item_width(i as int) >= 0,
            decreases self.slices@.len() - i,
        {
            proof {
                self.lemma_value_le_total(i as int);
            }
            let slice = &self.slices[i];
            let tenths = percent_of(slice.value, total);
            let text = legend_entry_text(self.legend_marker.as_str(), slice.label.as_str(), tenths, self.show_percentages);
            let len = text.as_str().unicode_len();
            let w: u16 = if len >= (WIDTH_CAP - 2) as usize {
                WIDTH_CAP
            } else {
                (len + 2) as u16
            };
            if w > widest {
                widest = w;
            }
            sum = if (sum as u32) + (w as u32) >= WIDTH_CAP as u32 {
                WIDTH_CAP
            } else {
                sum + w
            };
            i = i + 1;
        }
        let stacked: u16 = if widest >= WIDTH_CAP - 2 {
            WIDTH_CAP
        } else {
            widest + 2
        };
        (stacked, sum)
    }

    /// Splits `area` between the disc and the legend (see `layout`).
    pub fn calculate_layout(&self, area: Rect) -> (r: (Rect, Option<Rect>))
        requires
            rect_wf(area),
        ensures
            r == self.layout(area),
    {
        if !self.show_legend || area.width < MIN_LEGEND_AREA_WIDTH || area.height < MIN_LEGEND_AREA_HEIGHT {
            return (area, None);
        }
        let (x, y, w, h) = (area.x, area.y, area.width, area.height);
        match self.legend_position {
            LegendPosition::Right | LegendPosition::Left => {
                let (stacked, row) = self.measure_legend();
                let lw: u16 = match self.legend_layout {
                    LegendLayout::Vertical => {
                        let m = if stacked < w / 3 { stacked } else { w / 3 };
                        if m < MIN_SIDE_LEGEND_WIDTH { MIN_SIDE_LEGEND_WIDTH } else { m }
                    },
                    LegendLayout::Horizontal => {
                        let four_fifths = ((w as u32) * 4 / 5) as u16;
                        let cap = if four_fifths < MAX_ROW_LEGEND_WIDTH { four_fifths } else { MAX_ROW_LEGEND_WIDTH };
                        if row < cap { row } else { cap }
                    },
                };
                if w <= lw + 1 {
                    return (area, None);
                }
                let pw = w - lw - 1;
                let inner: u16 = if lw > 0 { lw - 1 } else { 0 };
                if self.legend_position == LegendPosition::Right {
                    (
                        Rect { x, y, width: pw, height: h },
                        Some(Rect { x: x + pw + 1, y: y + 1, width: inner, height: h - 2 }),
                    )
                } else {
                    (
                        Rect { x: x + lw + 1, y, width: pw, height: h },
                        Some(Rect { x: x + 1, y: y + 1, width: inner, height: h - 2 }),
                    )
                }
            },
            LegendPosition::Top | LegendPosition::Bottom => {
                let lh: u16 = match self.legend_layout {
                    LegendLayout::Horizontal => ROW_LEGEND_HEIGHT,
                    LegendLayout::Vertical => {
                        let n = self.slices.len();
                        if n <= 2 {
                            MIN_STACK_LEGEND_HEIGHT
                        } else if n >= 5 {
                            MAX_STACK_LEGEND_HEIGHT
                        } else {
                            (2 * n) as u16
                        }
                    },
                };
                if h <= lh + 1 {
                    return (area, None);
                }
                let ph = h - lh - 1;
                if self.legend_position == LegendPosition::Top {
                    (
                        Rect { x, y: y + lh + 1, width: w, height: ph },
                        Some(Rect { x: x + 1, y: y + 1, width: w - 2, height: lh - 1 }),
                    )
                } else {
                    (
                        Rect { x, y, width: w, height: ph },
                        Some(Rect { x: x + 1, y: y + ph + 1, width: w - 2, height: lh - 1 }),
                    )
                }
            },
        }
    }
}

impl Default for PieChart {
    /// No slices; legend and percentages shown; the default glyph and
    /// marker; standard resolution; legend on the right, stacked, flush left.
    fn default() -> (r: Self)
        ensures
            r.slices@.len() == 0,
            r.show_legend,
            r.show_percentages,
            r.pie_char == PIE_CHAR,
            r.legend_marker@ == LEGEND_MARKER@,
            r.resolution == Resolution::Standard,
            r.legend_position == LegendPosition::Right,
            r.legend_layout == LegendLayout::Vertical,
            r.legend_alignment == LegendAlignment::Left,
    {
        PieChart {
            slices: Vec::new(),
            show_legend: true,
            show_percentages: true,
            pie_char: PIE_CHAR,
            legend_marker: LEGEND_MARKER.to_owned(),
            resolution: Resolution::Standard,
            legend_position: LegendPosition::Right,
            legend_layout: LegendLayout::Vertical,
            legend_alignment: LegendAlignment::Left,
        }
    }
}

impl PieChart {
    /// A chart of `slices` with every other setting at its default.
    pub fn new(slices: Vec<PieSlice>) -> (r: Self)
        ensures
            r.slices@ == slices@,
            r.show_legend,
            r.show_percentages,
            r.pie_char == PIE_CHAR,
            r.legend_marker@ == LEGEND_MARKER@,
            r.resolution == Resolution::Standard,
            r.legend_position == LegendPosition::Right,
            r.legend_layout == LegendLayout::Vertical,
            r.legend_alignment == LegendAlignment::Left,
    {
        let mut chart = PieChart::default();
        chart.slices = slices;
        chart
    }

    /// The chart with its slices replaced.
    pub fn slices(self, slices: Vec<PieSlice>) -> (r: Self)
        ensures
            r == (PieChart { slices, ..self }),
    {
        PieChart { slices, ..self }
    }

    /// The chart with the legend shown or not.
    pub fn show_legend(self, show: bool) -> (r: Self)
        ensures
            r == (PieChart { show_legend: show, ..self }),
    {
        PieChart { show_legend: show, ..self }
    }

    /// The chart with shares shown in the legend or not.
    pub fn show_percentages(self, show: bool) -> (r: Self)
        ensures
            r == (PieChart { show_percentages: show, ..self }),
    {
        PieChart { show_percentages: show, ..self }
    }

    /// The chart with another glyph for the disc.
    pub fn pie_char(self, c: char) -> (r: Self)
        ensures
            r == (PieChart { pie_char: c, ..self }),
    {
        PieChart { pie_char: c, ..self }
    }

    /// The chart with another legend marker.
    pub fn legend_marker(self, marker: &str) -> (r: Self)
        ensures
            r.legend_marker@ == marker@,
            r == (PieChart { legend_marker: r.legend_marker, ..self }),
    {
        PieChart { legend_marker: marker.to_owned(), ..self }
    }

    /// The chart drawn in another resolution.
    pub fn resolution(self, resolution: Resolution) -> (r: Self)
        ensures
            r == (PieChart { resolution, ..self }),
    {
        PieChart { resolution, ..self }
    }

    /// The chart drawn in braille when `enabled`, else in standard
    /// resolution.
    pub fn high_resolution(self, enabled: bool) -> (r: Self)
        ensures
            r == (PieChart {
                resolution: if enabled { Resolution::Braille } else { Resolution::Standard },
                ..self
            }),
    {
        let resolution = if enabled { Resolution::Braille } else { Resolution::Standard };
        PieChart { resolution, ..self }
    }

    /// The chart with the legend on another side.
    pub fn legend_position(self, position: LegendPosition) -> (r: Self)
        ensures
            r == (PieChart { legend_position: position, ..self }),
    {
        PieChart { legend_position: position, ..self }
    }

    /// The chart with another legend layout.
    pub fn legend_layout(self, layout: LegendLayout) -> (r: Self)
        ensures
            r == (PieChart { legend_layout: layout, ..self }),
    {
        PieChart { legend_layout: layout, ..self }
    }

    /// The chart with legend text placed otherwise.
    pub fn legend_alignment(self, alignment: LegendAlignment) -> (r: Self)
        ensures
            r == (PieChart { legend_alignment: alignment, ..self }),
    {
        PieChart { legend_alignment: alignment, ..self }
    }

    /// Sum of the slice values.
    pub fn total_value(&self) -> (r: u128)
        ensures
            r == self.total_spec(),
    {
        total_value(&self.slices)
    }

    /// The share of `slice` in the chart's total, in percent, as an exact
    /// fraction (see `share`).
    pub fn percentage(&self, slice: &PieSlice) -> (r: Percentage)
        ensures
            (r.numerator as int, r.denominator as int) == share(slice.value as int, self.total_spec()),
    {
        let total = total_value(&self.slices);
        if total > 0 {
            Percentage { numerator: 100 * slice.value as u128, denominator: total }
        } else {
            Percentage { numerator: 0, denominator: 1 }
        }
    }
}

/// The share of a slice of value `value` in `total`, as the fraction
/// `(numerator, denominator)` of a percent: `100 * value / total`, or zero
/// (`0 / 1`) when the total is zero.
pub open spec fn share(value: int, total: int) -> (int, int) {
    if total > 0 {
        (100 * value, total)
    } else {
        (0, 1)
    }
}

/// Sum of the numerators of the shares of the first `n` slices of `s`.
pub open spec fn share_numerator_sum(s: Seq<PieSlice>, total: int, n: int) -> int
    decreases n,
{
    if n <= 0 {
        0
    } else {
        share_numerator_sum(s, total, n - 1) + share(s[n - 1].value as int, total).0
    }
}

/// With a positive total, the slices' shares (see `percentage`) add up to
/// exactly one hundred percent: they all have the total as denominator and
/// their numerators sum to one hundred times it. The last slice also ends
/// where the first begins, a full turn later.
pub proof fn lemma_shares_sum_to_whole(chart: &PieChart)
    requires
        chart.total_spec() > 0,
    ensures
        forall|i: int| 0 <= i < chart.slices@.len()
            ==> (#[trigger] share(chart.slices@[i].value as int, chart.total_spec())).1 == chart.total_spec(),
        share_numerator_sum(chart.slices@, chart.total_spec(), chart.slices@.len() as int)
            == 100 * chart.total_spec(),
        crate::angle::boundary(chart.total_spec(), chart.total_spec())
            == crate::angle::boundary(0, chart.total_spec()) + crate::angle::TURN,
{
    let t = chart.total_spec();
    assert(t * crate::angle::TURN / t == crate::angle::TURN) by (nonlinear_arith)
        requires t > 0;
    lemma_share_sum(chart.slices@, t, chart.slices@.len() as int);
    lemma_cumulative_mono(chart.slices@, 0, chart.slices@.len() as int);
}

proof fn lemma_share_sum(s: Seq<PieSlice>, total: int, n: int)
    requires
        total > 0,
        0 <= n <= s.len(),
    ensures
        share_numerator_sum(s, total, n) == 100 * cumulative(s, n),
    decreases n,
{
    if n > 0 {
        lemma_share_sum(s, total, n - 1);
        lemma_cumulative_step(s, n - 1);
    } else {
        assert(s.subrange(0, 0) =~= Seq::<PieSlice>::empty());
    }
}

/// With the legend shown and an area at least twenty cells wide and ten
/// tall, the disc's rectangle is never empty: where the legend would leave
/// nothing, the disc takes the whole area and no legend is drawn.
pub proof fn lemma_layout_never_empty(chart: &PieChart, area: Rect)
    requires
        area.width >= MIN_LEGEND_AREA_WIDTH,
        area.height >= MIN_LEGEND_AREA_HEIGHT,
        chart.show_legend,
    ensures
        chart.layout(area).0.width > 0,
        chart.layout(area).0.height > 0,
        chart.layout(area).1.is_none() ==> chart.layout(area).0 == area,
{
    chart.lemma_widths_nonneg(chart.slices@.len() as int);
}

/// An area narrower than twenty cells or lower than ten gets no legend: the
/// disc takes all of it.
pub proof fn lemma_small_area_no_legend(chart: &PieChart, area: Rect)
    requires
        area.width < MIN_LEGEND_AREA_WIDTH || area.height < MIN_LEGEND_AREA_HEIGHT,
    ensures
        chart.layout(area) == (area, None::<Rect>),
{
}

} // verus!
