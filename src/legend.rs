use vstd::prelude::*;
use ratatui::style::Color;
use crate::chart::{rect_wf, PieChart};
use crate::config::{LegendAlignment, LegendLayout, Rect};
use crate::slice::{percent_of, total_value};
use crate::text::push_char;

verus! {

/// The character for the decimal digit `d`.
pub open spec fn digit_char(d: int) -> char {
    if d == 0 { '0' }
    else if d == 1 { '1' }
    else if d == 2 { '2' }
    else if d == 3 { '3' }
    else if d == 4 { '4' }
    else if d == 5 { '5' }
    else if d == 6 { '6' }
    else if d == 7 { '7' }
    else if d == 8 { '8' }
    else { '9' }
}

/// The decimal digits of `n`, without leading zeros.
pub open spec fn decimal(n: nat) -> Seq<char>
    decreases n,
{
    if n < 10 {
        seq![digit_char(n as int)]
    } else {
        decimal(n / 10).push(digit_char((n % 10) as int))
    }
}

/// A share given in tenths of a percent, written with one decimal place
/// and no sign: `453` is `45.3`.
pub open spec fn tenths_text(tenths: nat) -> Seq<char> {
    decimal(tenths / 10) + seq!['.', digit_char((tenths % 10) as int)]
}

/// The text of one legend entry: the marker, a space and the label, then,
/// when percentages are shown, a space, the share and a percent sign.
pub open spec fn entry_text(marker: Seq<char>, label: Seq<char>, tenths: nat, show_percent: bool) -> Seq<char> {
    if show_percent {
        marker + seq![' '] + label + seq![' '] + tenths_text(tenths) + seq!['%']
    } else {
        marker + seq![' '] + label
    }
}

fn digit(d: u64) -> (c: char)
    requires
        d < 10,
    ensures
        c == digit_char(d as int),
{
    if d == 0 { '0' }
    else if d == 1 { '1' }
    else if d == 2 { '2' }
    else if d == 3 { '3' }
    else if d == 4 { '4' }
    else if d == 5 { '5' }
    else if d == 6 { '6' }
    else if d == 7 { '7' }
    else if d == 8 { '8' }
    else { '9' }
}

fn push_decimal(out: &mut String, n: u64)
    ensures
        final(out)@ == old(out)@ + decimal(n as nat),
    decreases n,
{
    if n < 10 {
        push_char(out, digit(n));
        assert(final(out)@ =~= old(out)@ + decimal(n as nat));
    } else {
        push_decimal(out, n / 10);
        push_char(out, digit(n % 10));
        assert(final(out)@ =~= old(out)@ + decimal(n as nat));
    }
}

/// The text of one legend entry (see `entry_text`).
pub fn legend_entry_text(marker: &str, label: &str, tenths: u64, show_percent: bool) -> (r: String)
    ensures
        r@ == entry_text(marker@, label@, tenths as nat, show_percent),
{
    let mut out = String::new();
    out.append(marker);
    push_char(&mut out, ' ');
    out.append(label);
    if show_percent {
        push_char(&mut out, ' ');
        push_decimal(&mut out, tenths / 10);
        push_char(&mut out, '.');
        push_char(&mut out, digit(tenths % 10));
        push_char(&mut out, '%');
    }
    assert(out@ =~= entry_text(marker@, label@, tenths as nat, show_percent));
    out
}

/// A run of legend text to draw: it starts at `(x, y)`, takes at most
/// `width` cells, and is drawn in `color`.
#[derive(Debug, Clone)]
pub struct LegendText {
    pub x: u16,
    pub y: u16,
    pub width: u16,
    pub text: String,
    pub color: Color,
}

/// The plain values of a legend text run.
pub open spec fn text_view(t: LegendText) -> (u16, u16, u16, Seq<char>, Color) {
    (t.x, t.y, t.width, t.text@, t.color)
}

/// Where text `tw` cells wide starts within `w` cells: flush left, centered
/// (rounding left) or flush right; flush left when it does not fit.
pub open spec fn align_offset(alignment: LegendAlignment, w: int, tw: int) -> int {
    if tw >= w {
        0
    } else {
        match alignment {
            LegendAlignment::Left => 0,
            LegendAlignment::Center => (w - tw) / 2,
            LegendAlignment::Right => w - tw,
        }
    }
}

/// How many entries a stacked legend in `area` shows: one every other row,
/// as many as fit.
pub open spec fn stacked_count(chart: &PieChart, area: Rect) -> int {
    vstd::math::min(chart.slices@.len() as int, (area.height as int + 1) / 2)
}

/// Entry `i` of a stacked legend in `area`.
pub open spec fn stacked_entry(chart: &PieChart, area: Rect, i: int) -> (u16, u16, u16, Seq<char>, Color) {
    let text = chart.item_text(i);
    let off = align_offset(chart.legend_alignment, area.width as int, text.len() as int);
    (
        (area.x + off) as u16,
        (area.y + 2 * i) as u16,
        (area.width - off) as u16,
        text,
        chart.slices@[i].color,
    )
}

/// Where entry `i` of a one-row legend in `area` starts, counted from the
/// area's left edge: the row as a whole is aligned, and each entry follows
/// the ones before it.
pub open spec fn row_offset(chart: &PieChart, area: Rect, i: int) -> int {
    align_offset(chart.legend_alignment, area.width as int, chart.row_width()) + chart.sum_item_width(i)
}

/// Entry `i` of a one-row legend in `area`: its text and two spaces, cut at
/// the area's right edge.
pub open spec fn row_entry(chart: &PieChart, area: Rect, i: int) -> (u16, u16, u16, Seq<char>, Color) {
    let text = chart.item_text(i) + seq![' ', ' '];
    let off = row_offset(chart, area, i);
    (
        (area.x + off) as u16,
        area.y,
        vstd::math::min(text.len() as int, area.width - off) as u16,
        text,
        chart.slices@[i].color,
    )
}

/// Whether `texts` are the legend text runs of `chart` in `area`. Stacked:
/// the first `stacked_count` entries, one every other row, each aligned on
/// its own. In a row: the entries from the left that start within the area,
/// the row aligned as a whole. An area without rows gets no text.
pub open spec fn legend_matches(chart: &PieChart, area: Rect, texts: Seq<LegendText>) -> bool {
    &&& chart.legend_layout == LegendLayout::Vertical ==> {
        &&& texts.len() == stacked_count(chart, area)
        &&& forall|i: int| 0 <= i < texts.len() ==> text_view(#[trigger] texts[i]) == stacked_entry(chart, area, i)
    }
    &&& area.height == 0 ==> texts.len() == 0
    &&& chart.legend_layout == LegendLayout::Horizontal && area.height > 0 ==> {
        &&& texts.len() <= chart.slices@.len()
        &&& forall|i: int| 0 <= i < texts.len() ==> row_offset(chart, area, i) < area.width
        &&& texts.len() < chart.slices@.len() ==> row_offset(chart, area, texts.len() as int) >= area.width
        &&& forall|i: int| 0 <= i < texts.len() ==> text_view(#[trigger] texts[i]) == row_entry(chart, area, i)
    }
}

impl PieChart {
    /// The text runs of the legend drawn in `area` (see `legend_matches`).
    pub fn legend_entries(&self, area: Rect) -> (r: Vec<LegendText>)
        requires
            rect_wf(area),
        ensures
            legend_matches(self, area, r@),
    {
        let total = total_value(&self.slices);
        let n = self.slices.len();
        let w = area.width;
        let mut out: Vec<LegendText> = Vec::new();
        match self.legend_layout {
            LegendLayout::Vertical => {
                let mut i: usize = 0;
                while i < n && 2 * (i as u64) < area.height as u64
                    invariant
                        n == self.slices@.len(),
                        total == self.total_spec(),
                        total <= crate::slice::MAX_TOTAL,
                        rect_wf(area),
                        w == area.width,
                        self.legend_layout == LegendLayout::Vertical,
                        i <= n,
                        2 * i <= area.height + 1,
                        out@.len() == i,
                        forall|k: int| 0 <= k < i ==> text_view(#[trigger] out@[k]) == stacked_entry(self, area, k),
                    decreases n - i,
                {
                    let slice = &self.slices[i];
                    let tenths = percent_of(slice.value, total);
                    let text = legend_entry_text(self.legend_marker.as_str(), slice.label.as_str(), tenths, self.show_percentages);
                    let tw = text.as_str().unicode_len();
                    let off: u16 = if tw >= w as usize {
                        0
                    } else {
                        match self.legend_alignment {
                            LegendAlignment::Left => 0,
                            LegendAlignment::Center => (w - tw as u16) / 2,
                            LegendAlignment::Right => w - tw as u16,
                        }
                    };
                    out.push(LegendText {
                        x: area.x + off,
                        y: area.y + 2 * (i as u16),
                        width: w - off,
                        text,
                        color: slice.color,
                    });
                    i = i + 1;
                }
            },
            LegendLayout::Horizontal => {
                if area.height == 0 {
                    return out;
                }
                let (_stacked, row) = self.measure_legend();
                let origin: u16 = if row >= w {
                    0
                } else {
                    match self.legend_alignment {
                        LegendAlignment::Left => 0,
                        LegendAlignment::Center => (w - row) / 2,
                        LegendAlignment::Right => w - row,
                    }
                };
                let mut x_off: u128 = origin as u128;
                let mut i: usize = 0;
                proof {
                    self.lemma_widths_nonneg(0);
                }
                while i < n && x_off < w as u128
                    invariant
                        n == self.slices@.len(),
                        total == self.total_spec(),
                        total <= crate::slice::MAX_TOTAL,
                        rect_wf(area),
                        w == area.width,
                        area.height > 0,
                        self.legend_layout == LegendLayout::Horizontal,
                        i <= n,
                        x_off == row_offset(self, area, i as int),
                        out@.len() == i,
                        forall|k: int| 0 <= k < i ==> row_offset(self, area, k) < area.width,
                        forall|k: int| 0 <= k < i ==> text_view(#[trigger] out@[k]) == row_entry(self, area, k),
                    decreases n - i,
                {
                    let slice = &self.slices[i];
                    let tenths = percent_of(slice.value, total);
                    let mut text = legend_entry_text(self.legend_marker.as_str(), slice.label.as_str(), tenths, self.show_percentages);
                    push_char(&mut text, ' ');
                    push_char(&mut text, ' ');
                    let tw = text.as_str().unicode_len();
                    let room = w - x_off as u16;
                    let width: u16 = if tw < room as usize { tw as u16 } else { room };
                    out.push(LegendText {
                        x: area.x + x_off as u16,
                        y: area.y,
                        width,
                        text,
                        color: slice.color,
                    });
                    x_off = x_off + tw as u128;
                    i = i + 1;
                }
            },
        }
        out
    }
}

} // verus!
