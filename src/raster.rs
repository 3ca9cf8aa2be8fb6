use vstd::prelude::*;
use ratatui::style::Color;
use crate::angle::{boundary, in_slice, is_angle_in_slice, normalize, slice_angle_range, QUARTER, TURN};
use crate::text::char_from_u32;
use crate::chart::{rect_wf, PieChart};
use crate::config::Rect;
use crate::slice::{cumulative, lemma_cumulative_mono, lemma_cumulative_step, total_value, MAX_TOTAL};

verus! {

/// One cell write: a glyph and its foreground color at a position.
#[derive(Debug, Clone, Copy)]
pub struct Cell {
    pub x: u16,
    pub y: u16,
    pub symbol: char,
    pub color: Color,
}

/// The angle at which slice `i` of `chart` starts (and slice `i - 1` ends).
pub open spec fn slice_start(chart: &PieChart, i: int) -> int {
    boundary(cumulative(chart.slices@, i), chart.total_spec())
}

/// The angle that slice `i` spans.
pub open spec fn slice_span(chart: &PieChart, i: int) -> int {
    slice_start(chart, i + 1) - slice_start(chart, i)
}

/// Whether angle `theta` lies in slice `i` of `chart`: every angle does
/// when the slice spans a full turn (its bounds then meet); otherwise
/// `in_slice` decides on the slice's bounds.
pub open spec fn in_slice_of(chart: &PieChart, theta: int, i: int) -> bool {
    slice_span(chart, i) >= TURN || in_slice(theta, slice_start(chart, i), slice_start(chart, i + 1))
}

/// The slice that a point at angle `a` is painted with: the last of the
/// first `n` slices whose range holds `a`, leaving out slices of value zero
/// when `skip_empty`.
pub open spec fn owner(chart: &PieChart, a: int, n: int, skip_empty: bool) -> Option<usize>
    decreases n,
{
    if n <= 0 {
        None
    } else if (!skip_empty || chart.slices@[n - 1].value > 0) && in_slice_of(chart, a, n - 1) {
        Some((n - 1) as usize)
    } else {
        owner(chart, a, n - 1, skip_empty)
    }
}

/// An owner is one of the slices searched.
pub proof fn lemma_owner_bound(chart: &PieChart, a: int, n: int, skip_empty: bool)
    requires
        0 <= n,
    ensures
        owner(chart, a, n, skip_empty) matches Some(i) ==> i < n,
    decreases n,
{
    if n > 0 {
        lemma_owner_bound(chart, a, n - 1, skip_empty);
    }
}

impl PieChart {
    /// The angles at which the slices start, and last the angle at which the
    /// last slice ends.
    pub fn slice_boundaries(&self) -> (r: Vec<i64>)
        requires
            self.total_spec() > 0,
        ensures
            r@.len() == self.slices@.len() + 1,
            forall|i: int| 0 <= i <= self.slices@.len() ==> r@[i] == slice_start(self, i),
    {
        let total = total_value(&self.slices);
        let n = self.slices.len();
        let mut r: Vec<i64> = Vec::new();
        let mut before: u128 = 0;
        let mut i: usize = 0;
        proof {
            lemma_cumulative_mono(self.slices@, 0, n as int);
            assert(self.slices@.subrange(0, 0) =~= Seq::<crate::slice::PieSlice>::empty());
        }
        while i < n
            invariant
                n == self.slices@.len(),
                i <= n,
                total == self.total_spec(),
                0 < total <= MAX_TOTAL,
                before == cumulative(self.slices@, i as int),
                r@.len() == i,
                forall|k: int| 0 <= k < i ==> r@[k] == slice_start(self, k),
            decreases n - i,
        {
            proof {
                lemma_cumulative_step(self.slices@, i as int);
                lemma_cumulative_mono(self.slices@, i as int + 1, n as int);
            }
            let (start, _end) = slice_angle_range(before, self.slices[i].value, total);
            r.push(start);
            before = before + self.slices[i].value as u128;
            i = i + 1;
        }
        proof {
            lemma_cumulative_mono(self.slices@, n as int, n as int);
        }
        let (start, _end) = slice_angle_range(before, 0, total);
        r.push(start);
        r
    }

    /// The angle that slice `i` spans.
pub open spec fn slice_span(chart: &PieChart, i: int) -> int {
    slice_start(chart, i + 1) - slice_start(chart, i)
}

/// Whether angle `theta` lies in slice `i` of `chart`: every angle does
/// when the slice spans a full turn (its bounds then meet); otherwise
/// `in_slice` decides on the slice's bounds.
pub open spec fn in_slice_of(chart: &PieChart, theta: int, i: int) -> bool {
    slice_span(chart, i) >= TURN || in_slice(theta, slice_start(chart, i), slice_start(chart, i + 1))
}

/// The slice that a point at angle `a` is painted with (see `owner`),
    /// given the boundaries from `slice_boundaries`.
    fn owner_of(&self, a: i64, bounds: &Vec<i64>, skip_empty: bool) -> (r: Option<usize>)
        requires
            bounds@.len() == self.slices@.len() + 1,
            forall|i: int| 0 <= i <= self.slices@.len() ==> bounds@[i] == slice_start(self, i),
        ensures
            r == owner(self, a as int, self.slices@.len() as int, skip_empty),
    {
        let mut i: usize = self.slices.len();
        while i > 0
            invariant
                i <= self.slices@.len(),
                bounds@.len() == self.slices@.len() + 1,
                forall|k: int| 0 <= k <= self.slices@.len() ==> bounds@[k] == slice_start(self, k),
                owner(self, a as int, self.slices@.len() as int, skip_empty)
                    == owner(self, a as int, i as int, skip_empty),
            decreases i,
        {
            let full_turn = (bounds[i] as i128) - (bounds[i - 1] as i128) >= TURN as i128;
            if (!skip_empty || self.slices[i - 1].value > 0) && (full_turn || is_angle_in_slice(a, bounds[i - 1], bounds[i])) {
                return Some(i - 1);
            }
            i = i - 1;
        }
        None
    }
}

/// Radius of the disc in standard resolution: the smaller of half the width
/// and the whole height (cells are about twice as tall as wide), less one.
pub open spec fn standard_radius(pie: Rect) -> int {
    let cx = pie.width as int / 2;
    let cy = pie.height as int / 2;
    vstd::math::max(vstd::math::min(cx, 2 * cy) - 1, 0)
}

/// The vector from the disc's center to cell `k` of `pie` (cells counted
/// row by row), its vertical part doubled to make cells square.
pub open spec fn standard_offset(pie: Rect, k: int) -> (int, int) {
    let w = pie.width as int;
    (k % w - w / 2, 2 * (k / w - pie.height as int / 2))
}

/// Whether cell `k` of `pie` lies on the standard disc.
pub open spec fn standard_in_disc(pie: Rect, k: int) -> bool {
    let (dx, dy) = standard_offset(pie, k);
    let r = standard_radius(pie);
    r > 0 && dx * dx + dy * dy <= r * r
}

/// The cell writes of the standard disc for the first `k` cells of `pie`,
/// given the angle of each cell's vector in `angles`: a cell on the disc
/// whose angle some slice of nonzero value holds gets the chart's glyph in
/// the color of the last such slice.
pub open spec fn standard_cells(chart: &PieChart, pie: Rect, angles: Seq<i64>, k: int) -> Seq<Cell>
    decreases k,
{
    if k <= 0 {
        Seq::empty()
    } else {
        let prev = standard_cells(chart, pie, angles, k - 1);
        let j = k - 1;
        let w = pie.width as int;
        match owner(chart, angles[j] as int, chart.slices@.len() as int, true) {
            Some(i) => if standard_in_disc(pie, j) {
                prev.push(Cell {
                    x: (pie.x + j % w) as u16,
                    y: (pie.y + j / w) as u16,
                    symbol: chart.pie_char,
                    color: chart.slices@[i as int].color,
                })
            } else {
                prev
            },
            None => prev,
        }
    }
}

/// The vector from the standard disc's center to each cell of `pie`, row by
/// row (see `standard_offset`): the angles of these vectors are what
/// `paint_standard` takes.
pub fn standard_offsets(pie: Rect) -> (r: Vec<(i32, i32)>)
    ensures
        r@.len() == pie.width * pie.height,
        forall|k: int| 0 <= k < r@.len() ==> (r@[k].0 as int, r@[k].1 as int) == standard_offset(pie, k),
{
    let w = pie.width as usize;
    proof {
        assert(pie.width * pie.height <= 0xFFFF * 0xFFFF) by (nonlinear_arith)
            requires pie.width <= 0xFFFF, pie.height <= 0xFFFF;
    }
    let n: usize = (pie.width as usize) * (pie.height as usize);
    let mut r: Vec<(i32, i32)> = Vec::new();
    let mut k: usize = 0;
    while k < n
        invariant
            w == pie.width,
            n == pie.width * pie.height,
            k <= n,
            r@.len() == k,
            forall|j: int| 0 <= j < k ==> (r@[j].0 as int, r@[j].1 as int) == standard_offset(pie, j),
        decreases n - k,
    {
        proof {
            assert(w > 0) by (nonlinear_arith)
                requires 0 <= k < w * pie.height, w >= 0;
            vstd::arithmetic::div_mod::lemma_multiply_divide_lt(k as int, w as int, pie.height as int);
        }
        let dx = (k % w) as i32 - (w / 2) as i32;
        let dy = 2 * ((k / w) as i32 - (pie.height / 2) as i32);
        r.push((dx, dy));
        k = k + 1;
    }
    r
}

impl PieChart {
    /// The cell writes of the disc in standard resolution (see
    /// `standard_cells`); `angles` holds the angle of each vector of
    /// `standard_offsets(pie)`, in the same order.
    pub fn paint_standard(&self, pie: Rect, angles: &Vec<i64>) -> (r: Vec<Cell>)
        requires
            self.total_spec() > 0,
            rect_wf(pie),
            angles@.len() == pie.width * pie.height,
        ensures
            r@ == standard_cells(self, pie, angles@, pie.width * pie.height),
    {
        let bounds = self.slice_boundaries();
        let w = pie.width as usize;
        proof {
        assert(pie.width * pie.height <= 0xFFFF * 0xFFFF) by (nonlinear_arith)
            requires pie.width <= 0xFFFF, pie.height <= 0xFFFF;
    }
    let n: usize = (pie.width as usize) * (pie.height as usize);
        let cx = (pie.width / 2) as i64;
        let cy = (pie.height / 2) as i64;
        let r_min = if cx < 2 * cy { cx } else { 2 * cy };
        let radius: i64 = if r_min >= 1 { r_min - 1 } else { 0 };
        let mut out: Vec<Cell> = Vec::new();
        let mut k: usize = 0;
        while k < n
            invariant
                w == pie.width,
                n == pie.width * pie.height,
                rect_wf(pie),
                angles@.len() == n,
                bounds@.len() == self.slices@.len() + 1,
                forall|i: int| 0 <= i <= self.slices@.len() ==> bounds@[i] == slice_start(self, i),
                cx == pie.width / 2,
                cy == pie.height / 2,
                radius == standard_radius(pie),
                k <= n,
                out@ == standard_cells(self, pie, angles@, k as int),
            decreases n - k,
        {
            proof {
                assert(w > 0) by (nonlinear_arith)
                    requires 0 <= k < w * pie.height, w >= 0;
                vstd::arithmetic::div_mod::lemma_multiply_divide_lt(k as int, w as int, pie.height as int);
            }
            let px = (k % w) as u16;
            let py = (k / w) as u16;
            let dx = px as i64 - cx;
            let dy = 2 * (py as i64 - cy);
            let o = self.owner_of(angles[k], &bounds, true);
            if let Some(i) = o {
                proof {
                    lemma_owner_bound(self, angles@[k as int] as int, self.slices@.len() as int, true);
                    assert(-0x10000 <= dx <= 0x10000);
                    assert(-0x20000 <= dy <= 0x20000);
                    assert(0 <= radius <= 0x10000);
                    assert(0 <= dx * dx <= 0x1_0000_0000) by (nonlinear_arith)
                        requires -0x10000 <= dx <= 0x10000;
                    assert(0 <= dy * dy <= 0x4_0000_0000) by (nonlinear_arith)
                        requires -0x20000 <= dy <= 0x20000;
                    assert(0 <= radius * radius <= 0x1_0000_0000) by (nonlinear_arith)
                        requires 0 <= radius <= 0x10000;
                }
                if radius > 0 && dx * dx + dy * dy <= radius * radius {
                    out.push(Cell { x: pie.x + px, y: pie.y + py, symbol: self.pie_char, color: self.slices[i].color });
                }
            }
            k = k + 1;
        }
        out
    }
}

/// Radius of the disc in braille dots: the smaller of the center's dot
/// coordinates, less two. Dots lie as far apart across as down, so no
/// correction is needed.
pub open spec fn braille_radius(pie: Rect) -> int {
    let cx = (pie.width as int / 2) * 2;
    let cy = (pie.height as int / 2) * 4;
    vstd::math::max(vstd::math::min(cx, cy) - 2, 0)
}

/// The vector from the disc's center to dot `d` of `pie`'s dot grid, which
/// is twice as wide and four times as tall as `pie` (dots counted row by
/// row).
pub open spec fn braille_offset(pie: Rect, d: int) -> (int, int) {
    let dw = 2 * pie.width as int;
    (d % dw - (pie.width as int / 2) * 2, d / dw - (pie.height as int / 2) * 4)
}

/// Whether dot `d` lies on the braille disc.
pub open spec fn braille_in_disc(pie: Rect, d: int) -> bool {
    let (dx, dy) = braille_offset(pie, d);
    let r = braille_radius(pie);
    dx * dx + dy * dy <= r * r
}

/// The slice that owns dot `d`, given the angle of each dot's vector: the
/// last slice whose range holds the angle, for a dot on the disc.
pub open spec fn dot_owner(chart: &PieChart, pie: Rect, angles: Seq<i64>, d: int) -> Option<usize> {
    if braille_in_disc(pie, d) {
        owner(chart, angles[d] as int, chart.slices@.len() as int, false)
    } else {
        None
    }
}

/// Column of the `k`-th dot of a braille cell.
pub open spec fn dot_col(k: int) -> int {
    if k == 3 || k == 4 || k == 5 || k == 7 { 1 } else { 0 }
}

/// Row of the `k`-th dot of a braille cell.
pub open spec fn dot_row(k: int) -> int {
    if k == 0 || k == 3 { 0 }
    else if k == 1 || k == 4 { 1 }
    else if k == 2 || k == 5 { 2 }
    else { 3 }
}

/// Pattern bit of the `k`-th dot of a braille cell: dots run down the left
/// column, down the right column, then along the bottom row.
pub open spec fn dot_bit(k: int) -> int {
    if k == 0 { 0x01 }
    else if k == 1 { 0x02 }
    else if k == 2 { 0x04 }
    else if k == 3 { 0x08 }
    else if k == 4 { 0x10 }
    else if k == 5 { 0x20 }
    else if k == 6 { 0x40 }
    else { 0x80 }
}

/// Index in the dot grid of the `k`-th dot of cell `c` of `pie`.
pub open spec fn dot_of(pie: Rect, c: int, k: int) -> int {
    let w = pie.width as int;
    (4 * (c / w) + dot_row(k)) * (2 * w) + 2 * (c % w) + dot_col(k)
}

/// The owners of the eight dots of cell `c`, in dot order.
pub open spec fn cell_owners(pie: Rect, dots: Seq<Option<usize>>, c: int) -> Seq<Option<usize>> {
    Seq::new(8, |k: int| dots[dot_of(pie, c, k)])
}

/// The braille pattern of the first `m` dots: the bits of the owned ones.
pub open spec fn pattern(os: Seq<Option<usize>>, m: int) -> int
    decreases m,
{
    if m <= 0 {
        0
    } else {
        pattern(os, m - 1) + if os[m - 1].is_some() { dot_bit(m - 1) } else { 0 }
    }
}

/// How many of the first `m` dots slice `o` owns.
pub open spec fn count(os: Seq<Option<usize>>, o: usize, m: int) -> int
    decreases m,
{
    if m <= 0 {
        0
    } else {
        count(os, o, m - 1) + if os[m - 1] == Some(o) { 1int } else { 0 }
    }
}

/// Among the owners of the first `m` dots, the one that owns the most of
/// all eight, the earliest in dot order on a tie, with its count.
pub open spec fn winner(os: Seq<Option<usize>>, m: int) -> (Option<usize>, int)
    decreases m,
{
    if m <= 0 {
        (None, 0)
    } else {
        let (best, best_count) = winner(os, m - 1);
        match os[m - 1] {
            Some(o) => if count(os, o, 8) > best_count {
                (Some(o), count(os, o, 8))
            } else {
                (best, best_count)
            },
            None => (best, best_count),
        }
    }
}

/// The cell writes of the braille disc for the first `k` cells of `pie`,
/// given the owner of each dot: a cell with an owned dot gets the braille
/// character of its pattern, in the color of the slice that owns most of
/// its dots.
pub open spec fn braille_cells(chart: &PieChart, pie: Rect, dots: Seq<Option<usize>>, k: int) -> Seq<Cell>
    decreases k,
{
    if k <= 0 {
        Seq::empty()
    } else {
        let prev = braille_cells(chart, pie, dots, k - 1);
        let c = k - 1;
        let w = pie.width as int;
        let os = cell_owners(pie, dots, c);
        let p = pattern(os, 8);
        match winner(os, 8).0 {
            Some(i) => if p != 0 {
                prev.push(Cell {
                    x: (pie.x + c % w) as u16,
                    y: (pie.y + c / w) as u16,
                    symbol: ((0x2800 + p) as u32) as char,
                    color: chart.slices@[i as int].color,
                })
            } else {
                prev
            },
            None => prev,
        }
    }
}

/// The vector from the braille disc's center to each dot of `pie`'s dot
/// grid, row by row (see `braille_offset`): the angles of these vectors are
/// what `braille_dots` takes.
pub fn braille_offsets(pie: Rect) -> (r: Vec<(i32, i32)>)
    requires
        8 * pie.width * pie.height <= usize::MAX,
    ensures
        r@.len() == (2 * pie.width) * (4 * pie.height),
        forall|d: int| 0 <= d < r@.len() ==> (r@[d].0 as int, r@[d].1 as int) == braille_offset(pie, d),
{
    let dw = 2 * (pie.width as usize);
    proof {
        assert((2 * pie.width) * (4 * pie.height) == 8 * pie.width * pie.height) by (nonlinear_arith);
    }
    let n: usize = dw * (4 * (pie.height as usize));
    let cx = ((pie.width / 2) as i32) * 2;
    let cy = ((pie.height / 2) as i32) * 4;
    let mut r: Vec<(i32, i32)> = Vec::new();
    let mut d: usize = 0;
    while d < n
        invariant
            dw == 2 * pie.width,
            n == (2 * pie.width) * (4 * pie.height),
            cx == (pie.width / 2) * 2,
            cy == (pie.height / 2) * 4,
            d <= n,
            r@.len() == d,
            forall|j: int| 0 <= j < d ==> (r@[j].0 as int, r@[j].1 as int) == braille_offset(pie, j),
        decreases n - d,
    {
        proof {
            assert(dw > 0) by (nonlinear_arith)
                requires 0 <= d < dw * (4 * pie.height), dw >= 0;
            vstd::arithmetic::div_mod::lemma_multiply_divide_lt(d as int, dw as int, 4 * pie.height);
        }
        r.push(((d % dw) as i32 - cx, (d / dw) as i32 - cy));
        d = d + 1;
    }
    r
}

impl PieChart {
    /// The owner of each dot of `pie`'s dot grid (see `dot_owner`); `angles`
    /// holds the angle of each vector of `braille_offsets(pie)`, in the same
    /// order. The grid has two dots across and four down for each cell.
    pub fn braille_dots(&self, pie: Rect, angles: &Vec<i64>) -> (r: Vec<Option<usize>>)
        requires
            self.total_spec() > 0,
            8 * pie.width * pie.height <= usize::MAX,
            angles@.len() == (2 * pie.width) * (4 * pie.height),
        ensures
            r@.len() == (2 * pie.width) * (4 * pie.height),
            forall|d: int| 0 <= d < r@.len() ==> r@[d] == dot_owner(self, pie, angles@, d),
            forall|d: int| 0 <= d < r@.len() ==> (#[trigger] r@[d] matches Some(i) ==> i < self.slices@.len()),
    {
        let bounds = self.slice_boundaries();
        let dw = 2 * (pie.width as usize);
        proof {
            assert((2 * pie.width) * (4 * pie.height) == 8 * pie.width * pie.height) by (nonlinear_arith);
        }
        let n: usize = dw * (4 * (pie.height as usize));
        let cx = ((pie.width / 2) as i64) * 2;
        let cy = ((pie.height / 2) as i64) * 4;
        let radius: i64 = if cx < cy { cx } else { cy };
        let radius: i64 = if radius >= 2 { radius - 2 } else { 0 };
        let mut r: Vec<Option<usize>> = Vec::new();
        let mut d: usize = 0;
        while d < n
            invariant
                dw == 2 * pie.width,
                n == (2 * pie.width) * (4 * pie.height),
                angles@.len() == n,
                bounds@.len() == self.slices@.len() + 1,
                forall|i: int| 0 <= i <= self.slices@.len() ==> bounds@[i] == slice_start(self, i),
                cx == (pie.width / 2) * 2,
                cy == (pie.height / 2) * 4,
                radius == braille_radius(pie),
                d <= n,
                r@.len() == d,
                forall|j: int| 0 <= j < d ==> r@[j] == dot_owner(self, pie, angles@, j),
                forall|j: int| 0 <= j < d ==> (#[trigger] r@[j] matches Some(i) ==> i < self.slices@.len()),
            decreases n - d,
        {
            proof {
                assert(dw > 0) by (nonlinear_arith)
                    requires 0 <= d < dw * (4 * pie.height), dw >= 0;
                vstd::arithmetic::div_mod::lemma_multiply_divide_lt(d as int, dw as int, 4 * pie.height);
            }
            let dx = (d % dw) as i64 - cx;
            let dy = (d / dw) as i64 - cy;
            proof {
                assert(-0x40000 <= dx <= 0x40000);
                assert(-0x40000 <= dy <= 0x40000);
                assert(0 <= radius <= 0x40000);
                assert(0 <= dx * dx <= 0x10_0000_0000) by (nonlinear_arith)
                    requires -0x40000 <= dx <= 0x40000;
                assert(0 <= dy * dy <= 0x10_0000_0000) by (nonlinear_arith)
                    requires -0x40000 <= dy <= 0x40000;
                assert(0 <= radius * radius <= 0x10_0000_0000) by (nonlinear_arith)
                    requires 0 <= radius <= 0x40000;
                lemma_owner_bound(self, angles@[d as int] as int, self.slices@.len() as int, false);
            }
            if dx * dx + dy * dy <= radius * radius {
                r.push(self.owner_of(angles[d], &bounds, false));
            } else {
                r.push(None);
            }
            d = d + 1;
        }
        r
    }
}

fn dot_position(k: usize) -> (r: (usize, usize, u32))
    requires
        k < 8,
    ensures
        r.0 == dot_col(k as int),
        r.1 == dot_row(k as int),
        r.2 == dot_bit(k as int),
{
    if k == 0 { (0, 0, 0x01) }
    else if k == 1 { (0, 1, 0x02) }
    else if k == 2 { (0, 2, 0x04) }
    else if k == 3 { (1, 0, 0x08) }
    else if k == 4 { (1, 1, 0x10) }
    else if k == 5 { (1, 2, 0x20) }
    else if k == 6 { (0, 3, 0x40) }
    else { (1, 3, 0x80) }
}

/// The largest pattern of the first `m` dots.
spec fn full_pattern(m: int) -> int {
    if m <= 0 { 0 }
    else if m == 1 { 0x01 }
    else if m == 2 { 0x03 }
    else if m == 3 { 0x07 }
    else if m == 4 { 0x0F }
    else if m == 5 { 0x1F }
    else if m == 6 { 0x3F }
    else if m == 7 { 0x7F }
    else { 0xFF }
}

proof fn lemma_dot_in_grid(pie: Rect, c: int, k: int)
    requires
        0 <= c < pie.width * pie.height,
        0 <= k < 8,
    ensures
        0 <= dot_of(pie, c, k) < (2 * pie.width) * (4 * pie.height),
        0 <= (4 * (c / pie.width as int) + dot_row(k)) * (2 * pie.width) < (2 * pie.width) * (4 * pie.height),
{
    let w = pie.width as int;
    let h = pie.height as int;
    assert(w > 0) by (nonlinear_arith)
        requires 0 <= c < w * h, w >= 0, h >= 0;
    vstd::arithmetic::div_mod::lemma_multiply_divide_lt(c, w, h);
    vstd::arithmetic::div_mod::lemma_div_pos_is_pos(c, w);
    vstd::arithmetic::div_mod::lemma_mod_bound(c, w);
    let py = c / w;
    let px = c % w;
    let row = dot_row(k);
    let col = dot_col(k);
    assert((4 * py + row) * (2 * w) + 2 * px + col < (2 * w) * (4 * h)) by (nonlinear_arith)
        requires 0 <= py < h, 0 <= px < w, 0 <= row <= 3, 0 <= col <= 1;
    assert(0 <= (4 * py + row) * (2 * w)) by (nonlinear_arith)
        requires 0 <= py, 0 <= row, 0 <= w;
}

fn count_owner(os: &Vec<Option<usize>>, o: usize) -> (r: u32)
    requires
        os@.len() == 8,
    ensures
        r == count(os@, o, 8),
{
    let mut n: u32 = 0;
    let mut m: usize = 0;
    while m < 8
        invariant
            os@.len() == 8,
            m <= 8,
            n == count(os@, o, m as int),
            n <= m,
        decreases 8 - m,
    {
        if os[m] == Some(o) {
            n = n + 1;
        }
        m = m + 1;
    }
    n
}

impl PieChart {
    /// The cell writes of the braille disc (see `braille_cells`), given the
    /// owner of each dot from `braille_dots`.
    pub fn paint_braille(&self, pie: Rect, dots: &Vec<Option<usize>>) -> (r: Vec<Cell>)
        requires
            rect_wf(pie),
            8 * pie.width * pie.height <= usize::MAX,
            dots@.len() == (2 * pie.width) * (4 * pie.height),
            forall|d: int| 0 <= d < dots@.len() ==> (#[trigger] dots@[d] matches Some(i) ==> i < self.slices@.len()),
        ensures
            r@ == braille_cells(self, pie, dots@, pie.width * pie.height),
    {
        let w = pie.width as usize;
        proof {
            assert(pie.width * pie.height <= 0xFFFF * 0xFFFF) by (nonlinear_arith)
                requires pie.width <= 0xFFFF, pie.height <= 0xFFFF;
        }
        let n: usize = w * (pie.height as usize);
        let mut out: Vec<Cell> = Vec::new();
        let mut c: usize = 0;
        while c < n
            invariant
                w == pie.width,
                n == pie.width * pie.height,
                rect_wf(pie),
                8 * pie.width * pie.height <= usize::MAX,
                dots@.len() == (2 * pie.width) * (4 * pie.height),
                forall|d: int| 0 <= d < dots@.len() ==> (#[trigger] dots@[d] matches Some(i) ==> i < self.slices@.len()),
                c <= n,
                out@ == braille_cells(self, pie, dots@, c as int),
            decreases n - c,
        {
            proof {
                assert(w > 0) by (nonlinear_arith)
                    requires 0 <= c < w * pie.height, w >= 0;
                vstd::arithmetic::div_mod::lemma_multiply_divide_lt(c as int, w as int, pie.height as int);
            }
            proof {
                assert forall|j: int| 0 <= j < 8 implies 0 <= #[trigger] dot_of(pie, c as int, j) < dots@.len() by {
                    lemma_dot_in_grid(pie, c as int, j);
                }
            }
            let px = c % w;
            let py = c / w;
            let mut os: Vec<Option<usize>> = Vec::new();
            let mut k: usize = 0;
            while k < 8
                invariant
                    w == pie.width,
                    px == c as int % w as int,
                    py == c as int / w as int,
                    py < pie.height,
                    px < pie.width,
                    dots@.len() == (2 * pie.width) * (4 * pie.height),
                    8 * pie.width * pie.height <= usize::MAX,
                    k <= 8,
                    os@.len() == k,
                    forall|j: int| 0 <= j < k ==> os@[j] == dots@[dot_of(pie, c as int, j)],
                    forall|j: int| 0 <= j < 8 ==> 0 <= #[trigger] dot_of(pie, c as int, j) < dots@.len(),
                    0 <= c < pie.width * pie.height,
                decreases 8 - k,
            {
                let (col, row, _bit) = dot_position(k);
                proof {
                    lemma_dot_in_grid(pie, c as int, k as int);
                    assert((2 * pie.width) * (4 * pie.height) == 8 * pie.width * pie.height) by (nonlinear_arith);
                }
                let d = (4 * py + row) * (2 * w) + 2 * px + col;
                os.push(dots[d]);
                k = k + 1;
            }
            assert(os@ =~= cell_owners(pie, dots@, c as int));
            let mut p: u32 = 0;
            let mut best: Option<usize> = None;
            let mut best_count: u32 = 0;
            let mut m: usize = 0;
            while m < 8
                invariant
                    os@.len() == 8,
                    m <= 8,
                    p == pattern(os@, m as int),
                    p <= full_pattern(m as int),
                    (best, best_count as int) == winner(os@, m as int),
                    forall|d: int| 0 <= d < dots@.len() ==> (#[trigger] dots@[d] matches Some(i) ==> i < self.slices@.len()),
                    forall|j: int| 0 <= j < 8 ==> os@[j] == dots@[dot_of(pie, c as int, j)],
                    forall|j: int| 0 <= j < 8 ==> 0 <= #[trigger] dot_of(pie, c as int, j) < dots@.len(),
                    best matches Some(i) ==> i < self.slices@.len(),
                decreases 8 - m,
            {
                let (_col, _row, bit) = dot_position(m);
                if let Some(o) = os[m] {
                    p = p + bit;
                    let k = count_owner(&os, o);
                    if k > best_count {
                        best = Some(o);
                        best_count = k;
                    }
                }
                m = m + 1;
            }
            if let Some(i) = best {
                if p != 0 {
                    let code: u32 = 0x2800 + p;
                    match char_from_u32(code) {
                        Some(symbol) => {
                            proof {
                                vstd::utf8::char_u32_cast(symbol, code);
                            }
                            out.push(Cell { x: pie.x + px as u16, y: pie.y + py as u16, symbol, color: self.slices[i].color });
                        },
                        None => {},
                    }
                }
            }
            c = c + 1;
        }
        out
    }
}

/// How many of the first `k` cells of `pie` hold at least one owned dot.
pub open spec fn cells_with_owned_dot(pie: Rect, dots: Seq<Option<usize>>, k: int) -> int
    decreases k,
{
    if k <= 0 {
        0
    } else {
        cells_with_owned_dot(pie, dots, k - 1) + if exists|j: int|
            0 <= j < 8 && (#[trigger] cell_owners(pie, dots, k - 1)[j]).is_some() {
            1int
        } else {
            0
        }
    }
}

proof fn lemma_pattern_nonzero(os: Seq<Option<usize>>, m: int)
    requires
        0 <= m <= os.len(),
        pattern(os, m) != 0,
    ensures
        exists|j: int| 0 <= j < m && (#[trigger] os[j]).is_some(),
    decreases m,
{
    if m > 0 && !os[m - 1].is_some() {
        lemma_pattern_nonzero(os, m - 1);
    }
}

/// The dot grid of a braille disc is twice as wide and four times as tall
/// as its rectangle, and no more cells get a braille character than hold
/// an owned dot.
pub proof fn lemma_braille_dot_conservation(
    chart: &PieChart,
    pie: Rect,
    angles: Seq<i64>,
    k: int,
)
    requires
        0 <= k,
    ensures
        Seq::new(((2 * pie.width) * (4 * pie.height)) as nat, |d: int| dot_owner(chart, pie, angles, d)).len()
            == (pie.width * 2) * (pie.height * 4),
        braille_cells(
            chart,
            pie,
            Seq::new(((2 * pie.width) * (4 * pie.height)) as nat, |d: int| dot_owner(chart, pie, angles, d)),
            k,
        ).len() <= cells_with_owned_dot(
            pie,
            Seq::new(((2 * pie.width) * (4 * pie.height)) as nat, |d: int| dot_owner(chart, pie, angles, d)),
            k,
        ),
{
    assert((2 * pie.width) * (4 * pie.height) == (pie.width * 2) * (pie.height * 4)) by (nonlinear_arith);
    lemma_braille_cells_le(chart, pie, Seq::new(((2 * pie.width) * (4 * pie.height)) as nat, |d: int| dot_owner(chart, pie, angles, d)), k);
}

proof fn lemma_braille_cells_le(chart: &PieChart, pie: Rect, dots: Seq<Option<usize>>, k: int)
    requires
        0 <= k,
    ensures
        braille_cells(chart, pie, dots, k).len() <= cells_with_owned_dot(pie, dots, k),
    decreases k,
{
    if k > 0 {
        lemma_braille_cells_le(chart, pie, dots, k - 1);
        let os = cell_owners(pie, dots, k - 1);
        if pattern(os, 8) != 0 {
            lemma_pattern_nonzero(os, 8);
        }
    }
}

/// Membership in a slice that spans less than a full turn, by the angle's
/// clockwise distance from the slice's start.
proof fn lemma_in_slice_by_distance(theta: int, s: int, e: int)
    requires
        s <= e < s + TURN,
    ensures
        in_slice(theta, s, e) <==> (theta - s) % (TURN as int) <= e - s,
{
    let t = TURN as int;
    let a = theta % t;
    let sn = s % t;
    let l = e - s;
    vstd::arithmetic::div_mod::lemma_fundamental_div_mod(theta, t);
    vstd::arithmetic::div_mod::lemma_fundamental_div_mod(s, t);
    vstd::arithmetic::div_mod::lemma_mod_bound(theta, t);
    vstd::arithmetic::div_mod::lemma_mod_bound(s, t);
    let q1 = theta / t;
    let q2 = s / t;
    if sn + l < t {
        vstd::arithmetic::div_mod::lemma_fundamental_div_mod_converse(e, t, q2, sn + l);
    } else {
        vstd::arithmetic::div_mod::lemma_fundamental_div_mod_converse(e, t, q2 + 1, sn + l - t);
    }
    if a >= sn {
        vstd::arithmetic::div_mod::lemma_fundamental_div_mod_converse(theta - s, t, q1 - q2, a - sn);
    } else {
        vstd::arithmetic::div_mod::lemma_fundamental_div_mod_converse(theta - s, t, q1 - q2 - 1, a - sn + t);
    }
}

/// The start of slice `i` counted from twelve o'clock: its cumulative share
/// of a full turn.
pub open spec fn turn_offset(chart: &PieChart, i: int) -> int {
    slice_start(chart, i) + QUARTER
}

proof fn lemma_turn_offsets(chart: &PieChart, i: int, j: int)
    requires
        chart.total_spec() > 0,
        0 <= i <= j <= chart.slices@.len(),
    ensures
        0 <= turn_offset(chart, i) <= turn_offset(chart, j) <= TURN,
        turn_offset(chart, 0) == 0,
        turn_offset(chart, chart.slices@.len() as int) == TURN,
{
    let s = chart.slices@;
    let t = chart.total_spec();
    let n = s.len() as int;
    lemma_cumulative_mono(s, i, j);
    lemma_cumulative_mono(s, j, n);
    assert(s.subrange(0, 0) =~= Seq::<crate::slice::PieSlice>::empty());
    let ci = cumulative(s, i);
    let cj = cumulative(s, j);
    assert(ci * TURN <= cj * TURN) by (nonlinear_arith) requires 0 <= ci <= cj;
    assert(cj * TURN <= t * TURN) by (nonlinear_arith) requires cj <= t;
    vstd::arithmetic::div_mod::lemma_div_is_ordered(ci * TURN, cj * TURN, t);
    vstd::arithmetic::div_mod::lemma_div_is_ordered(cj * TURN, t * TURN, t);
    vstd::arithmetic::div_mod::lemma_div_pos_is_pos(ci * TURN, t);
    assert(t * TURN / t == TURN as int) by (nonlinear_arith) requires t > 0;
    assert(0int * TURN / t == 0) by (nonlinear_arith) requires t > 0;
}

/// Membership of an angle in slice `i`, by where the angle falls between
/// twelve o'clock and a full turn later.
proof fn lemma_in_slice_unwrapped(chart: &PieChart, theta: int, i: int)
    requires
        chart.total_spec() > 0,
        0 <= i < chart.slices@.len(),
        slice_span(chart, i) < TURN,
    ensures
        ({
            let u = (theta + QUARTER) % (TURN as int);
            let ci = turn_offset(chart, i);
            let cj = turn_offset(chart, i + 1);
            in_slice(theta, slice_start(chart, i), slice_start(chart, i + 1))
                <==> ((ci <= u && u <= cj) || (u == 0 && cj == TURN && ci > 0))
        }),
{
    let t = TURN as int;
    let ci = turn_offset(chart, i);
    let cj = turn_offset(chart, i + 1);
    lemma_turn_offsets(chart, i, i + 1);
    lemma_in_slice_by_distance(theta, slice_start(chart, i), slice_start(chart, i + 1));
    let u = (theta + QUARTER) % t;
    vstd::arithmetic::div_mod::lemma_fundamental_div_mod(theta + QUARTER, t);
    vstd::arithmetic::div_mod::lemma_mod_bound(theta + QUARTER, t);
    let q = (theta + QUARTER) / t;
    let x = theta - slice_start(chart, i);
    assert(x == q * t + (u - ci));
    if u >= ci {
        vstd::arithmetic::div_mod::lemma_fundamental_div_mod_converse(x, t, q, u - ci);
    } else {
        vstd::arithmetic::div_mod::lemma_fundamental_div_mod_converse(x, t, q - 1, u - ci + t);
    }
}

proof fn lemma_cover(chart: &PieChart, u: int, m: int) -> (i: int)
    requires
        chart.total_spec() > 0,
        1 <= m <= chart.slices@.len(),
        0 <= u <= turn_offset(chart, m),
    ensures
        0 <= i < m,
        turn_offset(chart, i) <= u <= turn_offset(chart, i + 1),
    decreases m,
{
    lemma_turn_offsets(chart, 0, m - 1);
    if m > 1 && u <= turn_offset(chart, m - 1) {
        lemma_cover(chart, u, m - 1)
    } else {
        m - 1
    }
}

/// The slices of a chart with a positive total partition the circle: every
/// angle lies in some slice, and an angle that lies in two slices is a
/// boundary between slices. A slice that spans a full turn holds every
/// angle; the others then span nothing.
pub proof fn lemma_slices_partition_circle(chart: &PieChart, theta: int)
    requires
        chart.total_spec() > 0,
    ensures
        exists|i: int| 0 <= i < chart.slices@.len() && #[trigger] in_slice_of(chart, theta, i),
        forall|i: int, j: int| 0 <= i < j < chart.slices@.len()
            && #[trigger] in_slice_of(chart, theta, i)
            && #[trigger] in_slice_of(chart, theta, j)
            ==> exists|k: int| 0 <= k <= chart.slices@.len() && normalize(theta) == #[trigger] normalize(slice_start(chart, k)),
{
    let n = chart.slices@.len() as int;
    let t = TURN as int;
    let u = (theta + QUARTER) % t;
    vstd::arithmetic::div_mod::lemma_mod_bound(theta + QUARTER, t);
    lemma_turn_offsets(chart, 0, n);
    assert(n >= 1) by {
        if n == 0 {
            assert(chart.slices@.subrange(0, 0) =~= chart.slices@);
        }
    }
    let i = lemma_cover(chart, u, n);
    if slice_span(chart, i) < TURN {
        lemma_in_slice_unwrapped(chart, theta, i);
    }
    assert(in_slice_of(chart, theta, i));
    assert forall|i: int, j: int| 0 <= i < j < n
        && #[trigger] in_slice_of(chart, theta, i)
        && #[trigger] in_slice_of(chart, theta, j)
        implies exists|k: int| 0 <= k <= n && normalize(theta) == #[trigger] normalize(slice_start(chart, k)) by {
        lemma_turn_offsets(chart, i + 1, j);
        lemma_turn_offsets(chart, 0, i);
        lemma_turn_offsets(chart, i, i + 1);
        lemma_turn_offsets(chart, j, j + 1);
        if slice_span(chart, i) < TURN {
            lemma_in_slice_unwrapped(chart, theta, i);
        }
        if slice_span(chart, j) < TURN {
            lemma_in_slice_unwrapped(chart, theta, j);
        }
        let k = if u == 0 { 0 } else { i + 1 };
        lemma_same_offset_same_angle(chart, theta, k);
    }
}

proof fn lemma_same_offset_same_angle(chart: &PieChart, theta: int, k: int)
    requires
        0 <= k <= chart.slices@.len(),
        chart.total_spec() > 0,
        (theta + QUARTER) % (TURN as int) == turn_offset(chart, k) % (TURN as int),
    ensures
        normalize(theta) == normalize(slice_start(chart, k)),
{
    let t = TURN as int;
    vstd::arithmetic::div_mod::lemma_fundamental_div_mod(theta + QUARTER, t);
    vstd::arithmetic::div_mod::lemma_fundamental_div_mod(turn_offset(chart, k), t);
    vstd::arithmetic::div_mod::lemma_mod_bound(theta, t);
    vstd::arithmetic::div_mod::lemma_fundamental_div_mod(theta, t);
    vstd::arithmetic::div_mod::lemma_fundamental_div_mod(slice_start(chart, k), t);
    vstd::arithmetic::div_mod::lemma_mod_bound(slice_start(chart, k), t);
    vstd::arithmetic::div_mod::lemma_mod_bound(turn_offset(chart, k), t);
    vstd::arithmetic::div_mod::lemma_mod_bound(theta + QUARTER, t);
    let d = theta - slice_start(chart, k);
    let q = (theta + QUARTER) / t - turn_offset(chart, k) / t;
    assert(d == q * t);
    vstd::arithmetic::div_mod::lemma_fundamental_div_mod_converse(d, t, q, 0);
    vstd::arithmetic::div_mod::lemma_mod_multiples_vanish(q, slice_start(chart, k), t);
    assert(theta == q * t + slice_start(chart, k));
}

/// The cell of `pie` that dot `d` of its dot grid lies in.
pub open spec fn cell_of_dot(pie: Rect, d: int) -> int {
    let dw = 2 * pie.width as int;
    (d / dw / 4) * pie.width as int + (d % dw) / 2
}

/// Which of its cell's eight dots dot `d` is (see `dot_col`, `dot_row`).
pub open spec fn dot_slot(pie: Rect, d: int) -> int {
    let dw = 2 * pie.width as int;
    let col = (d % dw) % 2;
    let row = (d / dw) % 4;
    if row == 3 { 6 + col } else { 3 * col + row }
}

proof fn lemma_dot_of_inverse(pie: Rect, c: int, k: int)
    requires
        0 <= c < pie.width * pie.height,
        0 <= k < 8,
    ensures
        cell_of_dot(pie, dot_of(pie, c, k)) == c,
        dot_slot(pie, dot_of(pie, c, k)) == k,
{
    let w = pie.width as int;
    let h = pie.height as int;
    let dw = 2 * w;
    lemma_dot_in_grid(pie, c, k);
    assert(w > 0) by (nonlinear_arith)
        requires 0 <= c < w * h, w >= 0, h >= 0;
    vstd::arithmetic::div_mod::lemma_fundamental_div_mod(c, w);
    vstd::arithmetic::div_mod::lemma_mod_bound(c, w);
    vstd::arithmetic::div_mod::lemma_div_pos_is_pos(c, w);
    let py = c / w;
    let px = c % w;
    let row = dot_row(k);
    let col = dot_col(k);
    let d = dot_of(pie, c, k);
    assert(d == (4 * py + row) * dw + (2 * px + col));
    vstd::arithmetic::div_mod::lemma_fundamental_div_mod_converse(d, dw, 4 * py + row, 2 * px + col);
    vstd::arithmetic::div_mod::lemma_fundamental_div_mod_converse(4 * py + row, 4, py, row);
    vstd::arithmetic::div_mod::lemma_fundamental_div_mod_converse(2 * px + col, 2, px, col);
}

/// Every dot of a braille grid lies in exactly one cell, as exactly one of
/// its eight dots: the pattern and color of a cell depend on its own dots
/// alone.
pub proof fn lemma_dot_in_one_cell(pie: Rect, d: int)
    requires
        0 <= d < (2 * pie.width) * (4 * pie.height),
    ensures
        0 <= cell_of_dot(pie, d) < pie.width * pie.height,
        0 <= dot_slot(pie, d) < 8,
        dot_of(pie, cell_of_dot(pie, d), dot_slot(pie, d)) == d,
        forall|c: int, k: int| 0 <= c < pie.width * pie.height && 0 <= k < 8 && #[trigger] dot_of(pie, c, k) == d
            ==> c == cell_of_dot(pie, d) && k == dot_slot(pie, d),
{
    let w = pie.width as int;
    let h = pie.height as int;
    let dw = 2 * w;
    assert(w > 0) by (nonlinear_arith)
        requires 0 <= d < (2 * w) * (4 * h), w >= 0, h >= 0;
    vstd::arithmetic::div_mod::lemma_fundamental_div_mod(d, dw);
    vstd::arithmetic::div_mod::lemma_mod_bound(d, dw);
    vstd::arithmetic::div_mod::lemma_div_pos_is_pos(d, dw);
    assert((2 * w) * (4 * h) == dw * (4 * h)) by (nonlinear_arith)
        requires dw == 2 * w;
    vstd::arithmetic::div_mod::lemma_multiply_divide_lt(d, dw, 4 * h);
    let r = d / dw;
    let m = d % dw;
    vstd::arithmetic::div_mod::lemma_fundamental_div_mod(r, 4);
    vstd::arithmetic::div_mod::lemma_mod_bound(r, 4);
    vstd::arithmetic::div_mod::lemma_fundamental_div_mod(m, 2);
    vstd::arithmetic::div_mod::lemma_mod_bound(m, 2);
    vstd::arithmetic::div_mod::lemma_div_pos_is_pos(r, 4);
    vstd::arithmetic::div_mod::lemma_div_pos_is_pos(m, 2);
    let py = r / 4;
    let px = m / 2;
    assert(py < h);
    assert(px < w);
    let c = py * w + px;
    assert(0 <= c < w * h) by (nonlinear_arith)
        requires 0 <= py < h, 0 <= px < w, c == py * w + px;
    vstd::arithmetic::div_mod::lemma_fundamental_div_mod_converse(c, w, py, px);
    assert(c == cell_of_dot(pie, d));
    let row = r % 4;
    let col = m % 2;
    let k = dot_slot(pie, d);
    assert(dot_row(k) == row && dot_col(k) == col) by {
        assert(0 <= row < 4 && 0 <= col < 2);
        if row == 3 {
            if col == 0 { assert(k == 6); } else { assert(k == 7); }
        } else if col == 0 {
            assert(k == row);
        } else {
            assert(k == 3 + row);
        }
    }
    assert(d == (4 * py + row) * dw + 2 * px + col) by (nonlinear_arith)
        requires d == dw * r + m, r == 4 * py + row, m == 2 * px + col;
    assert forall|c2: int, k: int| 0 <= c2 < pie.width * pie.height && 0 <= k < 8 && #[trigger] dot_of(pie, c2, k) == d
        implies c2 == cell_of_dot(pie, d) && k == dot_slot(pie, d) by {
        lemma_dot_of_inverse(pie, c2, k);
    }
}

} // verus!
