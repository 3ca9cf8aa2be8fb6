use vstd::prelude::*;
use ratatui::style::Color;

verus! {

/// The host's color handle, carried through unchanged.
#[verifier::external_type_specification]
#[verifier::external_body]
pub struct ExColor(Color);

/// Relies on the `Clone` that ratatui derives for its `Copy` type `Color`:
/// the clone is the same color.
pub assume_specification[ <Color as Clone>::clone ](c: &Color) -> (r: Color)
    ensures
        r == *c,
;

/// One wedge of the pie: a label, a value and a color.
#[derive(Debug, Clone, PartialEq)]
pub struct PieSlice {
    /// Shown in the legend.
    pub label: String,
    /// The slice's weight, in whole units of the caller's choosing; only
    /// its ratio to the total matters. Being unsigned, it is never negative.
    pub value: u32,
    /// The color of the slice's cells and legend entry.
    pub color: Color,
}

/// A bound on the total of any slice list that memory can hold.
pub const MAX_TOTAL: u128 = 0x1_0000_0000_0000_0000_0000_0000;

/// Sum of the values of `s`.
pub open spec fn total_of(s: Seq<PieSlice>) -> int
    decreases s.len(),
{
    if s.len() == 0 {
        0
    } else {
        total_of(s.drop_last()) + s.last().value
    }
}

/// Sum of the values of the first `n` slices of `s`: the cumulative value
/// before slice `n`.
pub open spec fn cumulative(s: Seq<PieSlice>, n: int) -> int {
    total_of(s.subrange(0, n))
}

/// A slice's share of `total` in tenths of a percent, rounded half away
/// from zero; zero when the total is zero.
pub open spec fn percent_tenths(value: int, total: int) -> int {
    if total > 0 {
        (2000 * value + total) / (2 * total)
    } else {
        0
    }
}

/// A total is never negative, and each slice adds at most `u32::MAX`.
pub proof fn lemma_total_bound(s: Seq<PieSlice>)
    ensures
        0 <= total_of(s) <= s.len() * 0xFFFF_FFFF,
    decreases s.len(),
{
    if s.len() > 0 {
        lemma_total_bound(s.drop_last());
    }
}

/// Adding a slice adds its value to the total.
pub proof fn lemma_total_push(s: Seq<PieSlice>, x: PieSlice)
    ensures
        total_of(s.push(x)) == total_of(s) + x.value,
{
    assert(s.push(x).drop_last() =~= s);
}

/// The cumulative value after slice `j` is the one before it plus its value.
pub proof fn lemma_cumulative_step(s: Seq<PieSlice>, j: int)
    requires
        0 <= j < s.len(),
    ensures
        cumulative(s, j + 1) == cumulative(s, j) + s[j].value,
{
    lemma_total_push(s.subrange(0, j), s[j]);
    assert(s.subrange(0, j).push(s[j]) =~= s.subrange(0, j + 1));
}

/// Cumulative values grow with the prefix and end at the total.
pub proof fn lemma_cumulative_mono(s: Seq<PieSlice>, i: int, j: int)
    requires
        0 <= i <= j <= s.len(),
    ensures
        0 <= cumulative(s, i) <= cumulative(s, j),
        cumulative(s, s.len() as int) == total_of(s),
    decreases j - i,
{
    assert(s.subrange(0, s.len() as int) =~= s);
    lemma_total_bound(s.subrange(0, i));
    if i < j {
        lemma_cumulative_mono(s, i, j - 1);
        lemma_cumulative_step(s, j - 1);
    }
}

impl PieSlice {
    /// Creates a slice with the given label, value and color.
    pub fn new(label: &str, value: u32, color: Color) -> (r: PieSlice)
        ensures
            r.label@ == label@,
            r.value == value,
            r.color == color,
    {
        PieSlice { label: label.to_owned(), value, color }
    }

    /// The label of this slice.
    pub fn label(&self) -> (r: &str)
        ensures
            r@ == self.label@,
    {
        self.label.as_str()
    }

    /// The value of this slice.
    pub fn value(&self) -> (r: u32)
        ensures
            r == self.value,
    {
        self.value
    }

    /// The color of this slice.
    pub fn color(&self) -> (r: Color)
        ensures
            r == self.color,
    {
        self.color
    }
}

/// Sum of the values of `slices`.
pub fn total_value(slices: &Vec<PieSlice>) -> (r: u128)
    ensures
        r == total_of(slices@),
        r <= MAX_TOTAL,
{
    let mut sum: u128 = 0;
    let mut i: usize = 0;
    while i < slices.len()
        invariant
            i <= slices.len(),
            sum == cumulative(slices@, i as int),
        decreases slices.len() - i,
    {
        proof {
            lemma_cumulative_step(slices@, i as int);
            lemma_total_bound(slices@.subrange(0, i + 1));
            assert((i + 1) * 0xFFFF_FFFF <= 0x1_0000_0000_0000_0000 * 0xFFFF_FFFF) by (nonlinear_arith)
                requires i + 1 <= 0x1_0000_0000_0000_0000;
        }
        sum = sum + slices[i].value as u128;
        i = i + 1;
    }
    assert(slices@.subrange(0, i as int) =~= slices@);
    proof {
        lemma_total_bound(slices@);
        assert(slices@.len() * 0xFFFF_FFFF <= 0x1_0000_0000_0000_0000 * 0xFFFF_FFFF) by (nonlinear_arith)
            requires slices@.len() <= 0x1_0000_0000_0000_0000;
    }
    sum
}

/// The share of `value` in `total`, in tenths of a percent (see
/// `percent_tenths`).
pub(crate) fn percent_of(value: u32, total: u128) -> (r: u64)
    requires
        total <= MAX_TOTAL,
    ensures
        r == percent_tenths(value as int, total as int),
        value <= total ==> r <= 1000,
{
    if total > 0 {
        let num: u128 = 2000 * (value as u128) + total as u128;
        let den: u128 = 2 * (total as u128);
        proof {
            if value <= total {
                assert(num < 1001 * den) by (nonlinear_arith)
                    requires
                        num == 2000 * (value as int) + total,
                        den == 2 * total,
                        value <= total,
                        total > 0,
                ;
                assert(num / den <= 1000) by (nonlinear_arith)
                    requires
                        num < 1001 * den,
                        den > 0,
                ;
            }
            assert(num / den <= num) by (nonlinear_arith)
                requires
                    num >= 0,
                    den >= 1,
            ;
        }
        (num / den) as u64
    } else {
        0
    }
}

} // verus!
