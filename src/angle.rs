use vstd::prelude::*;
use crate::slice::MAX_TOTAL;

verus! {

/// Angle units in one full turn: ten-thousandths of a degree.
pub const TURN: i64 = 3_600_000;

/// A quarter turn, the offset that puts zero percent at twelve o'clock.
pub const QUARTER: i64 = 900_000;

/// The angle `a` brought into `[0, TURN)`.
pub open spec fn normalize(a: int) -> int {
    a % (TURN as int)
}

/// Whether `angle` lies in the slice from `start` to `end`, all three taken
/// modulo a full turn; a slice whose normalized start lies after its
/// normalized end wraps past zero.
pub open spec fn in_slice(angle: int, start: int, end: int) -> bool {
    let a = normalize(angle);
    let s = normalize(start);
    let e = normalize(end);
    if s <= e {
        s <= a && a <= e
    } else {
        a >= s || a <= e
    }
}

fn normalize_angle(a: i64) -> (r: i64)
    ensures
        r == normalize(a as int),
        0 <= r < TURN,
{
    let m = a % TURN;
    if m < 0 {
        m + TURN
    } else {
        m
    }
}

/// Whether `angle` lies in the slice from `start` to `end` (see `in_slice`).
pub fn is_angle_in_slice(angle: i64, start: i64, end: i64) -> (r: bool)
    ensures
        r == in_slice(angle as int, start as int, end as int),
{
    let a = normalize_angle(angle);
    let s = normalize_angle(start);
    let e = normalize_angle(end);
    if s <= e {
        a >= s && a <= e
    } else {
        a >= s || a <= e
    }
}

/// The angle at which a cumulative value `c` out of `total` lies: the
/// share `c / total` of a full turn, less a quarter turn, so that zero
/// points to twelve o'clock and angles grow clockwise on screen.
pub open spec fn boundary(c: int, total: int) -> int {
    c * (TURN as int) / total - QUARTER as int
}

/// The start and end angles of a slice whose values before it sum to
/// `before`, with value `value`, out of `total`.
pub fn slice_angle_range(before: u128, value: u32, total: u128) -> (r: (i64, i64))
    requires
        0 < total <= MAX_TOTAL,
        before + value <= total,
    ensures
        r.0 == boundary(before as int, total as int),
        r.1 == boundary(before + value, total as int),
        -QUARTER <= r.0 <= r.1 <= TURN - QUARTER,
{
    let c0: u128 = before;
    let c1: u128 = before + value as u128;
    proof {
        assert(c0 * TURN <= c1 * TURN) by (nonlinear_arith)
            requires c0 <= c1;
        assert(c1 * TURN <= total * TURN) by (nonlinear_arith)
            requires c1 <= total;
        assert(total * TURN <= MAX_TOTAL * TURN) by (nonlinear_arith)
            requires total <= MAX_TOTAL;
        lemma_div_le(c0 * TURN, c1 * TURN, total as int);
        lemma_div_le(c1 * TURN, total * TURN, total as int);
        vstd::arithmetic::div_mod::lemma_div_by_multiple(TURN as int, total as int);
        assert(total * TURN == TURN * total) by (nonlinear_arith);
    }
    let a0: u128 = c0 * (TURN as u128) / total;
    let a1: u128 = c1 * (TURN as u128) / total;
    ((a0 as i64) - QUARTER, (a1 as i64) - QUARTER)
}

proof fn lemma_div_le(x: int, y: int, d: int)
    requires
        0 <= x <= y,
        d > 0,
    ensures
        0 <= x / d <= y / d,
{
    vstd::arithmetic::div_mod::lemma_div_is_ordered(x, y, d);
    vstd::arithmetic::div_mod::lemma_div_pos_is_pos(x, d);
}

/// A slice that runs from 350 degrees to 10 degrees crosses zero: 5 degrees
/// lies in it and 180 degrees does not.
pub proof fn lemma_wraparound()
    ensures
        in_slice(50_000, 3_500_000, 100_000),
        !in_slice(1_800_000, 3_500_000, 100_000),
{
}

} // verus!
