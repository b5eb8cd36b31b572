use vstd::prelude::*;

verus! {

/// One whole unit in the fixed-point representation: values are millionths.
pub const UNIT: u64 = 1_000_000;

/// `n / d` rounded to the nearest integer, halves rounded up.
pub open spec fn round_div(n: int, d: int) -> int {
    (2 * n + d) / (2 * d)
}

/// `x` limited to `[lo, hi]`.
pub open spec fn clamp(x: int, lo: int, hi: int) -> int {
    if x < lo {
        lo
    } else if x > hi {
        hi
    } else {
        x
    }
}

/// Rounds `n / d` for a non-negative `n`, saturating at `u64::MAX`.
pub fn round_div_sat(n: u128, d: u128) -> (r: u64)
    requires
        0 < d,
        n <= u64::MAX as u128 * 0x1_0000_0000,
        d <= u64::MAX as u128,
    ensures
        r == clamp(round_div(n as int, d as int), 0, u64::MAX as int),
{
    assert(2 * n + d <= u128::MAX) by (nonlinear_arith)
        requires
            n <= u64::MAX as u128 * 0x1_0000_0000,
            d <= u64::MAX as u128,
    ;
    let q = (2 * n + d) / (2 * d);
    if q > u64::MAX as u128 {
        u64::MAX
    } else {
        q as u64
    }
}

} // verus!
