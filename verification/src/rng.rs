//! The floor-rounded random-range helper.
//!
//! The host supplies uniform randomness as a 32-bit fixed-point fraction:
//! a sample `u` stands for the real number `u / 2^32`, which lies in
//! `[0, 1)`. `random2` maps such a sample into a half-open integer range
//! exactly as `floor(U * (hi - lo) + lo)` does for a real `U` in `[0, 1)`:
//! for integer bounds the two formulas agree sample for sample.

use vstd::prelude::*;

verus! {

/// What `random2` returns: `lo + floor(u * (hi - lo) / 2^32)`, the
/// floor-rounded image of the fixed-point fraction `u / 2^32` in `[lo, hi)`.
pub open spec fn spec_random2(lo: int, hi: int, u: int) -> int {
    lo + (u * (hi - lo)) / 0x1_0000_0000
}

/// Maps a uniform fixed-point sample `u` (standing for `u / 2^32` in
/// `[0, 1)`) into the half-open range `[range1, range2)`, rounding down.
/// The result is always a whole number at least `range1` and strictly
/// below `range2`.
pub fn random2(range1: i64, range2: i64, u: u32) -> (v: i64)
    requires
        range1 < range2,
        -1_000_000 <= range1,
        range2 <= 1_000_000,
    ensures
        v == spec_random2(range1 as int, range2 as int, u as int),
        range1 <= v < range2,
{
    let span: i64 = range2 - range1;
    proof {
        assert((u as int) * (span as int) <= 0xffff_ffff * (span as int)
            && 0xffff_ffff * (span as int) <= 0xffff_ffff * 2_000_000int) by (nonlinear_arith)
            requires
                0 <= u as int <= 0xffff_ffff,
                0 < span as int <= 2_000_000,
        ;
        assert(0 <= (u as int) * (span as int)) by (nonlinear_arith)
            requires
                0 <= u as int,
                0 < span as int,
        ;
    }
    let scaled: i64 = (u as i64) * span;
    let offset: i64 = scaled / 0x1_0000_0000;
    proof {
        assert(0 <= (scaled as int) / 0x1_0000_0000 < span as int) by (nonlinear_arith)
            requires
                0 <= scaled as int,
                scaled as int <= 0xffff_ffff * (span as int),
                0 < span as int,
        ;
    }
    range1 + offset
}

} // verus!
