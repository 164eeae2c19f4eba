//! The coordinate mapper: a pure, stateless transform from a logical
//! coordinate to an integer duty-cycle value.
//!
//! Coordinates and calibration bounds are fixed-point integers: the caller
//! picks a scale (how many raw units stand for one logical unit) and gives
//! every coordinate and bound in those units.  The transform clamps the
//! coordinate into the calibrated range, normalizes it, and scales it to the
//! duty-cycle resolution, truncating toward zero.  The result does not depend
//! on the chosen scale, because the scale cancels between the numerator and
//! the denominator of the transform.

use vstd::arithmetic::div_mod::{
    lemma_div_is_ordered, lemma_div_multiples_vanish, lemma_div_of0, lemma_div_pos_is_pos,
    lemma_fundamental_div_mod, lemma_mod_division_less_than_divisor,
};
use vstd::arithmetic::mul::{
    lemma_mul_inequality, lemma_mul_is_commutative, lemma_mul_nonnegative, lemma_mul_upper_bound,
};
use vstd::prelude::*;

verus! {

/// Largest magnitude a coordinate bound may have, in raw fixed-point units.
/// Keeping bounds within this range guarantees that the intermediate
/// products of the transform fit in the machine integers used to compute it.
pub const RAW_BOUND: i64 = 0x100_0000_0000;

/// A pair of calibration bounds is usable when it is strictly increasing and
/// both ends are within the magnitude limit.
pub open spec fn valid_bounds(lo: i64, hi: i64) -> bool {
    &&& -RAW_BOUND <= lo
    &&& lo < hi
    &&& hi <= RAW_BOUND
}

/// The coordinate, saturated into the calibrated range.
pub open spec fn clamped(v: int, lo: int, hi: int) -> int {
    if v < lo {
        lo
    } else if v > hi {
        hi
    } else {
        v
    }
}

/// The duty-cycle value a coordinate maps to: clamp into `[lo, hi]`,
/// normalize to the width of the range, scale by the resolution, and
/// truncate toward zero.
pub open spec fn duty_spec(v: int, lo: int, hi: int, r: int) -> int
    recommends
        lo < hi,
        0 < r,
{
    ((clamped(v, lo, hi) - lo) * r) / (hi - lo)
}

/// The mapped value always lies in `[0, r]`: clamping bounds the numerator
/// by the denominator times `r`.
pub proof fn lemma_duty_in_range(v: int, lo: int, hi: int, r: int)
    requires
        lo < hi,
        0 < r,
    ensures
        0 <= duty_spec(v, lo, hi, r) <= r,
{
    let c = clamped(v, lo, hi) - lo;
    let w = hi - lo;
    lemma_mul_nonnegative(c, r);
    lemma_div_pos_is_pos(c * r, w);
    lemma_mul_inequality(c, w, r);
    lemma_div_is_ordered(c * r, w * r, w);
    lemma_mul_is_commutative(w, r);
    lemma_div_multiples_vanish(r, w);
}

/// For a fixed calibrated range, the mapping is non-decreasing in the
/// coordinate.
pub proof fn lemma_duty_monotonic(v1: int, v2: int, lo: int, hi: int, r: int)
    requires
        lo < hi,
        0 < r,
        v1 <= v2,
    ensures
        duty_spec(v1, lo, hi, r) <= duty_spec(v2, lo, hi, r),
{
    let c1 = clamped(v1, lo, hi) - lo;
    let c2 = clamped(v2, lo, hi) - lo;
    lemma_mul_inequality(c1, c2, r);
    lemma_div_is_ordered(c1 * r, c2 * r, hi - lo);
}

/// Coordinates beyond either end of the calibrated range map exactly as the
/// end itself does: clamping saturates, it does not fault.
pub proof fn lemma_duty_clamp_idempotent(k: int, lo: int, hi: int, r: int)
    requires
        lo < hi,
        0 < r,
        0 < k,
    ensures
        duty_spec(lo - k, lo, hi, r) == duty_spec(lo, lo, hi, r),
        duty_spec(hi + k, lo, hi, r) == duty_spec(hi, lo, hi, r),
{
}

/// The lower calibration bound maps exactly to zero.
pub proof fn lemma_duty_at_lower(lo: int, hi: int, r: int)
    requires
        lo < hi,
        0 < r,
    ensures
        duty_spec(lo, lo, hi, r) == 0,
{
    let w = hi - lo;
    assert(clamped(lo, lo, hi) - lo == 0);
    assert(0 * r == 0);
    lemma_div_of0(w);
}

/// The upper calibration bound maps exactly to the full resolution.  This is
/// the one consistent rounding rule of the library: integer arithmetic is
/// exact here, so the top of the range yields `r` itself, never `r - 1`.
pub proof fn lemma_duty_at_upper(lo: int, hi: int, r: int)
    requires
        lo < hi,
        0 < r,
    ensures
        duty_spec(hi, lo, hi, r) == r,
{
    let w = hi - lo;
    lemma_mul_is_commutative(w, r);
    lemma_div_multiples_vanish(r, w);
}

/// Quantization error bound, stated exactly over the integers with the
/// denominators cleared: scaling the mapped value back onto the coordinate
/// range undershoots the clamped coordinate by less than one quantum, that
/// is, by less than `(hi - lo) / r` in coordinate units.
pub proof fn lemma_duty_quantization(v: int, lo: int, hi: int, r: int)
    requires
        lo < hi,
        0 < r,
    ensures
        0 <= (clamped(v, lo, hi) - lo) * r - duty_spec(v, lo, hi, r) * (hi - lo) < hi - lo,
{
    let c = clamped(v, lo, hi) - lo;
    let w = hi - lo;
    lemma_fundamental_div_mod(c * r, w);
    lemma_mod_division_less_than_divisor(c * r, w);
    lemma_mul_is_commutative(w, (c * r) / w);
}

/// Map a coordinate to a duty-cycle value.  The coordinate itself may be any
/// value: it is clamped into the calibrated range first.  The result is the
/// truncated linear interpolation, and never exceeds the resolution.
pub fn map_duty(value: i64, lo: i64, hi: i64, resolution: u16) -> (d: u16)
    requires
        valid_bounds(lo, hi),
        0 < resolution,
    ensures
        d as int == duty_spec(value as int, lo as int, hi as int, resolution as int),
        d <= resolution,
{
    let trimmed: i64 = if value < lo {
        lo
    } else if value > hi {
        hi
    } else {
        value
    };
    let shifted: u64 = (trimmed - lo) as u64;
    let span: u64 = (hi - lo) as u64;
    proof {
        let c = clamped(value as int, lo as int, hi as int) - lo as int;
        lemma_mul_upper_bound(c, 2 * RAW_BOUND as int, resolution as int, u16::MAX as int);
        lemma_duty_in_range(value as int, lo as int, hi as int, resolution as int);
    }
    let scaled: u64 = shifted * (resolution as u64);
    let q: u64 = scaled / span;
    q as u16
}

} // verus!
