use vstd::prelude::*;
use vstd::arithmetic::div_mod::{lemma_div_is_ordered, lemma_div_by_self, lemma_div_multiples_vanish};
use vstd::arithmetic::mul::lemma_mul_inequality;

verus! {

/// Progress fractions are carried in units of one ten-thousandth.
pub const PROGRESS_SCALE: u32 = 10000;

pub open spec fn cube(x: int) -> int {
    x * x * x
}

/// Units counted toward the curve: the compiled count, capped at the estimate.
pub open spec fn capped(compiled: int, total: int) -> int {
    if compiled < total { compiled } else { total }
}

/// `1 - (1 - x)^3` for `x = capped / total`, scaled by `total^3`.
pub open spec fn eased_numerator(compiled: int, total: int) -> int {
    cube(total) - cube(total - capped(compiled, total))
}

/// The eased compile ratio mapped into the progress band `[lo, hi]`.
pub open spec fn band_progress(lo: int, hi: int, compiled: int, total: int) -> int {
    if total <= 0 {
        hi
    } else {
        lo + (hi - lo) * eased_numerator(compiled, total) / cube(total)
    }
}

proof fn lemma_cube_monotone(a: int, b: int)
    requires
        0 <= a <= b,
    ensures
        0 <= cube(a) <= cube(b),
{
    assert(a * a <= b * b) by (nonlinear_arith)
        requires 0 <= a <= b;
    assert(a * a * a <= b * b * b) by (nonlinear_arith)
        requires 0 <= a <= b, a * a <= b * b;
    assert(0 <= a * a * a) by (nonlinear_arith)
        requires 0 <= a;
}

proof fn lemma_band_bounds(lo: int, hi: int, compiled: int, total: int)
    requires
        0 <= lo <= hi,
        0 <= compiled,
        0 < total,
    ensures
        0 <= eased_numerator(compiled, total) <= cube(total),
        lo <= band_progress(lo, hi, compiled, total) <= hi,
{
    let m = capped(compiled, total);
    lemma_cube_monotone(total - m, total);
    lemma_cube_monotone(1, total);
    let e = eased_numerator(compiled, total);
    let t3 = cube(total);
    lemma_mul_inequality(e, t3, hi - lo);
    assert((hi - lo) * e <= (hi - lo) * t3) by (nonlinear_arith)
        requires 0 <= e <= t3, 0 <= hi - lo;
    assert(0 <= (hi - lo) * e) by (nonlinear_arith)
        requires 0 <= e, 0 <= hi - lo;
    lemma_div_is_ordered((hi - lo) * e, (hi - lo) * t3, t3);
    lemma_div_multiples_vanish(hi - lo, t3);
    assert((hi - lo) * t3 == t3 * (hi - lo)) by (nonlinear_arith);
    lemma_div_is_ordered(0, (hi - lo) * e, t3);
}

/// The eased progress starts at the band's lower bound, ends at its upper
/// bound once the estimate is reached, and never decreases as more units
/// are compiled.
pub proof fn lemma_ease_out_shape(lo: int, hi: int, total: int, c1: int, c2: int)
    requires
        0 <= lo <= hi,
        0 < total,
        0 <= c1 <= c2,
    ensures
        band_progress(lo, hi, 0, total) == lo,
        band_progress(lo, hi, total, total) == hi,
        band_progress(lo, hi, c1, total) <= band_progress(lo, hi, c2, total),
        lo <= band_progress(lo, hi, c1, total) <= hi,
{
    let t3 = cube(total);
    lemma_cube_monotone(1, total);
    assert(cube(0) == 0);
    assert(eased_numerator(0, total) == 0);
    assert((hi - lo) * 0 == 0);
    assert(0int / t3 == 0);
    assert(eased_numerator(total, total) == t3);
    lemma_div_multiples_vanish(hi - lo, t3);
    assert((hi - lo) * t3 == t3 * (hi - lo)) by (nonlinear_arith);
    let m1 = capped(c1, total);
    let m2 = capped(c2, total);
    lemma_cube_monotone(total - m2, total - m1);
    lemma_cube_monotone(total - m1, total);
    let e1 = eased_numerator(c1, total);
    let e2 = eased_numerator(c2, total);
    assert((hi - lo) * e1 <= (hi - lo) * e2) by (nonlinear_arith)
        requires e1 <= e2, 0 <= hi - lo;
    lemma_div_is_ordered((hi - lo) * e1, (hi - lo) * e2, t3);
    lemma_band_bounds(lo, hi, c1, total);
}

/// Progress while compiling: the eased ratio of compiled units to the
/// estimated total, mapped into the band `[lo, hi]`.
pub fn eased_progress(lo: u32, hi: u32, compiled: u32, estimated_total: u32) -> (r: u32)
    requires
        lo <= hi <= PROGRESS_SCALE,
    ensures
        r == band_progress(lo as int, hi as int, compiled as int, estimated_total as int),
        lo <= r <= hi,
{
    if estimated_total == 0 {
        return hi;
    }
    let t: u128 = estimated_total as u128;
    let m: u128 = if compiled < estimated_total { compiled as u128 } else { t };
    let rest: u128 = t - m;
    proof {
        lemma_cube_monotone(rest as int, t as int);
        lemma_cube_monotone(1, t as int);
        assert(t * t <= 0xffff_ffff * 0xffff_ffffu128) by (nonlinear_arith)
            requires t <= 0xffff_ffff;
        assert(t * t * t <= 0xffff_ffff * 0xffff_ffffu128 * 0xffff_ffffu128) by (nonlinear_arith)
            requires t <= 0xffff_ffff, t * t <= 0xffff_ffff * 0xffff_ffffu128;
    }
    let t3: u128 = t * t * t;
    proof {
        assert(rest * rest <= t * t) by (nonlinear_arith)
            requires rest <= t;
    }
    let r3: u128 = rest * rest * rest;
    let e: u128 = t3 - r3;
    let span: u128 = (hi - lo) as u128;
    proof {
        assert(span * e <= 10000 * (0xffff_ffff * 0xffff_ffffu128 * 0xffff_ffffu128)) by (nonlinear_arith)
            requires span <= 10000, e <= t3, t3 <= 0xffff_ffff * 0xffff_ffffu128 * 0xffff_ffffu128;
        lemma_band_bounds(lo as int, hi as int, compiled as int, estimated_total as int);
    }
    let q: u128 = span * e / t3;
    (lo as u128 + q) as u32
}

} // verus!
