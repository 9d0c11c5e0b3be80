//! Calibration arithmetic: the tare mean and the rounded unit conversion.
//!
//! The scale factor that maps raw counts to physical units is carried as an
//! exact rational, numerator over denominator, so every conversion is plain
//! integer arithmetic with a single, fully specified rounding step.

use crate::reader::raw_in_range;
use vstd::arithmetic::div_mod::lemma_div_by_multiple;
use vstd::arithmetic::div_mod::lemma_div_is_ordered;
use vstd::arithmetic::div_mod::lemma_div_pos_is_pos;
use vstd::arithmetic::div_mod::lemma_fundamental_div_mod;
use vstd::arithmetic::div_mod::lemma_mod_division_less_than_divisor;
use vstd::arithmetic::mul::lemma_mul_upper_bound;
use vstd::math::abs;
use vstd::prelude::*;

verus! {

/// Sum of a sequence of raw samples, as a mathematical integer.
pub open spec fn sum_raw(s: Seq<i32>) -> int
    decreases s.len(),
{
    if s.len() == 0 {
        0
    } else {
        sum_raw(s.drop_last()) + s.last()
    }
}

/// Integer division truncating toward zero (what dividing two signed
/// machine integers does), stated over Euclidean division on magnitudes.
pub open spec fn div_trunc(a: int, b: int) -> int
    recommends
        b > 0,
{
    if a >= 0 {
        a / b
    } else {
        -((-a) / b)
    }
}

/// The tare offset computed from a run of raw samples: their arithmetic
/// mean, truncated toward zero.
pub open spec fn mean_of(s: Seq<i32>) -> int
    recommends
        s.len() > 0,
{
    div_trunc(sum_raw(s), s.len() as int)
}

/// Every sample in the run lies in the raw-sample range.
pub open spec fn all_in_raw_range(s: Seq<i32>) -> bool {
    forall|i: int| 0 <= i < s.len() ==> raw_in_range(s[i] as int)
}

/// The sum of a run of in-range samples is bounded by the range scaled by
/// the run's length.
pub proof fn lemma_sum_raw_bounds(s: Seq<i32>)
    requires
        all_in_raw_range(s),
    ensures
        -0x80_0000 * s.len() <= sum_raw(s) <= 0x7F_FFFF * s.len(),
    decreases s.len(),
{
    if s.len() > 0 {
        assert(all_in_raw_range(s.drop_last()));
        lemma_sum_raw_bounds(s.drop_last());
    }
}

/// A run of identical samples sums to the sample scaled by the length.
pub proof fn lemma_sum_raw_identical(s: Seq<i32>, r: i32)
    requires
        forall|i: int| 0 <= i < s.len() ==> s[i] == r,
    ensures
        sum_raw(s) == s.len() * r,
    decreases s.len(),
{
    if s.len() == 0 {
    } else {
        lemma_sum_raw_identical(s.drop_last(), r);
        assert((s.len() - 1) * r + r == s.len() * r) by (nonlinear_arith);
    }
}

/// The mean of a run of identical samples is that sample, exactly.
pub proof fn lemma_mean_of_identical(s: Seq<i32>, r: i32)
    requires
        s.len() > 0,
        forall|i: int| 0 <= i < s.len() ==> s[i] == r,
    ensures
        mean_of(s) == r as int,
{
    let n = s.len() as int;
    lemma_sum_raw_identical(s, r);
    if r >= 0 {
        lemma_div_by_multiple(r as int, n);
        assert(n * r == (r as int) * n) by (nonlinear_arith);
    } else {
        assert(-(n * r) == (-r as int) * n) by (nonlinear_arith);
        lemma_div_by_multiple(-r as int, n);
    }
}

/// The mean of a run of in-range samples is itself in range.
pub proof fn lemma_mean_in_range(s: Seq<i32>)
    requires
        s.len() > 0,
        all_in_raw_range(s),
    ensures
        raw_in_range(mean_of(s)),
{
    let n = s.len() as int;
    let total = sum_raw(s);
    lemma_sum_raw_bounds(s);
    if total >= 0 {
        lemma_div_pos_is_pos(total, n);
        lemma_div_is_ordered(total, 0x7F_FFFF * n, n);
        lemma_div_by_multiple(0x7F_FFFF, n);
    } else {
        lemma_div_pos_is_pos(-total, n);
        lemma_div_is_ordered(-total, 0x80_0000 * n, n);
        lemma_div_by_multiple(0x80_0000, n);
    }
}

/// Compute the truncated mean of a non-empty run of raw samples.
pub fn mean_samples(samples: &[i32]) -> (m: i32)
    requires
        1 <= samples@.len() <= 0xFFFF_FFFF,
        all_in_raw_range(samples@),
    ensures
        m as int == mean_of(samples@),
        raw_in_range(m as int),
{
    let n = samples.len();
    let mut total: i64 = 0;
    let mut i: usize = 0;
    while i < n
        invariant
            n == samples@.len(),
            1 <= n <= 0xFFFF_FFFF,
            all_in_raw_range(samples@),
            i <= n,
            total == sum_raw(samples@.take(i as int)),
            -0x80_0000 * (i as int) <= total <= 0x7F_FFFF * (i as int),
        decreases n - i,
    {
        proof {
            assert(samples@.take(i + 1).drop_last() =~= samples@.take(i as int));
            assert(samples@.take(i + 1).last() == samples@[i as int]);
        }
        total = total + samples[i] as i64;
        i = i + 1;
    }
    proof {
        assert(samples@.take(n as int) =~= samples@);
        lemma_mean_in_range(samples@);
    }
    let count = n as u64;
    if total >= 0 {
        ((total as u64) / count) as i32
    } else {
        -((((-total) as u64) / count) as i32)
    }
}

/// Round the scaled value `v/d` to the nearest integer, ties away from
/// zero, stated over Euclidean division on magnitudes.
pub open spec fn round_half_away(v: int, d: int) -> int
    recommends
        d > 0,
{
    if v >= 0 {
        (2 * v + d) / (2 * d)
    } else {
        -((2 * (-v) + d) / (2 * d))
    }
}

/// For a non-negative value the rounding quotient is the nearest integer,
/// with a remainder window that puts the exact half on the rounded-up side.
proof fn lemma_round_window(v: int, d: int)
    requires
        v >= 0,
        d > 0,
    ensures
        (2 * v + d) / (2 * d) >= 0,
        -d <= 2 * (v - ((2 * v + d) / (2 * d)) * d) < d,
{
    let q = (2 * v + d) / (2 * d);
    lemma_div_pos_is_pos(2 * v + d, 2 * d);
    lemma_fundamental_div_mod(2 * v + d, 2 * d);
    lemma_mod_division_less_than_divisor(2 * v + d, 2 * d);
    let r = (2 * v + d) % (2 * d);
    assert(2 * v + d == 2 * d * q + r);
    assert(2 * d * q == 2 * (q * d)) by (nonlinear_arith);
}

/// `round_half_away(v, d)` is nearest-integer rounding of `v/d`: the
/// result is within half a denominator of the exact value, and when the
/// exact value sits precisely on a half, the result is the neighbour with
/// the larger magnitude (ties away from zero).
pub proof fn lemma_round_half_away_is_nearest(v: int, d: int)
    requires
        d > 0,
    ensures
        ({
            let q = round_half_away(v, d);
            &&& 2 * abs(v - q * d) <= d
            &&& (2 * (v - q * d) == d || 2 * (v - q * d) == -d) ==> 2 * abs(q) * d == 2 * abs(v)
                + d
        }),
{
    let q = round_half_away(v, d);
    if v >= 0 {
        lemma_round_window(v, d);
        assert(2 * abs(q) * d == 2 * (q * d)) by (nonlinear_arith)
            requires
                q >= 0,
                d > 0,
                abs(q) == q,
        ;
    } else {
        let w = -v;
        let p = (2 * w + d) / (2 * d);
        lemma_round_window(w, d);
        assert(v - q * d == -(w - p * d)) by (nonlinear_arith)
            requires
                v == -w,
                q == -p,
        ;
        assert(2 * abs(q) * d == 2 * (p * d)) by (nonlinear_arith)
            requires
                p >= 0,
                d > 0,
                q == -p,
                abs(q) == p,
        ;
    }
}

/// Multiply a centered raw difference by the rational scale factor and
/// round to the nearest unit, ties away from zero.
pub fn round_scaled(diff: i64, num: u32, den: u32) -> (w: i64)
    requires
        -0xFF_FFFF <= diff <= 0xFF_FFFF,
        num >= 1,
        den >= 1,
    ensures
        w == round_half_away(diff * num, den as int),
{
    let mag: u64 = if diff >= 0 {
        diff as u64
    } else {
        (-diff) as u64
    };
    proof {
        lemma_mul_upper_bound(mag as int, 0xFF_FFFF, num as int, 0xFFFF_FFFF);
    }
    let v: u64 = mag * (num as u64);
    let d: u64 = den as u64;
    let q: u64 = (2 * v + d) / (2 * d);
    proof {
        lemma_fundamental_div_mod(2 * v as int + d, 2 * d as int);
        lemma_mod_division_less_than_divisor(2 * v as int + d, 2 * d as int);
        lemma_div_pos_is_pos(2 * v as int + d, 2 * d as int);
        assert(q as int * (2 * d as int) >= q as int * 2) by (nonlinear_arith)
            requires
                q as int >= 0,
                d as int >= 1,
        ;
        assert(2 * d as int * (q as int) == q as int * (2 * d as int)) by (nonlinear_arith);
    }
    if diff >= 0 {
        proof {
            assert(diff * num == v as int) by (nonlinear_arith)
                requires
                    diff >= 0,
                    mag == diff,
                    v == mag * num,
            ;
        }
        q as i64
    } else {
        proof {
            assert(diff * num == -(v as int)) by (nonlinear_arith)
                requires
                    diff < 0,
                    mag == -diff,
                    v == mag * num,
            ;
        }
        if v == 0 {
            proof {
                vstd::arithmetic::div_mod::lemma_basic_div(d as int, 2 * d as int);
            }
            0
        } else {
            -(q as i64)
        }
    }
}

} // verus!
