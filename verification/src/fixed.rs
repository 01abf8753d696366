//! Q32 fixed-point arithmetic for the envelope and pitch engine.
//!
//! Exponential envelope curves are represented by a per-tick ratio in Q32
//! (the value `ONE_Q32` stands for 1.0).  The base-2 logarithm and
//! exponential are computed with classic integer iterations whose exact
//! results are pinned down by mirror spec functions, so every numeric step
//! of the engine is defined and verified.
use vstd::prelude::*;

verus! {

use vstd::arithmetic::power2::pow2;
use vstd::arithmetic::power2::lemma_pow2_unfold;
use vstd::arithmetic::power2::lemma_pow2_pos;
use vstd::arithmetic::power2::lemma_pow2_strictly_increases;
use vstd::arithmetic::power2::lemma2_to64;

/// 1.0 in Q32 fixed point.
pub const ONE_Q32: u64 = 0x1_0000_0000;

/// 1.0 in Q16 fixed point (also the scale of fractional octaves/semitones).
pub const ONE_Q16: u64 = 0x1_0000;

/// Largest envelope volume accumulator the engine keeps (Q32).
pub const MAX_ACC_Q32: u64 = 0x100_0000_0000_0000;

/// Largest per-tick ratio the engine accepts (16.0 in Q32).
pub const MAX_RATIO_Q32: u64 = 0x10_0000_0000;

/// Truncating Q32 product: `(a * r) / 2^32`.
pub open spec fn spec_q32_mul(a: int, r: int) -> int {
    (a * r) / (ONE_Q32 as int)
}

/// Multiplies a Q32 accumulator by a Q32 ratio, truncating.
pub fn q32_mul(a: u64, r: u64) -> (res: u64)
    requires
        a <= MAX_ACC_Q32,
        r <= MAX_RATIO_Q32,
    ensures
        res == spec_q32_mul(a as int, r as int),
        res <= MAX_ACC_Q32 * 16,
{
    proof {
        assert((a as int) * (r as int) <= (MAX_ACC_Q32 as int) * (MAX_RATIO_Q32 as int))
            by (nonlinear_arith)
            requires 0 <= a <= MAX_ACC_Q32 && 0 <= r <= MAX_RATIO_Q32;
    }
    let wide: u128 = (a as u128) * (r as u128) / (ONE_Q32 as u128);
    proof {
        assert(wide <= (MAX_ACC_Q32 as int) * 16) by (nonlinear_arith)
            requires wide == (a as int) * (r as int) / (ONE_Q32 as int)
                && 0 <= (a as int) * (r as int)
                && (a as int) * (r as int) <= (MAX_ACC_Q32 as int) * (MAX_RATIO_Q32 as int);
    }
    wide as u64
}

/// A ratio of at most 1.0 can never increase an accumulator.
pub proof fn lemma_q32_mul_no_increase(a: int, r: int)
    requires
        0 <= a,
        0 <= r <= ONE_Q32,
    ensures
        spec_q32_mul(a, r) <= a,
{
    assert(a * r <= a * (ONE_Q32 as int)) by (nonlinear_arith)
        requires 0 <= a && 0 <= r <= ONE_Q32;
    assert(a * (ONE_Q32 as int) / (ONE_Q32 as int) == a) by (nonlinear_arith);
    assert(a * r / (ONE_Q32 as int) <= a * (ONE_Q32 as int) / (ONE_Q32 as int))
        by (nonlinear_arith)
        requires a * r <= a * (ONE_Q32 as int);
}

/// A ratio strictly below 1.0 strictly shrinks a positive accumulator.
pub proof fn lemma_q32_mul_decreases(a: int, r: int)
    requires
        0 < a,
        0 <= r < ONE_Q32,
    ensures
        spec_q32_mul(a, r) < a,
{
    assert(a * r <= a * ((ONE_Q32 - 1) as int)) by (nonlinear_arith)
        requires 0 < a && 0 <= r <= ONE_Q32 - 1;
    assert(a * ((ONE_Q32 - 1) as int) == a * (ONE_Q32 as int) - a) by (nonlinear_arith);
    assert((a * (ONE_Q32 as int) - a) / (ONE_Q32 as int) < a) by (nonlinear_arith)
        requires 0 < a;
    assert(a * r / (ONE_Q32 as int) <= (a * (ONE_Q32 as int) - a) / (ONE_Q32 as int))
        by (nonlinear_arith)
        requires a * r <= a * (ONE_Q32 as int) - a;
}

/// The Q32 product is monotone in the accumulator.
pub proof fn lemma_q32_mul_monotone(a1: int, a2: int, r: int)
    requires
        0 <= a1 <= a2,
        0 <= r,
    ensures
        spec_q32_mul(a1, r) <= spec_q32_mul(a2, r),
{
    assert(a1 * r <= a2 * r) by (nonlinear_arith)
        requires 0 <= a1 <= a2 && 0 <= r;
    assert(a1 * r / (ONE_Q32 as int) <= a2 * r / (ONE_Q32 as int)) by (nonlinear_arith)
        requires a1 * r <= a2 * r;
}

/// 2^e as a `u64`.
pub fn pow2_u64(e: u64) -> (res: u64)
    requires
        e <= 63,
    ensures
        res == pow2(e as nat),
{
    let mut res: u64 = 1;
    let mut k: u64 = 0;
    proof {
        lemma2_to64();
    }
    while k < e
        invariant
            k <= e <= 63,
            res == pow2(k as nat),
        decreases e - k,
    {
        proof {
            lemma_pow2_unfold((k + 1) as nat);
            lemma2_to64();
            vstd::arithmetic::power2::lemma2_to64_rest();
            if k + 1 < 64 {
                lemma_pow2_strictly_increases((k + 1) as nat, 64nat);
            }
        }
        res = res * 2;
        k = k + 1;
    }
    res
}

/// Position of the leading binary digit of `num / den`:
/// the unique `i` with `den * 2^i <= num < den * 2^(i+1)`.
pub open spec fn spec_floor_log2_ratio(num: int, den: int) -> int
    recommends 1 <= den <= num
    decreases num - den when 1 <= den <= num
{
    if 1 <= den && den + den <= num {
        1 + spec_floor_log2_ratio(num, den + den)
    } else {
        0
    }
}

/// One squaring step of the base-2 logarithm iteration: squares the Q32
/// mantissa and extracts the next fraction bit.
pub open spec fn spec_log2_step(y: int) -> (int, int) {
    let y2 = (y * y) / (ONE_Q32 as int);
    if y2 >= 2 * ONE_Q32 {
        (1, y2 / 2)
    } else {
        (0, y2)
    }
}

/// State of the logarithm iteration after `k` squaring steps:
/// accumulated fraction bits and current mantissa.
pub open spec fn spec_log2_state(y0: int, k: nat) -> (int, int)
    decreases k
{
    if k == 0 {
        (0, y0)
    } else {
        let prev = spec_log2_state(y0, (k - 1) as nat);
        let step = spec_log2_step(prev.1);
        (prev.0 * 2 + step.0, step.1)
    }
}

/// log2(num / den) in Q16, truncated to 16 fraction bits.
pub open spec fn spec_log2_q16(num: int, den: int) -> int {
    let i = spec_floor_log2_ratio(num, den);
    let y0 = (num * (ONE_Q32 as int)) / (den * pow2(i as nat) as int);
    i * (ONE_Q16 as int) + spec_log2_state(y0, 16).0
}

proof fn lemma_floor_log2_ratio_bounds(num: int, den: int)
    requires
        1 <= den <= num,
    ensures
        0 <= spec_floor_log2_ratio(num, den),
        den * pow2(spec_floor_log2_ratio(num, den) as nat) <= num,
        num < den * pow2((spec_floor_log2_ratio(num, den) + 1) as nat),
    decreases num - den,
{
    lemma2_to64();
    if den + den <= num {
        lemma_floor_log2_ratio_bounds(num, den + den);
        let i = spec_floor_log2_ratio(num, den + den);
        let d2 = den + den;
        lemma_pow2_unfold((i + 1) as nat);
        lemma_pow2_unfold((i + 2) as nat);
        // den * 2^(i+1) == (2 den) * 2^i and den * 2^(i+2) == (2 den) * 2^(i+1)
        assert(den * ((2 * pow2(i as nat)) as int) == d2 * (pow2(i as nat) as int))
            by (nonlinear_arith)
            requires d2 == den + den;
        assert(den * ((2 * pow2((i + 1) as nat)) as int) == d2 * (pow2((i + 1) as nat) as int))
            by (nonlinear_arith)
            requires d2 == den + den;
    } else {
        assert(den * (pow2(0nat) as int) == den) by (nonlinear_arith)
            requires pow2(0nat) == 1;
        assert(den * (pow2(1nat) as int) == den + den) by (nonlinear_arith)
            requires pow2(1nat) == 2;
    }
}

/// log2(num / den) in Q16 fixed point, truncated.
pub fn log2_q16(num: u64, den: u64) -> (res: u64)
    requires
        1 <= den <= num,
        num < 0x4000_0000_0000,
    ensures
        res == spec_log2_q16(num as int, den as int),
        res < 47 * ONE_Q16,
{
    proof {
        lemma_floor_log2_ratio_bounds(num as int, den as int);
        lemma2_to64();
        assert(den * (pow2(0nat) as int) == den) by (nonlinear_arith)
            requires pow2(0nat) == 1;
    }
    let mut d: u64 = den;
    let mut i: u64 = 0;
    while d + d <= num
        invariant
            1 <= den <= d <= num < 0x4000_0000_0000,
            d == den * pow2(i as nat),
            spec_floor_log2_ratio(num as int, den as int)
                == i + spec_floor_log2_ratio(num as int, d as int),
            i <= 46,
        decreases num - d,
    {
        proof {
            lemma2_to64();
            vstd::arithmetic::power2::lemma2_to64_rest();
            lemma_pow2_unfold((i + 1) as nat);
            assert(den * ((2 * pow2(i as nat)) as int) == (den * (pow2(i as nat) as int)) * 2)
                by (nonlinear_arith);
            if i >= 46 {
                // then d = den * 2^46 >= 2^46 > num, contradicting d + d <= num
                assert(den * (pow2(i as nat) as int) >= pow2(46nat) as int) by (nonlinear_arith)
                    requires den >= 1 && pow2(i as nat) as int >= pow2(46nat) as int;
                assert(pow2(i as nat) >= pow2(46nat)) by {
                    if i > 46 {
                        lemma_pow2_strictly_increases(46nat, i as nat);
                    }
                }
            }
        }
        d = d + d;
        i = i + 1;
    }
    proof {
        assert(spec_floor_log2_ratio(num as int, d as int) == 0);
        lemma_pow2_pos(i as nat);
        // Normalized mantissa bounds: d <= num < 2 d.
        assert((num as int) * (ONE_Q32 as int) / (d as int) >= (ONE_Q32 as int))
            by (nonlinear_arith)
            requires 1 <= d as int <= num as int;
        assert((num as int) * (ONE_Q32 as int) / (d as int) < 2 * (ONE_Q32 as int))
            by (nonlinear_arith)
            requires 1 <= d as int && (num as int) < 2 * (d as int);
    }
    // Q32 mantissa of num / (den * 2^i), in [1.0, 2.0).
    let y0: u64 = (((num as u128) * (ONE_Q32 as u128)) / (d as u128)) as u64;
    let mut bits: u64 = 0;
    let mut y: u64 = y0;
    let mut k: u64 = 0;
    proof {
        lemma2_to64();
    }
    while k < 16
        invariant
            k <= 16,
            ONE_Q32 <= y < 2 * ONE_Q32,
            bits < pow2(k as nat),
            (bits as int, y as int) == spec_log2_state(y0 as int, k as nat),
        decreases 16 - k,
    {
        proof {
            lemma2_to64();
            assert((y as int) * (y as int) < 4 * (ONE_Q32 as int) * (ONE_Q32 as int))
                by (nonlinear_arith)
                requires 0 <= (y as int) < 2 * (ONE_Q32 as int);
            assert((y as int) * (y as int) >= (ONE_Q32 as int) * (ONE_Q32 as int))
                by (nonlinear_arith)
                requires (y as int) >= (ONE_Q32 as int);
            assert((y as int) * (y as int) / (ONE_Q32 as int) >= (ONE_Q32 as int))
                by (nonlinear_arith)
                requires (y as int) * (y as int) >= (ONE_Q32 as int) * (ONE_Q32 as int);
            assert((y as int) * (y as int) / (ONE_Q32 as int) < 4 * (ONE_Q32 as int))
                by (nonlinear_arith)
                requires 0 <= (y as int) * (y as int)
                    && (y as int) * (y as int) < 4 * (ONE_Q32 as int) * (ONE_Q32 as int);
            lemma_pow2_unfold((k + 1) as nat);
        }
        let y2: u64 = (((y as u128) * (y as u128)) / (ONE_Q32 as u128)) as u64;
        if y2 >= 2 * ONE_Q32 {
            bits = bits * 2 + 1;
            y = y2 / 2;
        } else {
            bits = bits * 2;
            y = y2;
        }
        k = k + 1;
    }
    proof {
        lemma2_to64();
    }
    i * ONE_Q16 + bits
}

/// The Q32 constant `2^(2^(k-16)) * 2^32` for fraction bit `k`.
pub open spec fn spec_exp2_bit_const(k: int) -> u64 {
    if k == 0 { 4295012722 }
    else if k == 1 { 4295058149 }
    else if k == 2 { 4295149004 }
    else if k == 3 { 4295330720 }
    else if k == 4 { 4295694175 }
    else if k == 5 { 4296421177 }
    else if k == 6 { 4297875550 }
    else if k == 7 { 4300785774 }
    else if k == 8 { 4306612134 }
    else if k == 9 { 4318288544 }
    else if k == 10 { 4341736423 }
    else if k == 11 { 4389014833 }
    else if k == 12 { 4485121744 }
    else if k == 13 { 4683695048 }
    else if k == 14 { 5107605667 }
    else { 6074001000 }
}

/// Rounded Q32 value of `2^(2^(k-16))`, the contribution of fraction bit `k`.
fn exp2_bit_const(k: u64) -> (res: u64)
    requires
        k < 16,
    ensures
        res == spec_exp2_bit_const(k as int),
        ONE_Q32 <= res <= 6074001000,
{
    if k == 0 { 4295012722 }
    else if k == 1 { 4295058149 }
    else if k == 2 { 4295149004 }
    else if k == 3 { 4295330720 }
    else if k == 4 { 4295694175 }
    else if k == 5 { 4296421177 }
    else if k == 6 { 4297875550 }
    else if k == 7 { 4300785774 }
    else if k == 8 { 4306612134 }
    else if k == 9 { 4318288544 }
    else if k == 10 { 4341736423 }
    else if k == 11 { 4389014833 }
    else if k == 12 { 4485121744 }
    else if k == 13 { 4683695048 }
    else if k == 14 { 5107605667 }
    else { 6074001000 }
}

/// State of the base-2 exponential iteration after the low `k` fraction bits
/// of `f` have been folded in.  Each step truncates back to Q32 and caps the
/// mantissa just below 2.0 (the cap is unreachable for 16-bit fractions,
/// whose exact product stays below 2.0, but it makes the range structural).
pub open spec fn spec_exp2_state(f: int, k: nat) -> int
    decreases k
{
    if k == 0 {
        ONE_Q32 as int
    } else {
        let prev = spec_exp2_state(f, (k - 1) as nat);
        if (f / (pow2((k - 1) as nat) as int)) % 2 == 1 {
            let next = (prev * spec_exp2_bit_const(k - 1)) / (ONE_Q32 as int);
            if next >= 2 * ONE_Q32 { 2 * (ONE_Q32 as int) - 1 } else { next }
        } else {
            prev
        }
    }
}

/// `2^(f / 65536)` in Q32 for a 16-bit fraction `f` of an octave.
pub open spec fn spec_exp2_frac_q32(f: int) -> int {
    spec_exp2_state(f, 16)
}

/// Every state of the base-2 exponential iteration is at least 1.0.
pub proof fn lemma_exp2_state_ge_one(f: int, k: nat)
    ensures
        spec_exp2_state(f, k) >= ONE_Q32,
    decreases k,
{
    if k > 0 {
        lemma_exp2_state_ge_one(f, (k - 1) as nat);
        let prev = spec_exp2_state(f, (k - 1) as nat);
        let c = spec_exp2_bit_const(k - 1) as int;
        assert(c >= ONE_Q32);
        if (f / (pow2((k - 1) as nat) as int)) % 2 == 1 {
            assert(prev * c >= (ONE_Q32 as int) * (ONE_Q32 as int)) by (nonlinear_arith)
                requires prev >= ONE_Q32 as int && c >= ONE_Q32 as int;
            assert(prev * c / (ONE_Q32 as int) >= ONE_Q32 as int) by (nonlinear_arith)
                requires prev * c >= (ONE_Q32 as int) * (ONE_Q32 as int);
        }
    }
}

/// A downward per-tick ratio lies in `[0, 1.0)`: a genuine decay never
/// raises the accumulator it scales.
pub proof fn lemma_root_ratio_down_bounds(num: int, den: int, n: int)
    ensures
        0 <= spec_root_ratio_down_q32(num, den, n) < ONE_Q32,
{
    if num != 0 {
        let l = spec_log2_q16(den, num);
        let e = (l + n / 2) / n;
        let i = e / (ONE_Q16 as int);
        let f = e % (ONE_Q16 as int);
        if i < 32 {
            lemma_pow2_pos(i as nat);
            lemma_exp2_state_ge_one(f, 16);
            let p = pow2(i as nat) as int;
            let m = spec_exp2_frac_q32(f);
            let d = p * m;
            assert(p * m >= 1 * (ONE_Q32 as int)) by (nonlinear_arith)
                requires p >= 1 && m >= ONE_Q32 as int;
            assert(0 <= 0x1_0000_0000_0000_0000int / d) by (nonlinear_arith)
                requires d >= 1;
        }
    }
}

/// Q32 value of `2^(f/65536)` for a fraction `f` of an octave.
pub fn exp2_frac_q32(f: u64) -> (res: u64)
    requires
        f < ONE_Q16,
    ensures
        res == spec_exp2_frac_q32(f as int),
        ONE_Q32 <= res < 2 * ONE_Q32,
{
    let mut y: u64 = ONE_Q32;
    let mut p: u64 = 1;
    let mut k: u64 = 0;
    proof {
        lemma2_to64();
    }
    while k < 16
        invariant
            k <= 16,
            p == pow2(k as nat),
            1 <= p <= ONE_Q16,
            ONE_Q32 <= y < 2 * ONE_Q32,
            y == spec_exp2_state(f as int, k as nat),
            f < ONE_Q16,
        decreases 16 - k,
    {
        proof {
            lemma2_to64();
            lemma_pow2_unfold((k + 1) as nat);
            if k + 1 < 16 {
                lemma_pow2_strictly_increases((k + 1) as nat, 16nat);
            }
        }
        if (f / p) % 2 == 1 {
            let c = exp2_bit_const(k);
            proof {
                assert((y as int) * (c as int) < 2 * (ONE_Q32 as int) * 6074001001)
                    by (nonlinear_arith)
                    requires 0 <= (y as int) < 2 * (ONE_Q32 as int)
                        && 0 <= (c as int) <= 6074001000;
                assert((y as int) * (c as int) >= (ONE_Q32 as int) * (ONE_Q32 as int))
                    by (nonlinear_arith)
                    requires (y as int) >= (ONE_Q32 as int)
                        && (c as int) >= (ONE_Q32 as int);
                assert((y as int) * (c as int) / (ONE_Q32 as int) >= (ONE_Q32 as int))
                    by (nonlinear_arith)
                    requires (y as int) * (c as int) >= (ONE_Q32 as int) * (ONE_Q32 as int);
                assert((y as int) * (c as int) / (ONE_Q32 as int) < 0x4_0000_0000_0000_0000)
                    by (nonlinear_arith)
                    requires 0 <= (y as int) * (c as int)
                        && (y as int) * (c as int) < 2 * (ONE_Q32 as int) * 6074001001;
            }
            let next: u64 = (((y as u128) * (c as u128)) / (ONE_Q32 as u128)) as u64;
            if next >= 2 * ONE_Q32 {
                y = 2 * ONE_Q32 - 1;
            } else {
                y = next;
            }
        }
        p = p * 2;
        k = k + 1;
    }
    y
}

/// `(num / den)^(1 / n)` in Q32, for a ratio at most 1: the per-tick
/// multiplier that carries an exponential segment to `num/den` of its
/// starting level over `n` ticks.  The result is capped one ulp below 1.0,
/// so a genuine downward ramp always shrinks its accumulator.
pub open spec fn spec_root_ratio_down_q32(num: int, den: int, n: int) -> int {
    if num == 0 {
        0
    } else {
        let l = spec_log2_q16(den, num);
        let e = (l + n / 2) / n;
        let i = e / (ONE_Q16 as int);
        let f = e % (ONE_Q16 as int);
        if i >= 32 {
            0
        } else {
            let r = 0x1_0000_0000_0000_0000int / (pow2(i as nat) as int * spec_exp2_frac_q32(f));
            if r >= ONE_Q32 { ONE_Q32 as int - 1 } else { r }
        }
    }
}

/// Q32 per-tick ratio `(num/den)^(1/n)` for `num <= den`, capped below 1.0.
pub fn root_ratio_down_q32(num: u64, den: u64, n: u64) -> (res: u64)
    requires
        num <= den,
        1 <= den < 0x4000_0000_0000,
        1 <= n,
    ensures
        res == spec_root_ratio_down_q32(num as int, den as int, n as int),
        res < ONE_Q32,
{
    if num == 0 {
        return 0;
    }
    let l = log2_q16(den, num);
    let e = (l + n / 2) / n;
    let i = e / ONE_Q16;
    let f = e % ONE_Q16;
    if i >= 32 {
        return 0;
    }
    let pi = pow2_u64(i);
    let m = exp2_frac_q32(f);
    proof {
        lemma2_to64();
        lemma_pow2_pos(i as nat);
        assert(pow2(i as nat) <= pow2(31nat)) by {
            if i < 31 {
                lemma_pow2_strictly_increases(i as nat, 31nat);
            }
        }
        assert((pi as int) * (m as int) >= 1 * (ONE_Q32 as int)) by (nonlinear_arith)
            requires (pi as int) >= 1 && (m as int) >= (ONE_Q32 as int);
        assert((pi as int) * (m as int) <= 0x8000_0000 * (2 * (ONE_Q32 as int)))
            by (nonlinear_arith)
            requires 1 <= (pi as int) <= 0x8000_0000
                && 1 <= (m as int) <= 2 * (ONE_Q32 as int);
    }
    let div: u128 = (pi as u128) * (m as u128);
    proof {
        assert(0x1_0000_0000_0000_0000int / (div as int)
            <= 0x1_0000_0000_0000_0000int / (ONE_Q32 as int)) by (nonlinear_arith)
            requires (div as int) >= ONE_Q32 as int;
    }
    let r: u64 = (0x1_0000_0000_0000_0000u128 / div) as u64;
    if r >= ONE_Q32 {
        ONE_Q32 - 1
    } else {
        r
    }
}

/// `(num / den)^(1 / n)` in Q32 for a ratio of at least 1 (an upward ramp),
/// capped at `MAX_RATIO_Q32`.
pub open spec fn spec_root_ratio_up_q32(num: int, den: int, n: int) -> int {
    let l = spec_log2_q16(num, den);
    let e = (l + n / 2) / n;
    let i = e / (ONE_Q16 as int);
    let f = e % (ONE_Q16 as int);
    if i >= 4 {
        MAX_RATIO_Q32 as int
    } else {
        let r = pow2(i as nat) as int * spec_exp2_frac_q32(f);
        if r > MAX_RATIO_Q32 { MAX_RATIO_Q32 as int } else { r }
    }
}

/// Q32 per-tick ratio `(num/den)^(1/n)` for `num >= den`, capped at 16.0.
pub fn root_ratio_up_q32(num: u64, den: u64, n: u64) -> (res: u64)
    requires
        den <= num,
        1 <= den,
        num < 0x4000_0000_0000,
        1 <= n,
    ensures
        res == spec_root_ratio_up_q32(num as int, den as int, n as int),
        res <= MAX_RATIO_Q32,
{
    let l = log2_q16(num, den);
    let e = (l + n / 2) / n;
    let i = e / ONE_Q16;
    let f = e % ONE_Q16;
    if i >= 4 {
        return MAX_RATIO_Q32;
    }
    let pi = pow2_u64(i);
    let m = exp2_frac_q32(f);
    proof {
        lemma2_to64();
        lemma_pow2_pos(i as nat);
        assert(pow2(i as nat) <= pow2(3nat)) by {
            if i < 3 {
                lemma_pow2_strictly_increases(i as nat, 3nat);
            }
        }
        assert((pi as int) * (m as int) <= 8 * (2 * (ONE_Q32 as int))) by (nonlinear_arith)
            requires 1 <= (pi as int) <= 8 && 1 <= (m as int) <= 2 * (ONE_Q32 as int);
    }
    let r: u64 = pi * m;
    if r > MAX_RATIO_Q32 {
        MAX_RATIO_Q32
    } else {
        r
    }
}

} // verus!
