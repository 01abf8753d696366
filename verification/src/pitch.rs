//! Pitch mapping: semitone offsets to hardware timer-reload values.
//!
//! A note's reload follows `reload = 65536 - (65536 - base) / 2^(offset/12)`,
//! the equal-tempered adaptation of the hardware's fixed-point timer, with
//! the exponential evaluated in Q32 fixed point.  A few programmable-tone
//! timbres use hardware-measured lookup tables instead of the formula; both
//! paths are kept separate on purpose.
use vstd::prelude::*;

verus! {

use vstd::arithmetic::power2::pow2;
use vstd::arithmetic::power2::lemma_pow2_pos;
use vstd::arithmetic::power2::lemma_pow2_strictly_increases;
use vstd::arithmetic::power2::lemma2_to64;
use crate::fixed::ONE_Q16;
use crate::fixed::ONE_Q32;
use crate::fixed::pow2_u64;
use crate::fixed::exp2_frac_q32;
use crate::fixed::spec_exp2_frac_q32;

/// Widest semitone offset the pitch mapping accepts, in Q16 (24 octaves).
pub const MAX_PITCH_OFFSET_Q16: i64 = 0x120_0000;

/// `2^(offset / 12)` in Q32, where `offset` is a Q16 semitone count.
pub open spec fn spec_pow2_semis_q32(offset_q16: int) -> int {
    let oct = (offset_q16 + 384 * (ONE_Q16 as int)) / 12;
    let i = oct / (ONE_Q16 as int) - 32;
    let f = oct % (ONE_Q16 as int);
    let m = spec_exp2_frac_q32(f);
    if i >= 0 {
        m * (pow2(i as nat) as int)
    } else {
        m / (pow2((-i) as nat) as int)
    }
}

/// Q32 value of `2^(offset/12)` for a signed Q16 semitone offset.
pub fn pow2_semis_q32(offset_q16: i64) -> (res: u64)
    requires
        -MAX_PITCH_OFFSET_Q16 <= offset_q16 <= MAX_PITCH_OFFSET_Q16,
    ensures
        res == spec_pow2_semis_q32(offset_q16 as int),
        res <= 0x4_0000_0000_0000_0000,
{
    let oct: i64 = (offset_q16 + 384 * ONE_Q16 as i64) / 12;
    proof {
        assert(0 <= (offset_q16 + 384 * (ONE_Q16 as int)) / 12
            && (offset_q16 + 384 * (ONE_Q16 as int)) / 12 <= 56 * (ONE_Q16 as int))
            by (nonlinear_arith)
            requires -MAX_PITCH_OFFSET_Q16 <= offset_q16 <= MAX_PITCH_OFFSET_Q16;
    }
    let ip: i64 = oct / ONE_Q16 as i64 - 32;
    let f: u64 = (oct % ONE_Q16 as i64) as u64;
    proof {
        assert((oct as int) / (ONE_Q16 as int) <= 56 && (oct as int) / (ONE_Q16 as int) >= 0)
            by (nonlinear_arith)
            requires 0 <= oct as int <= 56 * (ONE_Q16 as int);
        lemma2_to64();
    }
    let m = exp2_frac_q32(f);
    if ip >= 0 {
        let p = pow2_u64(ip as u64);
        proof {
            lemma_pow2_pos(ip as nat);
            assert(pow2(ip as nat) <= pow2(24nat)) by {
                if ip < 24 {
                    lemma_pow2_strictly_increases(ip as nat, 24nat);
                }
            }
            assert((m as int) * (pow2(ip as nat) as int) <= (2 * (ONE_Q32 as int)) * 0x100_0000)
                by (nonlinear_arith)
                requires 0 <= (m as int) <= 2 * (ONE_Q32 as int)
                    && 0 <= (pow2(ip as nat) as int) <= 0x100_0000;
        }
        m * p
    } else {
        let p = pow2_u64((-ip) as u64);
        proof {
            lemma_pow2_pos((-ip) as nat);
        }
        m / p
    }
}

/// Reload value that plays a sample `offset_q16` semitones (Q16) above the
/// pitch its `base` reload produces: `65536 - (65536 - base) / 2^(offset/12)`,
/// rounded, saturated to the 16-bit register.
pub open spec fn spec_reload_for_offset(base: u16, offset_q16: int) -> u16 {
    let r = spec_pow2_semis_q32(offset_q16);
    let q = ((65536 - base) * (ONE_Q32 as int) + r / 2) / r;
    if q >= 65536 {
        0
    } else if q == 0 {
        65535
    } else {
        (65536 - q) as u16
    }
}

/// Core of the pitch formula, shared by the whole-semitone and fractional
/// entry points.
pub fn reload_for_offset(base: u16, offset_q16: i64) -> (res: u16)
    requires
        -MAX_PITCH_OFFSET_Q16 <= offset_q16 <= MAX_PITCH_OFFSET_Q16,
    ensures
        res == spec_reload_for_offset(base, offset_q16 as int),
{
    let r = pow2_semis_q32(offset_q16);
    proof {
        lemma_pow2_semis_pos(offset_q16 as int);
        assert((65536 - base) * (ONE_Q32 as int) <= 0x1_0000_0000_0000)
            by (nonlinear_arith)
            requires 0 <= 65536 - base <= 65536;
        assert(((65536 - base) * (ONE_Q32 as int) + (r as int) / 2) / (r as int) >= 0)
            by (nonlinear_arith)
            requires r >= 1 && (65536 - base) * (ONE_Q32 as int) >= 0;
    }
    let num: u128 = ((65536 - base as u64) as u128) * (ONE_Q32 as u128) + (r as u128) / 2;
    let q: u128 = num / (r as u128);
    if q >= 65536 {
        0
    } else if q == 0 {
        65535
    } else {
        (65536 - q as u64) as u16
    }
}

/// The Q32 exponential of a bounded semitone offset is strictly positive.
proof fn lemma_pow2_semis_pos(offset_q16: int)
    requires
        -MAX_PITCH_OFFSET_Q16 <= offset_q16 <= MAX_PITCH_OFFSET_Q16,
    ensures
        1 <= spec_pow2_semis_q32(offset_q16),
{
    let oct = (offset_q16 + 384 * (ONE_Q16 as int)) / 12;
    assert(0 <= oct && oct <= 56 * (ONE_Q16 as int));
    let i = oct / (ONE_Q16 as int) - 32;
    assert(-32 <= i <= 24);
    let f = oct % (ONE_Q16 as int);
    lemma_exp2_frac_range(f);
    let m = spec_exp2_frac_q32(f);
    if i >= 0 {
        lemma_pow2_pos(i as nat);
        assert(m * (pow2(i as nat) as int) >= 1) by (nonlinear_arith)
            requires m >= 1 && pow2(i as nat) >= 1;
    } else {
        lemma_pow2_pos((-i) as nat);
        lemma2_to64();
        assert(pow2((-i) as nat) <= pow2(32nat)) by {
            if -i < 32 {
                lemma_pow2_strictly_increases((-i) as nat, 32nat);
            }
        }
        assert(m / (pow2((-i) as nat) as int) >= 1) by (nonlinear_arith)
            requires m >= ONE_Q32 && 1 <= pow2((-i) as nat) as int <= ONE_Q32;
    }
}

/// The exponential-iteration mantissa stays within [1.0, 2.0) in Q32.
proof fn lemma_exp2_frac_range(f: int)
    ensures
        ONE_Q32 <= spec_exp2_frac_q32(f) < 2 * ONE_Q32,
{
    lemma_exp2_state_range(f, 16);
}

proof fn lemma_exp2_state_range(f: int, k: nat)
    ensures
        ONE_Q32 <= crate::fixed::spec_exp2_state(f, k) < 2 * ONE_Q32,
    decreases k,
{
    if k == 0 {
    } else {
        lemma_exp2_state_range(f, (k - 1) as nat);
        let prev = crate::fixed::spec_exp2_state(f, (k - 1) as nat);
        let c = crate::fixed::spec_exp2_bit_const(k - 1);
        assert(prev * c >= (ONE_Q32 as int) * (ONE_Q32 as int)) by (nonlinear_arith)
            requires prev >= ONE_Q32 && c >= ONE_Q32;
        assert(prev * c / (ONE_Q32 as int) >= ONE_Q32) by (nonlinear_arith)
            requires prev * c >= (ONE_Q32 as int) * (ONE_Q32 as int);
    }
}

/// Timer reload for a sample whose base reload is `original`, played
/// `offset` whole semitones higher, by the equal-tempered formula.
pub fn nth_timer_reload(original: u16, offset: i32) -> (res: u16)
    requires
        -288 <= offset <= 288,
    ensures
        res == spec_reload_for_offset(original, offset as int * 65536),
{
    reload_for_offset(original, offset as i64 * 65536)
}

/// Timer reload for a fractional semitone offset, given in Q16
/// (pitch glides, wobble and per-timbre micro adjustments).
pub fn nth_micro_timer_reload(original: u16, offset_q16: i64) -> (res: u16)
    requires
        -MAX_PITCH_OFFSET_Q16 <= offset_q16 <= MAX_PITCH_OFFSET_Q16,
    ensures
        res == spec_reload_for_offset(original, offset_q16 as int),
{
    reload_for_offset(original, offset_q16)
}

/// Hardware-measured reload table for this programmable-tone timbre.
pub open spec fn spec_nth_timer_reload_ting_ting(offset: int) -> u16 {
    if offset == 0 { 62868 }
    else if offset == 1 { 63016 }
    else if offset == 2 { 63156 }
    else if offset == 3 { 63292 }
    else if offset == 4 { 63416 }
    else if offset == 5 { 63536 }
    else if offset == 6 { 63648 }
    else if offset == 7 { 63756 }
    else if offset == 8 { 63856 }
    else if offset == 9 { 63948 }
    else if offset == 10 { 64040 }
    else if offset == 11 { 64124 }
    else if offset == 12 { 64204 }
    else if offset == 13 { 64276 }
    else if offset == 14 { 64348 }
    else if offset == 15 { 64416 }
    else if offset == 16 { 64476 }
    else if offset == 17 { 64536 }
    else if offset == 18 { 64592 }
    else if offset == 19 { 64648 }
    else if offset == 20 { 64696 }
    else if offset == 21 { 64744 }
    else if offset == 22 { 64788 }
    else if offset == 23 { 64832 }
    else { 64872 }
}

/// Timer reload for the given semitone step of this programmable-tone
/// timbre, from the hardware-measured table (not the formula).
pub fn nth_timer_reload_ting_ting(offset: i32) -> (res: u16)
    requires
        0 <= offset < 25,
    ensures
        res == spec_nth_timer_reload_ting_ting(offset as int),
{
    if offset == 0 { 62868 }
    else if offset == 1 { 63016 }
    else if offset == 2 { 63156 }
    else if offset == 3 { 63292 }
    else if offset == 4 { 63416 }
    else if offset == 5 { 63536 }
    else if offset == 6 { 63648 }
    else if offset == 7 { 63756 }
    else if offset == 8 { 63856 }
    else if offset == 9 { 63948 }
    else if offset == 10 { 64040 }
    else if offset == 11 { 64124 }
    else if offset == 12 { 64204 }
    else if offset == 13 { 64276 }
    else if offset == 14 { 64348 }
    else if offset == 15 { 64416 }
    else if offset == 16 { 64476 }
    else if offset == 17 { 64536 }
    else if offset == 18 { 64592 }
    else if offset == 19 { 64648 }
    else if offset == 20 { 64696 }
    else if offset == 21 { 64744 }
    else if offset == 22 { 64788 }
    else if offset == 23 { 64832 }
    else { 64872 }
}

/// Hardware-measured reload table for this programmable-tone timbre.
pub open spec fn spec_nth_timer_reload_bong_bong(offset: int) -> u16 {
    if offset == 0 { 22792 }
    else if offset == 1 { 25192 }
    else if offset == 2 { 27456 }
    else if offset == 3 { 29592 }
    else if offset == 4 { 31608 }
    else if offset == 5 { 33512 }
    else if offset == 6 { 35312 }
    else if offset == 7 { 37008 }
    else if offset == 8 { 38608 }
    else if offset == 9 { 40120 }
    else if offset == 10 { 41548 }
    else if offset == 11 { 42892 }
    else if offset == 12 { 44164 }
    else if offset == 13 { 45364 }
    else if offset == 14 { 46496 }
    else if offset == 15 { 47564 }
    else if offset == 16 { 48572 }
    else if offset == 17 { 49524 }
    else if offset == 18 { 50424 }
    else if offset == 19 { 51272 }
    else if offset == 20 { 52072 }
    else if offset == 21 { 52828 }
    else if offset == 22 { 53544 }
    else if offset == 23 { 54216 }
    else { 54852 }
}

/// Timer reload for the given semitone step of this programmable-tone
/// timbre, from the hardware-measured table (not the formula).
pub fn nth_timer_reload_bong_bong(offset: i32) -> (res: u16)
    requires
        0 <= offset < 25,
    ensures
        res == spec_nth_timer_reload_bong_bong(offset as int),
{
    if offset == 0 { 22792 }
    else if offset == 1 { 25192 }
    else if offset == 2 { 27456 }
    else if offset == 3 { 29592 }
    else if offset == 4 { 31608 }
    else if offset == 5 { 33512 }
    else if offset == 6 { 35312 }
    else if offset == 7 { 37008 }
    else if offset == 8 { 38608 }
    else if offset == 9 { 40120 }
    else if offset == 10 { 41548 }
    else if offset == 11 { 42892 }
    else if offset == 12 { 44164 }
    else if offset == 13 { 45364 }
    else if offset == 14 { 46496 }
    else if offset == 15 { 47564 }
    else if offset == 16 { 48572 }
    else if offset == 17 { 49524 }
    else if offset == 18 { 50424 }
    else if offset == 19 { 51272 }
    else if offset == 20 { 52072 }
    else if offset == 21 { 52828 }
    else if offset == 22 { 53544 }
    else if offset == 23 { 54216 }
    else { 54852 }
}

/// Hardware-measured reload table for this programmable-tone timbre.
pub open spec fn spec_nth_timer_reload_ding_ding(offset: int) -> u16 {
    if offset == 0 { 54852 }
    else if offset == 1 { 55452 }
    else if offset == 2 { 56016 }
    else if offset == 3 { 56552 }
    else if offset == 4 { 57056 }
    else if offset == 5 { 57532 }
    else if offset == 6 { 57980 }
    else if offset == 7 { 58404 }
    else if offset == 8 { 58804 }
    else if offset == 9 { 59184 }
    else if offset == 10 { 59540 }
    else if offset == 11 { 59876 }
    else if offset == 12 { 60196 }
    else if offset == 13 { 60496 }
    else if offset == 14 { 60776 }
    else if offset == 15 { 61044 }
    else if offset == 16 { 61296 }
    else if offset == 17 { 61536 }
    else if offset == 18 { 61760 }
    else if offset == 19 { 61972 }
    else if offset == 20 { 62172 }
    else if offset == 21 { 62360 }
    else if offset == 22 { 62540 }
    else if offset == 23 { 62708 }
    else { 62868 }
}

/// Timer reload for the given semitone step of this programmable-tone
/// timbre, from the hardware-measured table (not the formula).
pub fn nth_timer_reload_ding_ding(offset: i32) -> (res: u16)
    requires
        0 <= offset < 25,
    ensures
        res == spec_nth_timer_reload_ding_ding(offset as int),
{
    if offset == 0 { 54852 }
    else if offset == 1 { 55452 }
    else if offset == 2 { 56016 }
    else if offset == 3 { 56552 }
    else if offset == 4 { 57056 }
    else if offset == 5 { 57532 }
    else if offset == 6 { 57980 }
    else if offset == 7 { 58404 }
    else if offset == 8 { 58804 }
    else if offset == 9 { 59184 }
    else if offset == 10 { 59540 }
    else if offset == 11 { 59876 }
    else if offset == 12 { 60196 }
    else if offset == 13 { 60496 }
    else if offset == 14 { 60776 }
    else if offset == 15 { 61044 }
    else if offset == 16 { 61296 }
    else if offset == 17 { 61536 }
    else if offset == 18 { 61760 }
    else if offset == 19 { 61972 }
    else if offset == 20 { 62172 }
    else if offset == 21 { 62360 }
    else if offset == 22 { 62540 }
    else if offset == 23 { 62708 }
    else { 62868 }
}

/// Hardware-measured reload table for this programmable-tone timbre.
pub open spec fn spec_nth_timer_reload_bing_bing(offset: int) -> u16 {
    if offset == 0 { 41548 }
    else if offset == 1 { 42892 }
    else if offset == 2 { 44164 }
    else if offset == 3 { 45364 }
    else if offset == 4 { 46496 }
    else if offset == 5 { 47564 }
    else if offset == 6 { 48572 }
    else if offset == 7 { 49524 }
    else if offset == 8 { 50424 }
    else if offset == 9 { 51272 }
    else if offset == 10 { 52072 }
    else if offset == 11 { 52828 }
    else if offset == 12 { 53544 }
    else if offset == 13 { 54216 }
    else if offset == 14 { 54852 }
    else if offset == 15 { 55452 }
    else if offset == 16 { 56016 }
    else if offset == 17 { 56552 }
    else if offset == 18 { 57056 }
    else if offset == 19 { 57532 }
    else if offset == 20 { 57980 }
    else if offset == 21 { 58404 }
    else if offset == 22 { 58804 }
    else if offset == 23 { 59184 }
    else { 59540 }
}

/// Timer reload for the given semitone step of this programmable-tone
/// timbre, from the hardware-measured table (not the formula).
pub fn nth_timer_reload_bing_bing(offset: i32) -> (res: u16)
    requires
        0 <= offset < 25,
    ensures
        res == spec_nth_timer_reload_bing_bing(offset as int),
{
    if offset == 0 { 41548 }
    else if offset == 1 { 42892 }
    else if offset == 2 { 44164 }
    else if offset == 3 { 45364 }
    else if offset == 4 { 46496 }
    else if offset == 5 { 47564 }
    else if offset == 6 { 48572 }
    else if offset == 7 { 49524 }
    else if offset == 8 { 50424 }
    else if offset == 9 { 51272 }
    else if offset == 10 { 52072 }
    else if offset == 11 { 52828 }
    else if offset == 12 { 53544 }
    else if offset == 13 { 54216 }
    else if offset == 14 { 54852 }
    else if offset == 15 { 55452 }
    else if offset == 16 { 56016 }
    else if offset == 17 { 56552 }
    else if offset == 18 { 57056 }
    else if offset == 19 { 57532 }
    else if offset == 20 { 57980 }
    else if offset == 21 { 58404 }
    else if offset == 22 { 58804 }
    else if offset == 23 { 59184 }
    else { 59540 }
}

/// Hardware-measured reload table for this programmable-tone timbre.
pub open spec fn spec_nth_timer_reload_bling_bling(offset: int) -> u16 {
    if offset == 0 { 60196 }
    else if offset == 1 { 60496 }
    else if offset == 2 { 60776 }
    else if offset == 3 { 61044 }
    else if offset == 4 { 61296 }
    else if offset == 5 { 61536 }
    else if offset == 6 { 61760 }
    else if offset == 7 { 61972 }
    else if offset == 8 { 62172 }
    else if offset == 9 { 62360 }
    else if offset == 10 { 62540 }
    else if offset == 11 { 62708 }
    else if offset == 12 { 62868 }
    else if offset == 13 { 63016 }
    else if offset == 14 { 63016 }
    else if offset == 15 { 63016 }
    else if offset == 16 { 63016 }
    else if offset == 17 { 63016 }
    else if offset == 18 { 63016 }
    else if offset == 19 { 63016 }
    else if offset == 20 { 63016 }
    else if offset == 21 { 63016 }
    else if offset == 22 { 63016 }
    else if offset == 23 { 63016 }
    else { 63016 }
}

/// Timer reload for the given semitone step of this programmable-tone
/// timbre, from the hardware-measured table (not the formula).
pub fn nth_timer_reload_bling_bling(offset: i32) -> (res: u16)
    requires
        0 <= offset < 25,
    ensures
        res == spec_nth_timer_reload_bling_bling(offset as int),
{
    if offset == 0 { 60196 }
    else if offset == 1 { 60496 }
    else if offset == 2 { 60776 }
    else if offset == 3 { 61044 }
    else if offset == 4 { 61296 }
    else if offset == 5 { 61536 }
    else if offset == 6 { 61760 }
    else if offset == 7 { 61972 }
    else if offset == 8 { 62172 }
    else if offset == 9 { 62360 }
    else if offset == 10 { 62540 }
    else if offset == 11 { 62708 }
    else if offset == 12 { 62868 }
    else if offset == 13 { 63016 }
    else if offset == 14 { 63016 }
    else if offset == 15 { 63016 }
    else if offset == 16 { 63016 }
    else if offset == 17 { 63016 }
    else if offset == 18 { 63016 }
    else if offset == 19 { 63016 }
    else if offset == 20 { 63016 }
    else if offset == 21 { 63016 }
    else if offset == 22 { 63016 }
    else if offset == 23 { 63016 }
    else { 63016 }
}

} // verus!
