//! Resolved volume envelopes: the concrete numeric data a voice carries
//! once its timbre descriptor has been interpolated for a note, and the
//! per-tick evaluation helpers.
//!
//! Exponential segments carry their per-tick Q32 ratio instead of a
//! floating-point decay constant; a voice multiplies its Q32 volume
//! accumulator by the ratio once per envelope tick.
use vstd::prelude::*;

verus! {

use crate::fixed::ONE_Q32;
use crate::fixed::MAX_RATIO_Q32;
use crate::fixed::spec_q32_mul;
use crate::fixed::q32_mul;
use crate::fixed::lemma_q32_mul_no_increase;
use crate::fixed::lemma_q32_mul_decreases;

/// Highest volume the engine accepts from a timbre descriptor.
pub const MAX_ENGINE_VOLUME: u32 = 2047;

/// Per-tick Q32 ratio of the fixed hardware release curve.
pub const RELEASE_BASIC_RATIO_Q32: u64 = 3623512796;

/// Per-tick Q32 ratio of the very slow sustained-breath release.
pub const KEEP_BLOWING_RATIO_Q32: u64 = 4252231657;

/// Per-tick Q32 ratio of the default release used when a voice has no
/// release curve of its own.
pub const HALF_RATIO_Q32: u64 = 0x8000_0000;

/// A voice is torn down once its computed release volume falls to this
/// Q32 threshold (1.5).
pub const RELEASE_END_Q32: u64 = 0x1_8000_0000;

/// Linear interpolation between `lo` (at step 0) and `hi` (at step
/// `until`), truncating, clamped to the unsigned 32-bit range.
pub open spec fn spec_interp_val(note: int, lo: int, hi: int, until: int) -> int {
    if until == 0 {
        (lo + hi) / 2
    } else {
        let v = lo * until + note * (hi - lo);
        if v < 0 {
            0
        } else if v / until > 0xFFFF_FFFF {
            0xFFFF_FFFF
        } else {
            v / until
        }
    }
}

/// Interpolates `note` steps along `range` over a fixed 24-step span.
pub fn interp_val(note: u32, range: (u32, u32)) -> (r: u32)
    requires
        note <= 0xFFFF,
        range.0 <= 0xFFFF_FFF,
        range.1 <= 0xFFFF_FFF,
    ensures
        r == spec_interp_val(note as int, range.0 as int, range.1 as int, 24),
        (note <= 24 && range.0 <= range.1) ==> r <= range.1,
        (note <= 24 && range.0 >= range.1) ==> r <= range.0,
{
    interp_val_until(note, range, 24)
}

/// Interpolates `note` steps along `range` over an `until`-step span; an
/// empty span yields the midpoint.
pub fn interp_val_until(note: u32, range: (u32, u32), until: u32) -> (r: u32)
    requires
        note <= 0xFFFF,
        until <= 0xFFFF,
        range.0 <= 0xFFFF_FFF,
        range.1 <= 0xFFFF_FFF,
    ensures
        r == spec_interp_val(note as int, range.0 as int, range.1 as int, until as int),
        (note <= until && until >= 1 && range.0 <= range.1) ==> r <= range.1,
        (note <= until && until >= 1 && range.0 >= range.1) ==> r <= range.0,
{
    let (lowest, highest) = range;
    if until == 0 {
        return (lowest + highest) / 2;
    }
    proof {
        let lo = lowest as int;
        let hi = highest as int;
        let n = note as int;
        let u = until as int;
        assert(0 <= lo * u <= 0xFFFF_FFF * 0xFFFF
            && -0xFFFF * 0xFFFF_FFF <= n * (hi - lo) <= 0xFFFF * 0xFFFF_FFF)
            by (nonlinear_arith)
            requires 0 <= lo <= 0xFFFF_FFF && 0 <= hi <= 0xFFFF_FFF && 0 <= n <= 0xFFFF
                && 1 <= u <= 0xFFFF;
    }
    let v: i64 = lowest as i64 * until as i64
        + note as i64 * (highest as i64 - lowest as i64);
    if v < 0 {
        return 0;
    }
    let q: i64 = v / until as i64;
    proof {
        let lo = lowest as int;
        let hi = highest as int;
        let n = note as int;
        let u = until as int;
        assert(0 <= (v as int) / u) by (nonlinear_arith)
            requires v >= 0 && u >= 1;
        if n <= u {
            if hi >= lo {
                assert(lo * u + n * (hi - lo) <= hi * u) by (nonlinear_arith)
                    requires 0 <= n <= u && hi >= lo;
                assert((v as int) / u <= hi) by (nonlinear_arith)
                    requires v as int <= hi * u && u >= 1 && v >= 0 && hi >= 0;
            } else {
                assert(lo * u + n * (hi - lo) <= lo * u) by (nonlinear_arith)
                    requires 0 <= n && hi <= lo;
                assert((v as int) / u <= lo) by (nonlinear_arith)
                    requires v as int <= lo * u && u >= 1 && v >= 0 && lo >= 0;
            }
        }
    }
    if q > 0xFFFF_FFFF {
        0xFFFF_FFFF
    } else {
        q as u32
    }
}

/// The interpolation is monotone in `note` for an upward range.
pub proof fn lemma_interp_monotone(n1: int, n2: int, lo: int, hi: int, until: int)
    requires
        0 <= n1 <= n2,
        0 <= lo <= hi,
        1 <= until,
    ensures
        spec_interp_val(n1, lo, hi, until) <= spec_interp_val(n2, lo, hi, until),
{
    assert(lo * until + n1 * (hi - lo) <= lo * until + n2 * (hi - lo)) by (nonlinear_arith)
        requires 0 <= n1 <= n2 && hi >= lo;
    assert(lo * until + n1 * (hi - lo) >= 0) by (nonlinear_arith)
        requires 0 <= lo && 0 <= n1 && hi >= lo && until >= 1;
    assert((lo * until + n1 * (hi - lo)) / until <= (lo * until + n2 * (hi - lo)) / until)
        by (nonlinear_arith)
        requires lo * until + n1 * (hi - lo) <= lo * until + n2 * (hi - lo) && until >= 1;
}

/// A volume breakpoint of an exactly-tabulated attack ramp.
#[derive(Debug, Clone, PartialEq, Eq, Structural)]
pub struct TimedVolumeAdjustment {
    pub time: u32,
    pub volume: u32,
}

/// A scheduled write of a new timer-reload value (a pitch change).
#[derive(Debug, Clone, Copy, PartialEq, Eq, Structural)]
pub struct TimedPitchAdjustment {
    pub time: u32,
    pub timer_reload: u16,
}

/// A scheduled pitch change expressed relative to the note, in Q16
/// semitones.
#[derive(Debug, Clone, Copy, PartialEq, Eq, Structural)]
pub struct TimedRelativePitchAdjustment {
    pub time: u32,
    pub pitch_adjust_q16: i64,
}

/// Resolved attack phase: a straight ramp or an exact breakpoint table.
#[derive(Debug, Clone)]
pub enum AttackEnvelope {
    Linear { volume: u32, duration: u32 },
    Exact { adjustments: Vec<TimedVolumeAdjustment> },
}

impl AttackEnvelope {
    pub open spec fn wf(self) -> bool {
        match self {
            AttackEnvelope::Linear { volume, duration } => {
                volume <= MAX_ENGINE_VOLUME && duration <= 0xFFFF
            },
            AttackEnvelope::Exact { adjustments } => {
                &&& adjustments.len() >= 1
                &&& forall|i: int| 0 <= i < adjustments.len()
                    ==> (#[trigger] adjustments[i]).volume <= MAX_ENGINE_VOLUME
                        && adjustments[i].time <= 0xFFFF
            },
        }
    }

    /// The level the attack phase ends at.
    pub fn last_volume(&self) -> (r: u32)
        requires
            self.wf(),
        ensures
            r == match self {
                AttackEnvelope::Linear { volume, .. } => *volume,
                AttackEnvelope::Exact { adjustments } => {
                    adjustments[adjustments.len() - 1].volume
                },
            },
            r <= MAX_ENGINE_VOLUME,
    {
        match self {
            AttackEnvelope::Linear { volume, .. } => *volume,
            AttackEnvelope::Exact { adjustments } => {
                adjustments[adjustments.len() - 1].volume
            },
        }
    }

    /// Largest breakpoint time of the table.
    pub open spec fn spec_max_time(adjs: Seq<TimedVolumeAdjustment>) -> int
        decreases adjs.len()
    {
        if adjs.len() == 0 {
            0
        } else {
            let rest = Self::spec_max_time(adjs.drop_last());
            if adjs.last().time >= rest { adjs.last().time as int } else { rest }
        }
    }

    /// Ticks the attack phase spans.
    pub fn duration(&self) -> (r: u32)
        requires
            self.wf(),
        ensures
            r == match self {
                AttackEnvelope::Linear { duration, .. } => *duration as int,
                AttackEnvelope::Exact { adjustments } => Self::spec_max_time(adjustments@),
            },
    {
        match self {
            AttackEnvelope::Linear { duration, .. } => *duration,
            AttackEnvelope::Exact { adjustments } => {
                let mut best: u32 = 0;
                let mut i: usize = 0;
                while i < adjustments.len()
                    invariant
                        i <= adjustments.len(),
                        best == Self::spec_max_time(adjustments@.take(i as int)),
                        best <= 0xFFFF,
                        forall|k: int| 0 <= k < adjustments.len()
                            ==> (#[trigger] adjustments@[k]).time <= 0xFFFF,
                    decreases adjustments.len() - i,
                {
                    proof {
                        assert(adjustments@.take(i + 1).drop_last()
                            =~= adjustments@.take(i as int));
                        assert(adjustments@.take(i + 1).last() == adjustments@[i as int]);
                    }
                    if adjustments[i].time > best {
                        best = adjustments[i].time;
                    }
                    i = i + 1;
                }
                proof {
                    assert(adjustments@.take(adjustments@.len() as int) =~= adjustments@);
                }
                best
            },
        }
    }
}

/// Resolved sustain phase.
#[derive(Debug, Clone, Copy, PartialEq, Eq, Structural)]
pub struct SustainEnvelope {
    pub volume: u32,
    pub duration: u32,
}

/// Resolved decay phase: a straight ramp to the sustain level, or an
/// exponential approach with a per-tick Q32 ratio.
#[derive(Debug, Clone, Copy, PartialEq, Eq, Structural)]
pub enum DecayEnvelope {
    Linear { duration: u32 },
    Exponential { ratio_q32: u64, duration: u32 },
}

impl DecayEnvelope {
    pub open spec fn wf(self) -> bool {
        match self {
            DecayEnvelope::Linear { duration } => duration <= 0xFFFF,
            DecayEnvelope::Exponential { ratio_q32, duration } => {
                ratio_q32 <= MAX_RATIO_Q32 && duration <= 0xFFFF
            },
        }
    }

    /// Ticks the decay phase spans.
    pub fn duration(&self) -> (r: u32)
        ensures
            r == match self {
                DecayEnvelope::Linear { duration } => *duration,
                DecayEnvelope::Exponential { duration, .. } => *duration,
            },
    {
        match self {
            DecayEnvelope::Linear { duration } => *duration,
            DecayEnvelope::Exponential { duration, .. } => *duration,
        }
    }
}

/// Resolved release behaviour.  Exponential kinds derive their per-tick
/// ratio from the sustain level when the phase begins; geometric kinds
/// carry a fixed Q32 ratio.
#[derive(Debug, Clone, Copy, PartialEq, Eq, Structural)]
pub enum ReleaseInstructions {
    Geometric { ratio_q32: u64 },
    GeometricStopBlowing { ratio_q32: u64 },
    Exponential { duration: u32 },
    ExponentialUntil { duration: u32, until: u32 },
    Basic,
    Static(u32),
    KeepBlowing,
}

impl ReleaseInstructions {
    pub open spec fn wf(self) -> bool {
        match self {
            ReleaseInstructions::Geometric { ratio_q32 } => ratio_q32 < ONE_Q32,
            ReleaseInstructions::GeometricStopBlowing { ratio_q32 } => ratio_q32 < ONE_Q32,
            ReleaseInstructions::Exponential { duration } => duration >= 1,
            ReleaseInstructions::ExponentialUntil { duration, .. } => duration >= 1,
            ReleaseInstructions::Static(v) => v <= MAX_ENGINE_VOLUME,
            _ => true,
        }
    }
}

/// A fully resolved envelope, consumed tick by tick.
#[derive(Debug, Clone)]
pub struct Envelope {
    pub attack: Option<AttackEnvelope>,
    pub initial_volume: u32,
    pub decay: Option<DecayEnvelope>,
    pub sustain: Option<SustainEnvelope>,
    pub release: Option<ReleaseInstructions>,
}

impl Envelope {
    pub open spec fn wf(self) -> bool {
        &&& self.initial_volume <= MAX_ENGINE_VOLUME
        &&& match self.attack {
            Some(a) => a.wf(),
            None => true,
        }
        &&& match self.decay {
            Some(d) => d.wf(),
            None => true,
        }
        &&& match self.sustain {
            Some(s) => s.volume <= MAX_ENGINE_VOLUME,
            None => true,
        }
        &&& match self.release {
            Some(r) => r.wf(),
            None => true,
        }
    }
}

/// The latest tabulated level reached by tick `tick`, or `fallback` before
/// the first breakpoint.
pub open spec fn spec_latest_breakpoint(adjs: Seq<TimedVolumeAdjustment>, tick: int,
    fallback: int) -> int
    decreases adjs.len()
{
    if adjs.len() == 0 {
        fallback
    } else if adjs.last().time <= tick {
        adjs.last().volume as int
    } else {
        spec_latest_breakpoint(adjs.drop_last(), tick, fallback)
    }
}

/// Scans an exact attack table for the last breakpoint at or before
/// `tick`; `fallback` applies before the first one fires.
pub fn latest_breakpoint(adjs: &Vec<TimedVolumeAdjustment>, tick: u32, fallback: u32)
    -> (r: u32)
    requires
        forall|i: int| 0 <= i < adjs.len()
            ==> (#[trigger] adjs[i]).volume <= MAX_ENGINE_VOLUME,
        fallback <= MAX_ENGINE_VOLUME,
    ensures
        r == spec_latest_breakpoint(adjs@, tick as int, fallback as int),
        r <= MAX_ENGINE_VOLUME,
{
    let mut i: usize = adjs.len();
    proof {
        assert(adjs@.take(adjs@.len() as int) =~= adjs@);
    }
    while i > 0
        invariant
            i <= adjs.len(),
            fallback <= MAX_ENGINE_VOLUME,
            forall|k: int| 0 <= k < adjs.len()
                ==> (#[trigger] adjs[k]).volume <= MAX_ENGINE_VOLUME,
            spec_latest_breakpoint(adjs@, tick as int, fallback as int)
                == spec_latest_breakpoint(adjs@.take(i as int), tick as int, fallback as int),
        decreases i,
    {
        proof {
            assert(adjs@.take(i as int).last() == adjs@[i - 1]);
            assert(adjs@.take(i as int).drop_last() =~= adjs@.take(i - 1));
        }
        if adjs[i - 1].time <= tick {
            return adjs[i - 1].volume;
        }
        i = i - 1;
    }
    fallback
}

/// One tick of an exponential segment: the Q32 accumulator scaled by the
/// segment's per-tick ratio.
pub fn envelope_acc_step(acc: u64, ratio_q32: u64) -> (r: u64)
    requires
        acc <= crate::fixed::MAX_ACC_Q32,
        ratio_q32 <= MAX_RATIO_Q32,
    ensures
        r == spec_q32_mul(acc as int, ratio_q32 as int),
        ratio_q32 <= ONE_Q32 ==> r <= acc,
        (ratio_q32 < ONE_Q32 && acc > 0) ==> r < acc,
    {
    let r = q32_mul(acc, ratio_q32);
    proof {
        if ratio_q32 <= ONE_Q32 {
            lemma_q32_mul_no_increase(acc as int, ratio_q32 as int);
        }
        if ratio_q32 < ONE_Q32 && acc > 0 {
            lemma_q32_mul_decreases(acc as int, ratio_q32 as int);
        }
    }
    r
}

/// A table whose breakpoint times all fit a register bounds its span too.
pub proof fn lemma_max_time_bound(adjs: Seq<TimedVolumeAdjustment>)
    requires
        forall|i: int| 0 <= i < adjs.len() ==> (#[trigger] adjs[i]).time <= 0xFFFF,
    ensures
        AttackEnvelope::spec_max_time(adjs) <= 0xFFFF,
    decreases adjs.len(),
{
    if adjs.len() > 0 {
        assert forall|i: int| 0 <= i < adjs.drop_last().len()
            implies (#[trigger] adjs.drop_last()[i]).time <= 0xFFFF
        by {
            assert(adjs[i] == adjs.drop_last()[i]);
        }
        lemma_max_time_bound(adjs.drop_last());
    }
}

/// A breakpoint table sorted by time with non-decreasing levels.
pub open spec fn spec_breakpoints_ascending(adjs: Seq<TimedVolumeAdjustment>) -> bool {
    forall|i: int, j: int| 0 <= i <= j < adjs.len()
        ==> (#[trigger] adjs[i]).time <= (#[trigger] adjs[j]).time
            && adjs[i].volume <= adjs[j].volume
}

/// Within a single attack phase the computed level never falls: a later
/// tick of an exactly-tabulated ramp (sorted toward a higher target) reads
/// a breakpoint at least as loud.  The linear-ramp counterpart is
/// `lemma_interp_monotone`.
pub proof fn lemma_attack_breakpoints_monotone(adjs: Seq<TimedVolumeAdjustment>, t1: int,
    t2: int, fallback: int)
    requires
        spec_breakpoints_ascending(adjs),
        t1 <= t2,
        forall|i: int| 0 <= i < adjs.len()
            ==> fallback <= (#[trigger] adjs[i]).volume,
    ensures
        spec_latest_breakpoint(adjs, t1, fallback)
            <= spec_latest_breakpoint(adjs, t2, fallback),
    decreases adjs.len(),
{
    if adjs.len() > 0 {
        if adjs.last().time <= t1 {
        } else if adjs.last().time <= t2 {
            lemma_breakpoint_below_last(adjs.drop_last(), t1, fallback,
                adjs.last().volume as int);
            assert forall|i: int| 0 <= i < adjs.drop_last().len()
                implies (#[trigger] adjs.drop_last()[i]).volume <= adjs.last().volume
            by {
                assert(adjs[i] == adjs.drop_last()[i]);
            }
            lemma_breakpoint_below_last(adjs.drop_last(), t1, fallback,
                adjs.last().volume as int);
        } else {
            assert(spec_breakpoints_ascending(adjs.drop_last())) by {
                assert forall|i: int, j: int| 0 <= i <= j < adjs.drop_last().len()
                    implies (#[trigger] adjs.drop_last()[i]).time
                        <= (#[trigger] adjs.drop_last()[j]).time
                        && adjs.drop_last()[i].volume <= adjs.drop_last()[j].volume
                by {
                    assert(adjs[i] == adjs.drop_last()[i]);
                    assert(adjs[j] == adjs.drop_last()[j]);
                }
            }
            assert forall|i: int| 0 <= i < adjs.drop_last().len()
                implies fallback <= (#[trigger] adjs.drop_last()[i]).volume
            by {
                assert(adjs[i] == adjs.drop_last()[i]);
            }
            lemma_attack_breakpoints_monotone(adjs.drop_last(), t1, t2, fallback);
        }
    }
}

/// Every level a sorted table can yield lies at or below its last entry.
proof fn lemma_breakpoint_below_last(adjs: Seq<TimedVolumeAdjustment>, t: int,
    fallback: int, cap: int)
    requires
        fallback <= cap,
        forall|i: int| 0 <= i < adjs.len() ==> (#[trigger] adjs[i]).volume <= cap,
    ensures
        spec_latest_breakpoint(adjs, t, fallback) <= cap,
    decreases adjs.len(),
{
    if adjs.len() > 0 {
        if adjs.last().time <= t {
        } else {
            assert forall|i: int| 0 <= i < adjs.drop_last().len()
                implies (#[trigger] adjs.drop_last()[i]).volume <= cap
            by {
                assert(adjs[i] == adjs.drop_last()[i]);
            }
            lemma_breakpoint_below_last(adjs.drop_last(), t, fallback, cap);
        }
    }
}

/// The release accumulator after `k` envelope ticks under a fixed ratio.
pub open spec fn spec_release_after(acc: int, ratio: int, k: nat) -> int
    decreases k
{
    if k == 0 {
        acc
    } else {
        spec_q32_mul(spec_release_after(acc, ratio, (k - 1) as nat), ratio)
    }
}

/// Release monotonicity: under any per-tick ratio of at most 1.0, the
/// release volume accumulator never increases from tick to tick.
pub proof fn lemma_release_never_increases(acc: int, ratio: int, k: nat)
    requires
        0 <= acc,
        0 <= ratio <= ONE_Q32,
    ensures
        0 <= spec_release_after(acc, ratio, (k + 1) as nat)
            <= spec_release_after(acc, ratio, k),
    decreases k,
{
    assert(spec_q32_mul(0, ratio) == 0) by (nonlinear_arith);
    if k == 0 {
        lemma_q32_mul_no_increase(acc, ratio);
        crate::fixed::lemma_q32_mul_monotone(0, acc, ratio);
        assert(spec_release_after(acc, ratio, 0) == acc);
        assert(spec_release_after(acc, ratio, 1) == spec_q32_mul(acc, ratio));
    } else {
        lemma_release_never_increases(acc, ratio, (k - 1) as nat);
        lemma_q32_mul_no_increase(spec_release_after(acc, ratio, k), ratio);
        crate::fixed::lemma_q32_mul_monotone(0, spec_release_after(acc, ratio, k), ratio);
        assert(spec_release_after(acc, ratio, (k + 1) as nat)
            == spec_q32_mul(spec_release_after(acc, ratio, k), ratio));
    }
}

/// Release termination: under any per-tick ratio strictly below 1.0 the
/// accumulator strictly shrinks while positive, so after at most its own
/// initial value of ticks it has reached zero -- and a voice whose level
/// falls to the quiet threshold opens its lane on that evaluation.
pub proof fn lemma_release_terminates(acc: int, ratio: int, k: nat)
    requires
        0 <= acc,
        0 <= ratio < ONE_Q32,
    ensures
        spec_release_after(acc, ratio, k) <= acc - k
            || spec_release_after(acc, ratio, k) == 0,
    decreases k,
{
    if k > 0 {
        lemma_release_terminates(acc, ratio, (k - 1) as nat);
        let prev = spec_release_after(acc, ratio, (k - 1) as nat);
        lemma_release_never_increases(acc, ratio, (k - 1) as nat);
        if prev > 0 {
            lemma_q32_mul_decreases(prev, ratio);
        } else {
            assert(prev == 0) by {
                if k >= 2 {
                    lemma_release_never_increases(acc, ratio, (k - 2) as nat);
                }
            }
            assert(spec_q32_mul(0, ratio) == 0);
        }
    }
}

} // verus!
