//! Timbre descriptors and the envelope playback engine: resolving a
//! triggered note or drum against its descriptor into a concrete voice,
//! and advancing every active voice once per envelope tick.
use vstd::prelude::*;

verus! {

use crate::envelope::MAX_ENGINE_VOLUME;
use crate::envelope::TimedRelativePitchAdjustment;
use crate::envelope::TimedVolumeAdjustment;
use crate::manager::QueuedNote;
use crate::manager::Channel;

/// Number of drum slots in a rhythm section.
pub const DRUM_COUNT: usize = 14;

/// Number of rhythm sections in the drum catalog.
pub const RHYTHM_SECTION_COUNT: usize = 8;

/// A sampled (PCM) source for a melodic instrument, with its volume range
/// across the instrument's pitch span.
#[derive(Debug, Clone, Copy)]
pub struct Sample {
    /// Volume at the lowest and highest note of the range.
    pub volume: (u32, u32),
    pub base_timer_reload: u16,
    pub loop_pos: usize,
    pub length: usize,
    pub src_address: usize,
    pub is_repeating: bool,
}

impl Sample {
    pub open spec fn wf(self) -> bool {
        &&& self.volume.0 <= MAX_ENGINE_VOLUME
        &&& self.volume.1 <= MAX_ENGINE_VOLUME
        &&& self.loop_pos <= 0x3_FFFC
        &&& self.length <= 0x7F_FFFC
        &&& self.src_address <= 0x07FF_FFFC
    }
}

/// A programmable-tone source for a melodic instrument.
#[derive(Debug, Clone, Copy)]
pub struct ProgrammableSample {
    pub volume: (u32, u32),
    pub base_timer_reload: u16,
    pub table_index: u8,
}

impl ProgrammableSample {
    pub open spec fn wf(self) -> bool {
        &&& self.volume.0 <= MAX_ENGINE_VOLUME
        &&& self.volume.1 <= MAX_ENGINE_VOLUME
        &&& self.table_index < 8
    }
}

/// A drum's sample parameters.
#[derive(Debug, Clone, Copy, PartialEq, Eq, Structural)]
pub struct DrumSample {
    pub volume: u32,
    pub timer_reload: u16,
    pub loop_pos: usize,
    pub length: usize,
    pub src_address: usize,
    pub is_repeating: bool,
    pub base_pan: u8,
}

impl DrumSample {
    pub open spec fn wf(self) -> bool {
        &&& self.volume <= MAX_ENGINE_VOLUME
        &&& self.loop_pos <= 0x3_FFFC
        &&& self.length <= 0x7F_FFFC
        &&& self.src_address <= 0x07FF_FFFC
    }
}

/// A noise drum's parameters.
#[derive(Debug, Clone, Copy, PartialEq, Eq, Structural)]
pub struct NoiseDrumSample {
    pub volume: u32,
    pub timer_reload: u16,
    pub base_pan: u8,
}

impl NoiseDrumSample {
    pub open spec fn wf(self) -> bool {
        self.volume <= MAX_ENGINE_VOLUME
    }
}

/// A drum sample scheduled at a voice-relative envelope tick.
#[derive(Debug, Clone, Copy, PartialEq, Eq, Structural)]
pub struct TimedDrumSample {
    pub time: u32,
    pub sample: DrumSample,
}

/// The source a melodic instrument plays through.
#[derive(Debug, Clone, Copy)]
pub enum InstrumentSample {
    PCM16(Sample),
    PSG(ProgrammableSample),
}

impl InstrumentSample {
    pub open spec fn wf(self) -> bool {
        match self {
            InstrumentSample::PCM16(s) => s.wf(),
            InstrumentSample::PSG(s) => s.wf(),
        }
    }

    /// Volume range of the source across the pitch span.
    pub fn volume(&self) -> (r: (u32, u32))
        ensures
            r == match self {
                InstrumentSample::PCM16(s) => s.volume,
                InstrumentSample::PSG(s) => s.volume,
            },
    {
        match self {
            InstrumentSample::PCM16(sample) => sample.volume,
            InstrumentSample::PSG(sample) => sample.volume,
        }
    }

    /// Reload value the source plays its root pitch at.
    pub fn base_timer_reload(&self) -> (r: u16)
        ensures
            r == match self {
                InstrumentSample::PCM16(s) => s.base_timer_reload,
                InstrumentSample::PSG(s) => s.base_timer_reload,
            },
    {
        match self {
            InstrumentSample::PCM16(sample) => sample.base_timer_reload,
            InstrumentSample::PSG(sample) => sample.base_timer_reload,
        }
    }
}

/// An instrument's volume breakpoint, interpolated across the pitch span.
#[derive(Debug, Clone, Copy)]
pub struct InstrumentTimedVolumeAdjustment {
    pub time: u32,
    pub volume: (u32, u32),
}

/// Well-formed interpolable breakpoint table.
pub open spec fn spec_ivol_adjs_wf(s: Seq<InstrumentTimedVolumeAdjustment>) -> bool {
    &&& s.len() >= 1
    &&& forall|i: int| 0 <= i < s.len()
        ==> (#[trigger] s[i]).volume.0 <= MAX_ENGINE_VOLUME
            && s[i].volume.1 <= MAX_ENGINE_VOLUME
            && s[i].time <= 0xFFFF
}

/// Unresolved attack shapes.
#[derive(Debug, Clone)]
pub enum InstrumentAttack {
    Exact { adjustments: Vec<InstrumentTimedVolumeAdjustment> },
    /// An exact ramp that also glides the pitch from the previous note on
    /// the track.
    ExactWithMagicPitch { adjustments: Vec<InstrumentTimedVolumeAdjustment> },
}

impl InstrumentAttack {
    pub open spec fn wf(self) -> bool {
        match self {
            InstrumentAttack::Exact { adjustments }
            | InstrumentAttack::ExactWithMagicPitch { adjustments } => {
                spec_ivol_adjs_wf(adjustments@)
            },
        }
    }
}

/// Unresolved decay shapes.
#[derive(Debug, Clone, Copy)]
pub enum InstrumentDecay {
    Exponential { duration: u32 },
    /// Exponential decay whose sustain start moves with the note.
    ExponentialWithVariableSustain { duration: u32, sustain_duration: (u32, u32) },
    /// Exponential decay with a periodic pitch wobble laid on top.
    ExponentialWithWobble {
        duration: u32,
        wobble_start: u32,
        max_wobble_q16: i64,
        wave_duration: u32,
    },
    /// Exponential decay with a slow pitch rise laid on top.
    ExponentialRising { duration: u32, rise_start: u32, max_rise_q16: i64 },
    Linear { duration: u32 },
}

impl InstrumentDecay {
    pub open spec fn wf(self) -> bool {
        match self {
            InstrumentDecay::Exponential { duration } => 1 <= duration <= 0xFFFF,
            InstrumentDecay::ExponentialWithVariableSustain { duration, sustain_duration } => {
                &&& 1 <= duration <= 0xFFFF
                &&& sustain_duration.0 < duration
                &&& sustain_duration.1 < duration
            },
            InstrumentDecay::ExponentialWithWobble {
                duration, wobble_start, max_wobble_q16, wave_duration } => {
                &&& 1 <= duration <= 0xFFFF
                &&& wobble_start <= duration
                &&& 1 <= wave_duration
                &&& 0 <= max_wobble_q16 <= 0x10_0000
            },
            InstrumentDecay::ExponentialRising { duration, rise_start, max_rise_q16 } => {
                &&& 1 <= duration <= 0xFFFF
                &&& rise_start < duration
                &&& 0 <= max_rise_q16 <= 0x10_0000
            },
            InstrumentDecay::Linear { duration } => duration <= 0xFFFF,
        }
    }
}

/// Unresolved sustain level, interpolated across the pitch span.
#[derive(Debug, Clone, Copy)]
pub struct InstrumentSustain {
    pub volume: (u32, u32),
    pub duration: u32,
}

impl InstrumentSustain {
    pub open spec fn wf(self) -> bool {
        &&& self.volume.0 <= MAX_ENGINE_VOLUME
        &&& self.volume.1 <= MAX_ENGINE_VOLUME
        &&& self.duration <= 0xFFFF
    }
}

/// Unresolved release shapes.
#[derive(Debug, Clone, Copy)]
pub enum InstrumentRelease {
    Basic,
    ExponentialUntil { duration: u32, until: u32 },
    Geometric { ratio_q32: u64 },
    GeometricStopBlowing { ratio_q32: u64 },
    Static((u32, u32)),
    KeepBlowing,
}

impl InstrumentRelease {
    pub open spec fn wf(self) -> bool {
        match self {
            InstrumentRelease::ExponentialUntil { duration, .. } => 1 <= duration <= 0xFFFF,
            InstrumentRelease::Geometric { ratio_q32 } => ratio_q32 < crate::fixed::ONE_Q32,
            InstrumentRelease::GeometricStopBlowing { ratio_q32 } => {
                ratio_q32 < crate::fixed::ONE_Q32
            },
            InstrumentRelease::Static(v) => v.0 <= MAX_ENGINE_VOLUME
                && v.1 <= MAX_ENGINE_VOLUME,
            _ => true,
        }
    }
}

/// One unresolved envelope stage set of an instrument.
#[derive(Debug, Clone)]
pub struct Adsr {
    pub sample: InstrumentSample,
    pub attack: Option<InstrumentAttack>,
    pub decay: Option<InstrumentDecay>,
    pub sustain: Option<InstrumentSustain>,
    pub release: Option<InstrumentRelease>,
}

impl Adsr {
    pub open spec fn wf(self) -> bool {
        &&& self.sample.wf()
        &&& match self.attack {
            Some(a) => a.wf(),
            None => true,
        }
        &&& match self.decay {
            Some(d) => d.wf(),
            None => true,
        }
        &&& match self.sustain {
            Some(s) => s.wf(),
            None => true,
        }
        &&& match self.release {
            Some(r) => r.wf(),
            None => true,
        }
    }
}

/// An envelope stage set valid for a note range.
#[derive(Debug, Clone)]
pub struct RangedAdsr {
    pub low: u8,
    pub high: u8,
    pub adsr: Adsr,
}

/// A chirping multi-stage timbre: an envelope stage set for a note range,
/// a queue of future stages and its own pitch adjustment track.
#[derive(Debug, Clone)]
pub struct StupidCricket {
    pub low: u8,
    pub high: u8,
    pub adsr: Adsr,
    pub future_adsr: Vec<(u32, Adsr)>,
    pub pitch_adjustments: Vec<TimedRelativePitchAdjustment>,
}

/// How an instrument resolves a triggered note.
#[derive(Debug, Clone)]
pub enum InstrumentInstructions {
    Adsr(Adsr),
    /// Two stage sets sounded together.
    Dual([Adsr; 2]),
    /// A stage set per note range.
    Ranged(Vec<RangedAdsr>),
    /// Stage sets triggered at scheduled voice-relative ticks.
    TimedMultiple(Vec<(u32, Adsr)>),
    /// A stage set picked pseudo-randomly per trigger.
    Random(Vec<Adsr>),
    /// Multi-stage chirps per note range.
    Cricket(Vec<StupidCricket>),
}

/// A melodic instrument of the timbre catalog.
#[derive(Debug, Clone)]
pub struct Instrument {
    pub name: String,
    pub instructions: InstrumentInstructions,
    pub pitch_adjustments: Vec<TimedRelativePitchAdjustment>,
    /// Whether the first queued stage's trigger time scales with the note
    /// (one multi-stage timbre does this).
    pub scaled_second_stage: bool,
}

/// Unresolved decay timing shared by drum descriptors.
#[derive(Debug, Clone, Copy, PartialEq, Eq, Structural)]
pub enum DecayKind {
    Exponential,
    Linear,
}

/// A drum's decay timing.
#[derive(Debug, Clone, Copy, PartialEq, Eq, Structural)]
pub struct DecayInstructions {
    pub duration: u32,
    pub kind: DecayKind,
}

impl DecayInstructions {
    pub open spec fn wf(self) -> bool {
        1 <= self.duration <= 0xFFFF
    }

    /// A linear decay over `duration` ticks.
    pub fn linear(duration: u32) -> (r: DecayInstructions)
        ensures
            r.duration == duration,
            r.kind == DecayKind::Linear,
    {
        DecayInstructions { duration, kind: DecayKind::Linear }
    }

    /// An exponential decay over `duration` ticks.
    pub fn exponential(duration: u32) -> (r: DecayInstructions)
        ensures
            r.duration == duration,
            r.kind == DecayKind::Exponential,
    {
        DecayInstructions { duration, kind: DecayKind::Exponential }
    }
}

/// A drum's sustain level and hold time.
#[derive(Debug, Clone, Copy, PartialEq, Eq, Structural)]
pub struct SustainInstructions {
    pub volume: u32,
    pub duration: u32,
}

impl SustainInstructions {
    pub open spec fn wf(self) -> bool {
        self.volume <= MAX_ENGINE_VOLUME && self.duration <= 0xFFFF
    }
}

/// A drum's attack shape.
#[derive(Debug, Clone)]
pub enum AttackInstructions {
    Linear { volume: u32, duration: u32 },
    Exact { adjustments: Vec<TimedVolumeAdjustment> },
}

impl AttackInstructions {
    pub open spec fn wf(self) -> bool {
        match self {
            AttackInstructions::Linear { volume, duration } => {
                volume <= MAX_ENGINE_VOLUME && duration <= 0xFFFF
            },
            AttackInstructions::Exact { adjustments } => {
                &&& adjustments.len() >= 1
                &&& forall|i: int| 0 <= i < adjustments.len()
                    ==> (#[trigger] adjustments[i]).volume <= MAX_ENGINE_VOLUME
                        && adjustments[i].time <= 0xFFFF
            },
        }
    }
}

/// How a drum slot resolves a trigger.
#[derive(Debug, Clone)]
pub enum DrumInstructions {
    /// Decay, sustain and release phases.
    Dsr {
        sample: DrumSample,
        decay: DecayInstructions,
        sustain: SustainInstructions,
        release: crate::envelope::ReleaseInstructions,
    },
    /// Sustain and release only.
    Sr {
        sample: DrumSample,
        sustain: SustainInstructions,
        release: crate::envelope::ReleaseInstructions,
    },
    /// A bare decay toward a final level.
    Decay {
        sample: DrumSample,
        decay: DecayInstructions,
        final_volume: u32,
    },
    /// The sample as-is.
    Simple { sample: DrumSample },
    /// An exact volume ramp.
    ExactVolumeAdjust {
        sample: DrumSample,
        adjustments: Vec<TimedVolumeAdjustment>,
    },
    /// Decay, sustain and release with scheduled pitch changes.
    DsrPitchAdjust {
        sample: DrumSample,
        decay: DecayInstructions,
        sustain: SustainInstructions,
        release: crate::envelope::ReleaseInstructions,
        adjustments: Vec<crate::envelope::TimedPitchAdjustment>,
    },
    /// Scheduled pitch changes over a sustain, then a release.
    PitchThenRelease {
        sample: DrumSample,
        adjustments: Vec<crate::envelope::TimedPitchAdjustment>,
        sustain: SustainInstructions,
        release: crate::envelope::ReleaseInstructions,
    },
    /// The sample, retriggered once after a delay.
    RepeatOnce { sample: DrumSample, repeat_time: u32 },
    /// A timed chain of samples on one lane.
    Multiple { samples: Vec<TimedDrumSample> },
    /// A noise burst with a full four-phase envelope.
    Noise {
        sample: NoiseDrumSample,
        attack: AttackInstructions,
        decay: DecayInstructions,
        sustain: SustainInstructions,
        release: crate::envelope::ReleaseInstructions,
    },
}

impl DrumInstructions {
    pub open spec fn wf(self) -> bool {
        match self {
            DrumInstructions::Dsr { sample, decay, sustain, release } => {
                sample.wf() && decay.wf() && sustain.wf() && release.wf()
                    && sample.volume >= 1 && sustain.volume >= 1
            },
            DrumInstructions::Sr { sample, sustain, release } => {
                sample.wf() && sustain.wf() && release.wf() && sustain.volume >= 1
            },
            DrumInstructions::Decay { sample, decay, final_volume } => {
                sample.wf() && decay.wf() && final_volume <= MAX_ENGINE_VOLUME
                    && sample.volume >= 1
            },
            DrumInstructions::Simple { sample } => sample.wf(),
            DrumInstructions::ExactVolumeAdjust { sample, adjustments } => {
                &&& sample.wf()
                &&& adjustments.len() >= 1
                &&& forall|i: int| 0 <= i < adjustments.len()
                    ==> (#[trigger] adjustments[i]).volume <= MAX_ENGINE_VOLUME
                        && adjustments[i].time <= 0xFFFF
            },
            DrumInstructions::DsrPitchAdjust { sample, decay, sustain, release, .. } => {
                sample.wf() && decay.wf() && sustain.wf() && release.wf()
                    && sample.volume >= 1 && sustain.volume >= 1
            },
            DrumInstructions::PitchThenRelease { sample, sustain, release, .. } => {
                sample.wf() && sustain.wf() && release.wf() && sustain.volume >= 1
            },
            DrumInstructions::RepeatOnce { sample, repeat_time } => {
                sample.wf() && repeat_time <= 0xFFFF
            },
            DrumInstructions::Multiple { samples } => {
                &&& samples.len() >= 1
                &&& forall|i: int| 0 <= i < samples.len()
                    ==> (#[trigger] samples[i]).sample.wf() && samples[i].time <= 0xFFFF
            },
            DrumInstructions::Noise { sample, attack, decay, sustain, release } => {
                sample.wf() && attack.wf() && decay.wf() && sustain.wf() && release.wf()
                    && sample.volume >= 1 && sustain.volume >= 1
            },
        }
    }
}

/// A named set of fourteen drum slots.
#[derive(Debug)]
pub struct RhythmSection {
    pub name: String,
    pub instructions: Vec<DrumInstructions>,
}

impl RhythmSection {
    pub open spec fn wf(self) -> bool {
        &&& self.instructions.len() == DRUM_COUNT
        &&& forall|i: int| 0 <= i < self.instructions.len()
            ==> (#[trigger] self.instructions[i]).wf()
    }

    /// Builds a section from its drum slots.
    pub fn new(name: String, instructions: Vec<DrumInstructions>) -> (r: RhythmSection)
        requires
            instructions.len() == DRUM_COUNT,
        ensures
            r.instructions == instructions,
            r.name == name,
    {
        RhythmSection { name, instructions }
    }
}

/// Pitch adjustments handed to a voice: raw relative offsets still to be
/// run through the pitch formula, or exact reload values.
pub enum PossiblePitchAdjustment {
    Unprocessed(Vec<TimedRelativePitchAdjustment>),
    Exact(Vec<crate::envelope::TimedPitchAdjustment>),
}

/// Sequencer position: total samples elapsed and the position within the
/// current phrase pass.
#[derive(Debug, Clone, Copy, PartialEq, Eq, Structural)]
pub struct Timing {
    pub tiny_tick: usize,
    pub phrase_tick: usize,
}

/// Copies a volume breakpoint table.
fn copy_volume_adjustments(v: &Vec<TimedVolumeAdjustment>) -> (r: Vec<TimedVolumeAdjustment>)
    ensures
        r@ == v@,
{
    let mut r: Vec<TimedVolumeAdjustment> = Vec::new();
    let mut i: usize = 0;
    while i < v.len()
        invariant
            i <= v.len(),
            r@ == v@.take(i as int),
        decreases v.len() - i,
    {
        r.push(TimedVolumeAdjustment { time: v[i].time, volume: v[i].volume });
        proof {
            assert(v@.take(i + 1) =~= v@.take(i as int).push(v@[i as int]));
        }
        i = i + 1;
    }
    proof {
        assert(v@.take(v@.len() as int) =~= v@);
    }
    r
}

/// Copies an instrument's interpolable breakpoint table.
fn copy_instrument_adjustments(v: &Vec<InstrumentTimedVolumeAdjustment>)
    -> (r: Vec<InstrumentTimedVolumeAdjustment>)
    ensures
        r@ == v@,
{
    let mut r: Vec<InstrumentTimedVolumeAdjustment> = Vec::new();
    let mut i: usize = 0;
    while i < v.len()
        invariant
            i <= v.len(),
            r@ == v@.take(i as int),
        decreases v.len() - i,
    {
        r.push(v[i]);
        proof {
            assert(v@.take(i + 1) =~= v@.take(i as int).push(v@[i as int]));
        }
        i = i + 1;
    }
    proof {
        assert(v@.take(v@.len() as int) =~= v@);
    }
    r
}

/// Copies a pitch adjustment schedule.
pub fn copy_pitch_adjustments(v: &Vec<crate::envelope::TimedPitchAdjustment>)
    -> (r: Vec<crate::envelope::TimedPitchAdjustment>)
    ensures
        r@ == v@,
{
    let mut r: Vec<crate::envelope::TimedPitchAdjustment> = Vec::new();
    let mut i: usize = 0;
    while i < v.len()
        invariant
            i <= v.len(),
            r@ == v@.take(i as int),
        decreases v.len() - i,
    {
        r.push(v[i]);
        proof {
            assert(v@.take(i + 1) =~= v@.take(i as int).push(v@[i as int]));
        }
        i = i + 1;
    }
    proof {
        assert(v@.take(v@.len() as int) =~= v@);
    }
    r
}

/// Copies an unresolved attack shape.
fn copy_attack(at: &InstrumentAttack) -> (r: InstrumentAttack)
    ensures
        at.wf() ==> r.wf(),
        r == *at || (match (at, r) {
            (InstrumentAttack::Exact { adjustments: a1 },
                InstrumentAttack::Exact { adjustments: a2 }) => a1@ == a2@,
            (InstrumentAttack::ExactWithMagicPitch { adjustments: a1 },
                InstrumentAttack::ExactWithMagicPitch { adjustments: a2 }) => a1@ == a2@,
            _ => false,
        }),
        (r is Exact) == (*at is Exact),
        (r is ExactWithMagicPitch) == (*at is ExactWithMagicPitch),
{
    match at {
        InstrumentAttack::Exact { adjustments } => {
            let copied = copy_instrument_adjustments(adjustments);
            InstrumentAttack::Exact { adjustments: copied }
        },
        InstrumentAttack::ExactWithMagicPitch { adjustments } => {
            let copied = copy_instrument_adjustments(adjustments);
            InstrumentAttack::ExactWithMagicPitch { adjustments: copied }
        },
    }
}

/// Deep copy of an envelope stage set.
pub fn copy_adsr(a: &Adsr) -> (r: Adsr)
    ensures
        r.sample == a.sample,
        r.decay == a.decay,
        r.sustain == a.sustain,
        r.release == a.release,
        a.wf() ==> r.wf(),
        r.attack is Some <==> a.attack is Some,
{
    let attack: Option<InstrumentAttack> = match &a.attack {
        Some(at) => Some(copy_attack(at)),
        None => None,
    };
    Adsr {
        sample: a.sample,
        attack,
        decay: a.decay,
        sustain: a.sustain,
        release: a.release,
    }
}

/// Copies a queue of future envelope stages.
pub fn copy_future_adsr(v: &Vec<(u32, Adsr)>) -> (r: Vec<(u32, Adsr)>)
    requires
        forall|i: int| 0 <= i < v.len()
            ==> (#[trigger] v[i]).1.wf() && v[i].0 <= 0xFFFF,
    ensures
        r.len() == v.len(),
        forall|i: int| 0 <= i < r.len()
            ==> (#[trigger] r[i]).1.wf() && r[i].0 == v[i].0,
{
    let mut r: Vec<(u32, Adsr)> = Vec::new();
    let mut i: usize = 0;
    while i < v.len()
        invariant
            i <= v.len(),
            r.len() == i,
            forall|k: int| 0 <= k < v.len()
                ==> (#[trigger] v[k]).1.wf() && v[k].0 <= 0xFFFF,
            forall|k: int| 0 <= k < i
                ==> (#[trigger] r[k]).1.wf() && r[k].0 == v[k].0,
        decreases v.len() - i,
    {
        let t = v[i].0;
        let a = copy_adsr(&v[i].1);
        r.push((t, a));
        i = i + 1;
    }
    r
}

/// A catalog instrument is well formed: stage sets within volume bounds,
/// pitch offsets within the pitch formula's domain.
pub open spec fn spec_pitch_adjs_wf(s: Seq<TimedRelativePitchAdjustment>) -> bool {
    forall|i: int| 0 <= i < s.len()
        ==> -0x10_0000 <= (#[trigger] s[i]).pitch_adjust_q16 <= 0x10_0000
            && s[i].time <= 0xFFFF
}

/// Well-formed queue of future envelope stages.
pub open spec fn spec_future_adsr_wf(s: Seq<(u32, Adsr)>) -> bool {
    forall|j: int| 0 <= j < s.len()
        ==> (#[trigger] s[j]).1.wf() && s[j].0 <= 0xFFFF
}

impl StupidCricket {
    pub open spec fn wf(self) -> bool {
        &&& self.adsr.wf()
        &&& spec_pitch_adjs_wf(self.pitch_adjustments@)
        &&& spec_future_adsr_wf(self.future_adsr@)
    }
}

impl Instrument {
    pub open spec fn wf(self) -> bool {
        &&& spec_pitch_adjs_wf(self.pitch_adjustments@)
        &&& match self.instructions {
            InstrumentInstructions::Adsr(a) => a.wf(),
            InstrumentInstructions::Dual(pair) => pair[0].wf() && pair[1].wf(),
            InstrumentInstructions::Ranged(rs) => {
                &&& rs.len() >= 1
                &&& forall|i: int| 0 <= i < rs.len() ==> (#[trigger] rs[i]).adsr.wf()
            },
            InstrumentInstructions::TimedMultiple(ts) => {
                &&& ts.len() >= 1
                &&& (forall|i: int| 0 <= i < ts.len()
                    ==> (#[trigger] ts[i]).1.wf() && ts[i].0 <= 0xFFFF)
                &&& (exists|i: int| 0 <= i < ts.len() && (#[trigger] ts[i]).0 == 0)
            },
            InstrumentInstructions::Random(vs) => {
                &&& vs.len() >= 1
                &&& forall|i: int| 0 <= i < vs.len() ==> (#[trigger] vs[i]).wf()
            },
            InstrumentInstructions::Cricket(cs) => {
                &&& cs.len() >= 1
                &&& forall|i: int| 0 <= i < cs.len() ==> (#[trigger] cs[i]).wf()
            },
        }
    }
}

/// The constraints a note trigger must satisfy against a stage set's range
/// before it can be resolved.
pub open spec fn spec_note_in_range(note: QueuedNote, range: (u32, u32)) -> bool {
    &&& note.note as u32 >= range.0
    &&& note.note as u32 - range.0 <= range.1 || range.1 == 0
    &&& note.note as u32 - range.0 <= 255
    &&& range.1 <= 0xFFFF
}

/// Whether this programmable-tone base reload selects a hardware-measured
/// lookup table (such timbres need a note step within the table).
pub open spec fn spec_psg_table_reload(base: u16) -> bool {
    base == 62868 || base == 22792 || base == 54852 || base == 41548
}

/// Maps a relative pitch adjustment schedule to exact reload values for a
/// note at `note_offset` semitones above a base reload.
fn resolve_pitch_adjustments(
    adjs: &Vec<TimedRelativePitchAdjustment>,
    base: u16,
    note_offset: u32,
) -> (r: Vec<crate::envelope::TimedPitchAdjustment>)
    requires
        spec_pitch_adjs_wf(adjs@),
        note_offset <= 255,
    ensures
        r.len() == adjs.len(),
        forall|i: int| 0 <= i < r.len()
            ==> (#[trigger] r[i]).time == adjs[i].time
                && r[i].timer_reload == crate::pitch::spec_reload_for_offset(
                    base,
                    note_offset * 0x1_0000 + adjs[i].pitch_adjust_q16,
                ),
{
    let mut r: Vec<crate::envelope::TimedPitchAdjustment> = Vec::new();
    let mut i: usize = 0;
    while i < adjs.len()
        invariant
            i <= adjs.len(),
            r.len() == i,
            note_offset <= 255,
            spec_pitch_adjs_wf(adjs@),
            forall|k: int| 0 <= k < i
                ==> (#[trigger] r[k]).time == adjs[k].time
                    && r[k].timer_reload == crate::pitch::spec_reload_for_offset(
                        base,
                        note_offset * 0x1_0000 + adjs[k].pitch_adjust_q16,
                    ),
        decreases adjs.len() - i,
    {
        let off: i64 = note_offset as i64 * 0x1_0000 + adjs[i].pitch_adjust_q16;
        let reload = crate::pitch::nth_micro_timer_reload(base, off);
        r.push(crate::envelope::TimedPitchAdjustment { time: adjs[i].time, timer_reload: reload });
        i = i + 1;
    }
    r
}

/// The volume range an instrument source spans across its pitch range.
pub open spec fn spec_sample_volume(s: InstrumentSample) -> (u32, u32) {
    match s {
        InstrumentSample::PCM16(smp) => smp.volume,
        InstrumentSample::PSG(smp) => smp.volume,
    }
}

/// The timer reload a resolved note programs: the hardware-measured table
/// for the four lookup-table tone timbres, the equal-tempered formula for
/// everything else.  Both paths are kept distinct on purpose.
pub open spec fn spec_note_reload(sample: InstrumentSample, note_offset: int) -> u16 {
    match sample {
        InstrumentSample::PCM16(s) => crate::pitch::spec_reload_for_offset(
            s.base_timer_reload, note_offset * 65536),
        InstrumentSample::PSG(p) => {
            if p.base_timer_reload == 62868 {
                crate::pitch::spec_nth_timer_reload_ting_ting(note_offset)
            } else if p.base_timer_reload == 22792 {
                crate::pitch::spec_nth_timer_reload_bong_bong(note_offset)
            } else if p.base_timer_reload == 54852 {
                crate::pitch::spec_nth_timer_reload_ding_ding(note_offset)
            } else if p.base_timer_reload == 41548 {
                crate::pitch::spec_nth_timer_reload_bing_bing(note_offset)
            } else {
                crate::pitch::spec_reload_for_offset(
                    p.base_timer_reload, note_offset * 65536)
            }
        },
    }
}

/// The release phase a note resolves from its descriptor, variant for
/// variant; a static level is interpolated at the note.
pub open spec fn spec_resolved_release(rel: Option<InstrumentRelease>, note_offset: int,
    until: int) -> Option<crate::envelope::ReleaseInstructions>
{
    match rel {
        Some(InstrumentRelease::Basic) => Some(crate::envelope::ReleaseInstructions::Basic),
        Some(InstrumentRelease::ExponentialUntil { duration, until: floor }) => {
            Some(crate::envelope::ReleaseInstructions::ExponentialUntil {
                duration, until: floor })
        },
        Some(InstrumentRelease::Geometric { ratio_q32 }) => {
            Some(crate::envelope::ReleaseInstructions::Geometric { ratio_q32 })
        },
        Some(InstrumentRelease::GeometricStopBlowing { ratio_q32 }) => {
            Some(crate::envelope::ReleaseInstructions::GeometricStopBlowing { ratio_q32 })
        },
        Some(InstrumentRelease::Static(v)) => {
            Some(crate::envelope::ReleaseInstructions::Static(
                crate::envelope::spec_interp_val(note_offset, v.0 as int, v.1 as int,
                    until) as u32))
        },
        Some(InstrumentRelease::KeepBlowing) => {
            Some(crate::envelope::ReleaseInstructions::KeepBlowing)
        },
        None => None,
    }
}

/// The per-tick Q32 decay ratio `decay_ratio` computes: the n-th root of
/// sustain over attack level, downward or upward.
pub open spec fn spec_decay_ratio(this_sustain: int, attack_volume: int,
    duration: int) -> int
{
    if attack_volume == 0 {
        0
    } else if this_sustain <= attack_volume {
        crate::fixed::spec_root_ratio_down_q32(this_sustain, attack_volume, duration)
    } else {
        crate::fixed::spec_root_ratio_up_q32(this_sustain, attack_volume, duration)
    }
}

/// Extra sustain ticks a variable-sustain decay moves out of its decay
/// span, interpolated at the note and clamped below the decay length.
pub open spec fn spec_sustain_addition(decay: Option<InstrumentDecay>, note_offset: int,
    until: int) -> int
{
    match decay {
        Some(InstrumentDecay::ExponentialWithVariableSustain { duration,
            sustain_duration }) => {
            let sa = crate::envelope::spec_interp_val(note_offset,
                sustain_duration.0 as int, sustain_duration.1 as int, until);
            if sa >= duration { duration - 1 } else { sa }
        },
        _ => 0,
    }
}

/// The level an instrument attack ends at for a note: the last tabulated
/// breakpoint interpolated at the note, or the note's own level.
pub open spec fn spec_resolved_attack_volume(adsr: Adsr, note_offset: int,
    until: int) -> int
{
    match adsr.attack {
        Some(InstrumentAttack::Exact { adjustments })
        | Some(InstrumentAttack::ExactWithMagicPitch { adjustments }) => {
            crate::envelope::spec_interp_val(note_offset,
                adjustments[adjustments.len() - 1].volume.0 as int,
                adjustments[adjustments.len() - 1].volume.1 as int, until)
        },
        None => crate::envelope::spec_interp_val(note_offset,
            spec_sample_volume(adsr.sample).0 as int,
            spec_sample_volume(adsr.sample).1 as int, until),
    }
}

/// The sustain level a note resolves: the descriptor's range interpolated
/// at the note, or the quiet floor of one.
pub open spec fn spec_resolved_this_sustain(adsr: Adsr, note_offset: int,
    until: int) -> int
{
    match adsr.sustain {
        Some(s) => crate::envelope::spec_interp_val(note_offset, s.volume.0 as int,
            s.volume.1 as int, until),
        None => crate::envelope::spec_interp_val(note_offset, 1, 1, until),
    }
}

/// The decay phase a note resolves: an exponential decay carries the ratio
/// from the resolved attack level to the resolved sustain level over its
/// span (shortened by a variable sustain's addition), a wobbling or rising
/// decay keeps its full span, a linear decay keeps its length.
pub open spec fn spec_resolved_decay(decay: InstrumentDecay, note_offset: int,
    until: int, attack_volume: int, this_sustain: int)
    -> crate::envelope::DecayEnvelope
{
    match decay {
        InstrumentDecay::Exponential { duration } => {
            crate::envelope::DecayEnvelope::Exponential {
                ratio_q32: spec_decay_ratio(this_sustain, attack_volume,
                    duration as int) as u64,
                duration,
            }
        },
        InstrumentDecay::ExponentialWithVariableSustain { duration, .. } => {
            let add = spec_sustain_addition(Some(decay), note_offset, until);
            crate::envelope::DecayEnvelope::Exponential {
                ratio_q32: spec_decay_ratio(this_sustain, attack_volume,
                    duration - add) as u64,
                duration: (duration - add) as u32,
            }
        },
        InstrumentDecay::ExponentialWithWobble { duration, .. } => {
            crate::envelope::DecayEnvelope::Exponential {
                ratio_q32: spec_decay_ratio(this_sustain, attack_volume,
                    duration as int) as u64,
                duration,
            }
        },
        InstrumentDecay::ExponentialRising { duration, .. } => {
            crate::envelope::DecayEnvelope::Exponential {
                ratio_q32: spec_decay_ratio(this_sustain, attack_volume,
                    duration as int) as u64,
                duration,
            }
        },
        InstrumentDecay::Linear { duration } => {
            crate::envelope::DecayEnvelope::Linear { duration }
        },
    }
}

/// Resolves a decay descriptor at a note: computes the per-tick Q32 ratio
/// toward the sustain level and appends any wobble or rise pitch schedule.
/// Returns the decay phase and the extra sustain ticks of a
/// variable-sustain decay.
fn resolve_decay(
    decay: &InstrumentDecay,
    note_offset: u32,
    until: u32,
    attack_volume: u32,
    this_sustain: u32,
    base_reload: u16,
    pitch_adjustments: &mut Vec<crate::envelope::TimedPitchAdjustment>,
) -> (r: (crate::envelope::DecayEnvelope, u32))
    requires
        decay.wf(),
        note_offset <= 255,
        until <= 0xFFFF,
        attack_volume <= MAX_ENGINE_VOLUME,
        this_sustain <= MAX_ENGINE_VOLUME,
    ensures
        r.0.wf(),
        r.1 <= 0xFFFF,
        r.0 == spec_resolved_decay(*decay, note_offset as int, until as int,
            attack_volume as int, this_sustain as int),
        r.1 == spec_sustain_addition(Some(*decay), note_offset as int, until as int),
{
    match decay {
        InstrumentDecay::Exponential { duration } => {
            let ratio = decay_ratio(this_sustain, attack_volume, *duration);
            (crate::envelope::DecayEnvelope::Exponential {
                ratio_q32: ratio, duration: *duration,
            }, 0)
        },
        InstrumentDecay::ExponentialWithVariableSustain { duration, sustain_duration } => {
            let sustain_addition = crate::envelope::interp_val_until(
                note_offset, *sustain_duration, until);
            // both range ends lie below the decay length, so the
            // interpolated addition does too (extrapolation is clamped)
            let add = if sustain_addition >= *duration { *duration - 1 } else { sustain_addition };
            let d = *duration - add;
            let ratio = decay_ratio(this_sustain, attack_volume, d);
            (crate::envelope::DecayEnvelope::Exponential { ratio_q32: ratio, duration: d }, add)
        },
        InstrumentDecay::ExponentialWithWobble {
            duration, wobble_start, max_wobble_q16, wave_duration } => {
            let mut ascending = true;
            let mut wobble: i64 = 0;
            let step: i64 = max_wobble_q16 / *wave_duration as i64 * 4;
            let mut i: u32 = *wobble_start;
            while i < *duration
                invariant
                    note_offset <= 255,
                    *duration <= 0xFFFF,
                    0 <= *max_wobble_q16 <= 0x10_0000,
                    0 <= step <= 0x40_0000,
                    -0x50_0000 <= wobble <= 0x50_0000,
                    i <= 0x1_0000,
                decreases *duration + 2 - i,
            {
                if ascending {
                    wobble = wobble + step;
                    if wobble >= *max_wobble_q16 {
                        ascending = false;
                    }
                }
                if !ascending {
                    wobble = wobble - step;
                    if wobble <= -*max_wobble_q16 {
                        ascending = true;
                    }
                }
                if wobble > 0x50_0000 {
                    wobble = 0x50_0000;
                } else if wobble < -0x50_0000 {
                    wobble = -0x50_0000;
                }
                let w = if wobble > 0x10_0000 { 0x10_0000i64 }
                    else if wobble < -0x10_0000 { -0x10_0000i64 }
                    else { wobble };
                let reload = crate::pitch::nth_micro_timer_reload(
                    base_reload, note_offset as i64 * 0x1_0000 + w);
                pitch_adjustments.push(crate::envelope::TimedPitchAdjustment {
                    time: i, timer_reload: reload,
                });
                i = i + 2;
            }
            let reload = crate::pitch::nth_micro_timer_reload(
                base_reload, note_offset as i64 * 0x1_0000);
            pitch_adjustments.push(crate::envelope::TimedPitchAdjustment {
                time: *duration + 1, timer_reload: reload,
            });
            let ratio = decay_ratio(this_sustain, attack_volume, *duration);
            (crate::envelope::DecayEnvelope::Exponential {
                ratio_q32: ratio, duration: *duration,
            }, 0)
        },
        InstrumentDecay::ExponentialRising { duration, rise_start, max_rise_q16 } => {
            let span: u32 = *duration - *rise_start;
            let step: i64 = *max_rise_q16 / span as i64 * 2;
            let mut rise: i64 = 0;
            let mut i: u32 = *rise_start;
            while i < *duration
                invariant
                    note_offset <= 255,
                    *duration <= 0xFFFF,
                    0 <= step <= 0x20_0000,
                    0 <= rise <= 0x30_0000,
                    i <= 0x1_0000,
                decreases *duration + 2 - i,
            {
                rise = rise + step;
                if rise > 0x30_0000 {
                    rise = 0x30_0000;
                }
                let w = if rise > 0x10_0000 { 0x10_0000i64 } else { rise };
                let reload = crate::pitch::nth_micro_timer_reload(
                    base_reload, note_offset as i64 * 0x1_0000 + w);
                pitch_adjustments.push(crate::envelope::TimedPitchAdjustment {
                    time: i, timer_reload: reload,
                });
                i = i + 2;
            }
            let ratio = decay_ratio(this_sustain, attack_volume, *duration);
            (crate::envelope::DecayEnvelope::Exponential {
                ratio_q32: ratio, duration: *duration,
            }, 0)
        },
        InstrumentDecay::Linear { duration } => {
            (crate::envelope::DecayEnvelope::Linear { duration: *duration }, 0)
        },
    }
}

/// Per-tick Q32 ratio that carries `attack_volume` to `this_sustain` over
/// `duration` ticks; a silent attack level decays straight to zero.
pub fn decay_ratio(this_sustain: u32, attack_volume: u32, duration: u32) -> (r: u64)
    requires
        this_sustain <= MAX_ENGINE_VOLUME,
        attack_volume <= MAX_ENGINE_VOLUME,
        1 <= duration,
    ensures
        r <= crate::fixed::MAX_RATIO_Q32,
        attack_volume == 0 ==> r == 0,
        this_sustain <= attack_volume ==> r < crate::fixed::ONE_Q32,
        r == spec_decay_ratio(this_sustain as int, attack_volume as int, duration as int),
{
    if attack_volume == 0 {
        return 0;
    }
    if this_sustain <= attack_volume {
        crate::fixed::root_ratio_down_q32(
            this_sustain as u64, attack_volume as u64, duration as u64)
    } else {
        crate::fixed::root_ratio_up_q32(
            this_sustain as u64, attack_volume as u64, duration as u64)
    }
}

/// Resolves one envelope stage set for a triggered note, programs the
/// hardware lane granted by the allocation policy, and installs the voice.
/// Returns the lane, or `None` when the pool yields no lane (a sequence or
/// catalog defect, reported rather than recovered from).
#[verifier::rlimit(100)]
pub fn add_adsr_to_channel(
    channel_manager: &mut crate::manager::ChannelManager,
    spu: &mut crate::spu::Spu,
    note: &QueuedNote,
    range: (u32, u32),
    instruments: &Vec<Instrument>,
    adsr: &Adsr,
    future_adsr: Vec<(u32, Adsr)>,
    tick: u64,
    previous_notes: &mut Vec<Option<u8>>,
    custom_pitch_adjustments: Option<PossiblePitchAdjustment>,
    repeat_count: usize,
) -> (r: Option<usize>)
    requires
        old(channel_manager).wf(),
        old(spu).wf(),
        adsr.wf(),
        crate::manager::QueuedSound::Note(*note).wf(),
        spec_note_in_range(*note, range),
        (note.instrument as int) < instruments.len(),
        (forall|i: int| 0 <= i < instruments.len() ==> (#[trigger] instruments[i]).wf()),
        spec_future_adsr_wf(future_adsr@),
        old(previous_notes).len() == 4,
        (note.track as int) < 4,
        tick <= 0xFFFF_FFFF,
        repeat_count <= 0x7_0000,
        custom_pitch_adjustments matches Some(PossiblePitchAdjustment::Unprocessed(v))
            ==> spec_pitch_adjs_wf(v@),
        (adsr.sample matches InstrumentSample::PSG(p)
            && spec_psg_table_reload(p.base_timer_reload))
            ==> note.note as u32 - range.0 < 25,
    ensures
        final(channel_manager).wf(),
        final(spu).wf(),
        final(previous_notes).len() == 4,
        r == match adsr.sample {
            InstrumentSample::PCM16(_) => crate::manager::spec_pcm_grant(
                old(channel_manager).channels@, note.track),
            InstrumentSample::PSG(_) => crate::manager::spec_psg_grant(
                old(channel_manager).channels@, note.track),
        },
        r matches Some(i) ==> i < 16 && (
            final(channel_manager).channels@[i as int] matches Channel::Used {
                sound, start_tick, true_time, ..
            } && sound == crate::manager::QueuedSound::Note(*note)
                && start_tick == tick
                && true_time == note.time + repeat_count * 32
        ),
        r matches Some(i) ==> final(spu).channels[i as int].key_on == true,
        r is None ==> final(channel_manager).channels@ == old(channel_manager).channels@,
        forall|k: int| 0 <= k < 16 && Some(k as usize) != r
            ==> #[trigger] final(channel_manager).channels@[k]
                == old(channel_manager).channels@[k],
        forall|k: int| 0 <= k < 16 && Some(k as usize) != r
            ==> #[trigger] final(spu).channels@[k] == old(spu).channels@[k],
        *final(spu) == (crate::spu::Spu { channels: final(spu).channels, ..*old(spu) }),
        // the granted lane's programmed registers: pan offset by the
        // trigger, the interpolated volume scaled by the trigger, the
        // note's timer reload, and for a sampled source its loop point,
        // length, source address and repeat mode
        r matches Some(i) ==> ({
            let no = note.note as int - range.0 as int;
            let un = range.1 as int;
            let iv = crate::envelope::spec_interp_val(no,
                spec_sample_volume(adsr.sample).0 as int,
                spec_sample_volume(adsr.sample).1 as int, un);
            let lane = final(spu).channels@[i as int];
            &&& lane.timer_reload == spec_note_reload(adsr.sample, no)
            &&& lane.pan == crate::spu::spec_pan_field(spec_clamped_pan(64,
                note.pan_addition as int))
            &&& lane.volume == crate::spu::spec_written_volume(
                iv * note.volume_multiplier_q16 as int / 0x1_0000)
            &&& (adsr.sample matches InstrumentSample::PCM16(s) ==> (
                lane.loop_pos == s.loop_pos
                && lane.length == s.length
                && lane.src_address == s.src_address
                && lane.control >> 24 == (if s.is_repeating { 200u32 } else { 208u32 })
            ))
            &&& (adsr.sample matches InstrumentSample::PSG(p) ==> (
                lane.loop_pos == old(spu).channels@[i as int].loop_pos
                && lane.length == old(spu).channels@[i as int].length
                && lane.src_address == old(spu).channels@[i as int].src_address
                && (lane.control >> 24) as int == 224 + p.table_index as int
            ))
        }),
        // the installed voice: the interpolated level, the note's range,
        // and the envelope resolved phase by phase from the descriptor
        r matches Some(i) ==> ({
            let no = note.note as int - range.0 as int;
            let un = range.1 as int;
            let iv = crate::envelope::spec_interp_val(no,
                spec_sample_volume(adsr.sample).0 as int,
                spec_sample_volume(adsr.sample).1 as int, un);
            &&& (final(channel_manager).channels@[i as int] matches Channel::Used {
                envelope: e, volume: v, range: rg, queued_samples, ..
            } && v == iv
                && rg == range
                && queued_samples.len() == 0
                && (e is Some <==> (adsr.attack is Some || adsr.decay is Some
                    || adsr.sustain is Some || adsr.release is Some))
                && (e matches Some(env) ==> (
                    env.initial_volume == iv
                    && (env.attack is Some <==> adsr.attack is Some)
                    && env.release == spec_resolved_release(adsr.release, no, un)
                    && (match adsr.sustain {
                        Some(su) => env.sustain == Some(crate::envelope::SustainEnvelope {
                            volume: crate::envelope::spec_interp_val(no,
                                su.volume.0 as int, su.volume.1 as int, un) as u32,
                            duration: (su.duration
                                + spec_sustain_addition(adsr.decay, no, un)) as u32,
                        }),
                        None => env.sustain is None,
                    })
                    && (match adsr.decay {
                        Some(d) => env.decay == Some(spec_resolved_decay(d, no, un,
                            spec_resolved_attack_volume(*adsr, no, un),
                            spec_resolved_this_sustain(*adsr, no, un))),
                        None => env.decay is None,
                    })
                ))
            )
        }),
{
    let channel_id_opt = match &adsr.sample {
        InstrumentSample::PCM16(_) => channel_manager.request_channel_pcm(note.track),
        InstrumentSample::PSG(_) => channel_manager.request_channel_psg(note.track),
    };
    let channel_id = match channel_id_opt {
        Some(i) => i,
        None => {
            return None;
        },
    };

    let (adsr_low, until_note) = range;
    let note_offset: u32 = note.note as u32 - adsr_low;
    let initial_volume = crate::envelope::interp_val_until(
        note_offset, adsr.sample.volume(), until_note);
    proof {
        assert(initial_volume <= MAX_ENGINE_VOLUME);
    }

    let attack_volume: u32 = match &adsr.attack {
        Some(InstrumentAttack::Exact { adjustments })
        | Some(InstrumentAttack::ExactWithMagicPitch { adjustments }) => {
            crate::envelope::interp_val_until(
                note_offset, adjustments[adjustments.len() - 1].volume, until_note)
        },
        None => initial_volume,
    };
    proof {
        assert(attack_volume <= MAX_ENGINE_VOLUME);
    }

    // program the hardware lane
    match &adsr.sample {
        InstrumentSample::PCM16(sample) => {
            let timer_reload = crate::pitch::nth_timer_reload(
                sample.base_timer_reload, note_offset as i32);
            spu.set_adjusted_channel_pan(channel_id, 64, note.pan_addition);
            spu.set_adjusted_channel_volume(
                channel_id, initial_volume, note.volume_multiplier_q16);
            spu.set_channel_timer_reload(channel_id, timer_reload as u32);
            spu.set_channel_loop_pos(channel_id, sample.loop_pos);
            spu.set_channel_length(channel_id, sample.length);
            spu.set_channel_src_address(channel_id, sample.src_address);
            spu.channel_play_note(channel_id, sample.is_repeating);
        },
        InstrumentSample::PSG(sample) => {
            let timer_reload: u16 = if sample.base_timer_reload == 62868 {
                crate::pitch::nth_timer_reload_ting_ting(note_offset as i32)
            } else if sample.base_timer_reload == 22792 {
                crate::pitch::nth_timer_reload_bong_bong(note_offset as i32)
            } else if sample.base_timer_reload == 54852 {
                crate::pitch::nth_timer_reload_ding_ding(note_offset as i32)
            } else if sample.base_timer_reload == 41548 {
                crate::pitch::nth_timer_reload_bing_bing(note_offset as i32)
            } else {
                crate::pitch::nth_timer_reload(sample.base_timer_reload, note_offset as i32)
            };
            spu.set_adjusted_channel_pan(channel_id, 64, note.pan_addition);
            spu.set_adjusted_channel_volume(
                channel_id, initial_volume, note.volume_multiplier_q16);
            spu.set_channel_timer_reload(channel_id, timer_reload as u32);
            spu.channel_play_psg(channel_id, sample.table_index);
        },
    }

    let base_reload = adsr.sample.base_timer_reload();
    let mut pitch_adjustments: Vec<crate::envelope::TimedPitchAdjustment> =
        match custom_pitch_adjustments {
            Some(PossiblePitchAdjustment::Unprocessed(raw)) => {
                resolve_pitch_adjustments(&raw, base_reload, note_offset)
            },
            Some(PossiblePitchAdjustment::Exact(exact)) => exact,
            None => {
                let ins = &instruments[note.instrument as usize];
                resolve_pitch_adjustments(&ins.pitch_adjustments, base_reload, note_offset)
            },
        };

    let sustain_range: (u32, u32) = match &adsr.sustain {
        Some(s) => s.volume,
        None => (1, 1),
    };
    let this_sustain = crate::envelope::interp_val_until(
        note_offset, sustain_range, until_note);
    proof {
        assert(this_sustain <= MAX_ENGINE_VOLUME);
    }

    let mut sustain_addition: u32 = 0;
    let decay_envelope: Option<crate::envelope::DecayEnvelope> = match &adsr.decay {
        Some(decay_desc) => {
            let resolved = resolve_decay(decay_desc, note_offset, until_note,
                attack_volume, this_sustain, base_reload, &mut pitch_adjustments);
            sustain_addition = resolved.1;
            Some(resolved.0)
        },
        None => None,
    };

    let sustain_envelope: Option<crate::envelope::SustainEnvelope> = match &adsr.sustain {
        Some(sustain) => Some(crate::envelope::SustainEnvelope {
            volume: crate::envelope::interp_val_until(
                note_offset, sustain.volume, until_note),
            duration: sustain.duration + sustain_addition,
        }),
        None => None,
    };

    let release_envelope: Option<crate::envelope::ReleaseInstructions> = match &adsr.release {
        Some(InstrumentRelease::Basic) => Some(crate::envelope::ReleaseInstructions::Basic),
        Some(InstrumentRelease::ExponentialUntil { duration, until }) => {
            Some(crate::envelope::ReleaseInstructions::ExponentialUntil {
                duration: *duration, until: *until,
            })
        },
        Some(InstrumentRelease::Geometric { ratio_q32 }) => {
            Some(crate::envelope::ReleaseInstructions::Geometric { ratio_q32: *ratio_q32 })
        },
        Some(InstrumentRelease::GeometricStopBlowing { ratio_q32 }) => {
            Some(crate::envelope::ReleaseInstructions::GeometricStopBlowing {
                ratio_q32: *ratio_q32,
            })
        },
        Some(InstrumentRelease::Static(value)) => {
            let v = crate::envelope::interp_val_until(note_offset, *value, until_note);
            proof {
                assert(v <= MAX_ENGINE_VOLUME);
            }
            Some(crate::envelope::ReleaseInstructions::Static(v))
        },
        Some(InstrumentRelease::KeepBlowing) => {
            Some(crate::envelope::ReleaseInstructions::KeepBlowing)
        },
        None => None,
    };

    let attack_envelope: Option<crate::envelope::AttackEnvelope> = match &adsr.attack {
        Some(InstrumentAttack::Exact { adjustments }) => {
            Some(crate::envelope::AttackEnvelope::Exact {
                adjustments: interp_attack_table(adjustments, note_offset, until_note),
            })
        },
        Some(InstrumentAttack::ExactWithMagicPitch { adjustments }) => {
            // glide the pitch from the track's previous note in half-step
            // hops before this note's ramp begins
            if let Some(previous_note) = previous_notes[note.track as usize] {
                let mut n: u8 = previous_note;
                let mut time: u32 = 0;
                while n != note.note
                    invariant
                        time + 2 * (if n < note.note { note.note - n } else { n - note.note })
                            <= 2 * 256,
                        spu.wf(),
                    decreases if n < note.note { note.note - n } else { n - note.note },
                {
                    let up = n < note.note;
                    time = time + 1;
                    let half: i64 = if up { 0x8000 } else { -0x8000 };
                    let reload1 = crate::pitch::nth_micro_timer_reload(
                        base_reload, n as i64 * 0x1_0000 + half);
                    pitch_adjustments.push(crate::envelope::TimedPitchAdjustment {
                        time, timer_reload: reload1,
                    });
                    if up {
                        n = n + 1;
                    } else {
                        n = n - 1;
                    }
                    time = time + 1;
                    let reload2 = crate::pitch::nth_micro_timer_reload(
                        base_reload, n as i64 * 0x1_0000);
                    pitch_adjustments.push(crate::envelope::TimedPitchAdjustment {
                        time, timer_reload: reload2,
                    });
                }
            }
            previous_notes.set(note.track as usize, Some(note.note));
            Some(crate::envelope::AttackEnvelope::Exact {
                adjustments: interp_attack_table(adjustments, note_offset, until_note),
            })
        },
        None => None,
    };

    let envelope: Option<crate::envelope::Envelope> = if attack_envelope.is_none()
        && decay_envelope.is_none()
        && sustain_envelope.is_none()
        && release_envelope.is_none() {
        None
    } else {
        Some(crate::envelope::Envelope {
            attack: attack_envelope,
            initial_volume,
            decay: decay_envelope,
            sustain: sustain_envelope,
            release: release_envelope,
        })
    };

    channel_manager.allocate_pcm(
        channel_id,
        *note,
        envelope,
        initial_volume,
        pitch_adjustments,
        future_adsr,
        tick,
        range,
        note.time as usize + repeat_count * crate::TRACK_LENGTH,
    );

    Some(channel_id)
}

/// Interpolates an instrument's attack table at a note.
fn interp_attack_table(
    adjs: &Vec<InstrumentTimedVolumeAdjustment>,
    note_offset: u32,
    until: u32,
) -> (r: Vec<TimedVolumeAdjustment>)
    requires
        spec_ivol_adjs_wf(adjs@),
        note_offset <= until || until == 0,
        note_offset <= 255,
        until <= 0xFFFF,
    ensures
        r.len() == adjs.len(),
        (crate::envelope::AttackEnvelope::Exact { adjustments: r }).wf(),
        forall|i: int| 0 <= i < r.len()
            ==> (#[trigger] r[i]).time == adjs[i].time
                && r[i].volume == crate::envelope::spec_interp_val(
                    note_offset as int,
                    adjs[i].volume.0 as int,
                    adjs[i].volume.1 as int,
                    until as int,
                ),
{
    let mut r: Vec<TimedVolumeAdjustment> = Vec::new();
    let mut i: usize = 0;
    while i < adjs.len()
        invariant
            i <= adjs.len(),
            r.len() == i,
            spec_ivol_adjs_wf(adjs@),
            note_offset <= until || until == 0,
            note_offset <= 255,
            until <= 0xFFFF,
            forall|k: int| 0 <= k < i
                ==> (#[trigger] r[k]).time == adjs[k].time
                    && r[k].volume == crate::envelope::spec_interp_val(
                        note_offset as int,
                        adjs[k].volume.0 as int,
                        adjs[k].volume.1 as int,
                        until as int,
                    )
                    && r[k].volume <= MAX_ENGINE_VOLUME
                    && r[k].time <= 0xFFFF,
        decreases adjs.len() - i,
    {
        let v = crate::envelope::interp_val_until(note_offset, adjs[i].volume, until);
        proof {
            if until == 0 {
                assert((adjs@[i as int].volume.0 + adjs@[i as int].volume.1) / 2
                    <= MAX_ENGINE_VOLUME);
            }
        }
        r.push(TimedVolumeAdjustment { time: adjs[i].time, volume: v });
        i = i + 1;
    }
    r
}

/// The level an envelope's attack phase ends at: the ramp target, the last
/// tabulated breakpoint, or the note's own level when there is no attack.
pub open spec fn spec_attack_last_volume(env: crate::envelope::Envelope) -> int {
    match env.attack {
        Some(crate::envelope::AttackEnvelope::Linear { volume, .. }) => volume as int,
        Some(crate::envelope::AttackEnvelope::Exact { adjustments }) => {
            adjustments[adjustments.len() - 1].volume as int
        },
        None => env.initial_volume as int,
    }
}

/// Ticks an envelope's attack phase spans.
pub open spec fn spec_attack_duration(env: crate::envelope::Envelope) -> int {
    match env.attack {
        Some(crate::envelope::AttackEnvelope::Linear { duration, .. }) => duration as int,
        Some(crate::envelope::AttackEnvelope::Exact { adjustments }) => {
            crate::envelope::AttackEnvelope::spec_max_time(adjustments@)
        },
        None => 0,
    }
}

/// Ticks an envelope's decay phase spans.
pub open spec fn spec_decay_duration(env: crate::envelope::Envelope) -> int {
    match env.decay {
        Some(crate::envelope::DecayEnvelope::Linear { duration }) => duration as int,
        Some(crate::envelope::DecayEnvelope::Exponential { duration, .. }) => duration as int,
        None => 0,
    }
}

/// An envelope's sustain phase, or a silent zero-length one.
pub open spec fn spec_env_sustain(env: crate::envelope::Envelope)
    -> crate::envelope::SustainEnvelope
{
    match env.sustain {
        Some(s) => s,
        None => crate::envelope::SustainEnvelope { volume: 0, duration: 0 },
    }
}

/// The per-tick Q32 ratio a bounded-duration release derives when it
/// begins: the ratio carrying the sustain level to the fixed floor of 0.08
/// over the declared duration.
pub open spec fn spec_release_exp_ratio(sustain_volume: int, duration: int) -> int {
    if sustain_volume == 0 {
        0
    } else {
        crate::fixed::spec_root_ratio_down_q32(2, 25 * sustain_volume, duration)
    }
}

/// The envelope phase rules as one function of the envelope, the
/// voice-relative tick and the previous Q32 accumulator: the volume, new
/// accumulator and release-completion flag `eval_envelope_volume` returns.
pub open spec fn spec_eval_envelope(env: crate::envelope::Envelope, tick: int, acc0: int)
    -> (int, int, bool)
{
    let me = MAX_ENGINE_VOLUME as int;
    let one = 0x1_0000_0000;
    let ad = spec_attack_duration(env);
    let av = spec_attack_last_volume(env);
    let dd = spec_decay_duration(env);
    let sus = spec_env_sustain(env);
    if tick < ad {
        let t = if tick > 0xFFFF { 0xFFFF } else { tick };
        let v = match env.attack {
            Some(crate::envelope::AttackEnvelope::Linear { volume, duration }) => {
                crate::envelope::spec_interp_val(
                    t, env.initial_volume as int, volume as int, duration as int)
            },
            Some(crate::envelope::AttackEnvelope::Exact { adjustments }) => {
                crate::envelope::spec_latest_breakpoint(
                    adjustments@, t, env.initial_volume as int)
            },
            None => env.initial_volume as int,
        };
        let v2 = if v > me { me } else { v };
        (v2, v2 * one, false)
    } else if tick - ad < dd {
        let dt = tick - ad;
        match env.decay {
            Some(crate::envelope::DecayEnvelope::Exponential { ratio_q32, .. }) => {
                let acc = if dt == 0 {
                    av * one
                } else {
                    let stepped = crate::fixed::spec_q32_mul(acc0, ratio_q32 as int);
                    if stepped > crate::fixed::MAX_ACC_Q32 as int {
                        crate::fixed::MAX_ACC_Q32 as int
                    } else {
                        stepped
                    }
                };
                let v = acc / one;
                let v2 = if v > me { me } else { v };
                (v2, acc, false)
            },
            Some(crate::envelope::DecayEnvelope::Linear { duration }) => {
                let t = if dt > 0xFFFF { 0xFFFF } else { dt };
                let v = crate::envelope::spec_interp_val(
                    t, av, sus.volume as int, duration as int);
                let v2 = if v > me { me } else { v };
                (v2, v2 * one, false)
            },
            None => (0, 0, false),
        }
    } else if tick - ad - dd <= sus.duration {
        (sus.volume as int, sus.volume as int * one, false)
    } else {
        match env.release {
            Some(crate::envelope::ReleaseInstructions::Exponential { duration })
            | Some(crate::envelope::ReleaseInstructions::ExponentialUntil {
                duration, .. }) => {
                let ratio = spec_release_exp_ratio(sus.volume as int, duration as int);
                let stepped = crate::fixed::spec_q32_mul(acc0, ratio);
                let v = stepped / one;
                let v2 = if v > me { me } else { v };
                (v2, stepped, stepped <= crate::envelope::RELEASE_END_Q32 as int)
            },
            Some(crate::envelope::ReleaseInstructions::Geometric { ratio_q32 })
            | Some(crate::envelope::ReleaseInstructions::GeometricStopBlowing {
                ratio_q32 }) => {
                let stepped = crate::fixed::spec_q32_mul(acc0, ratio_q32 as int);
                let v = stepped / one;
                let v2 = if v > me { me } else { v };
                (v2, stepped, stepped <= crate::envelope::RELEASE_END_Q32 as int)
            },
            Some(crate::envelope::ReleaseInstructions::Basic) => {
                let stepped = crate::fixed::spec_q32_mul(
                    acc0, crate::envelope::RELEASE_BASIC_RATIO_Q32 as int);
                let v = stepped / one;
                let v2 = if v > me { me } else { v };
                (v2, stepped, stepped <= crate::envelope::RELEASE_END_Q32 as int)
            },
            Some(crate::envelope::ReleaseInstructions::Static(value)) => {
                (value as int, value as int * one, true)
            },
            None | Some(crate::envelope::ReleaseInstructions::KeepBlowing) => {
                (1, one, true)
            },
        }
    }
}

/// Computes a voice's envelope volume for voice-relative tick `tick`, from
/// the phase the tick lands in: attack ramp, decay toward sustain, flat
/// sustain, then the release curve.  `acc0` is the voice's Q32 volume
/// accumulator from the previous tick; exponential phases advance it by
/// their per-tick ratio.  Returns the new volume, the new accumulator and
/// whether the release has run its course.
pub fn eval_envelope_volume(env: &crate::envelope::Envelope, tick: u64, acc0: u64)
    -> (res: (u32, u64, bool))
    requires
        env.wf(),
        acc0 <= crate::fixed::MAX_ACC_Q32,
        tick <= 0xFFFF_FFFF,
    ensures
        res.0 <= MAX_ENGINE_VOLUME,
        res.1 <= crate::fixed::MAX_ACC_Q32,
        res.0 == spec_eval_envelope(*env, tick as int, acc0 as int).0,
        res.1 == spec_eval_envelope(*env, tick as int, acc0 as int).1,
        res.2 == spec_eval_envelope(*env, tick as int, acc0 as int).2,
{
    let attack_volume: u32 = match &env.attack {
        Some(a) => a.last_volume(),
        None => env.initial_volume,
    };
    let attack_duration: u64 = match &env.attack {
        Some(a) => a.duration() as u64,
        None => 0,
    };
    let sustain = match &env.sustain {
        Some(s) => *s,
        None => crate::envelope::SustainEnvelope { volume: 0, duration: 0 },
    };
    let decay = match &env.decay {
        Some(d) => *d,
        None => crate::envelope::DecayEnvelope::Linear { duration: 0 },
    };
    let decay_duration: u64 = decay.duration() as u64;

    if tick < attack_duration {
        // attack phase
        let v: u32 = match &env.attack {
            Some(crate::envelope::AttackEnvelope::Linear { volume, duration }) => {
                let t: u32 = if tick > 0xFFFF { 0xFFFF } else { tick as u32 };
                crate::envelope::interp_val_until(t, (env.initial_volume, *volume), *duration)
            },
            Some(crate::envelope::AttackEnvelope::Exact { adjustments }) => {
                let t: u32 = if tick > 0xFFFF { 0xFFFF } else { tick as u32 };
                crate::envelope::latest_breakpoint(adjustments, t, env.initial_volume)
            },
            None => env.initial_volume,
        };
        let v2 = if v > MAX_ENGINE_VOLUME { MAX_ENGINE_VOLUME } else { v };
        (v2, v2 as u64 * 0x1_0000_0000, false)
    } else if tick - attack_duration < decay_duration {
        // decay phase
        let decay_tick = tick - attack_duration;
        match decay {
            crate::envelope::DecayEnvelope::Exponential { ratio_q32, duration } => {
                let acc = if decay_tick == 0 {
                    attack_volume as u64 * 0x1_0000_0000
                } else {
                    let stepped = crate::envelope::envelope_acc_step(acc0, ratio_q32);
                    if stepped > crate::fixed::MAX_ACC_Q32 {
                        crate::fixed::MAX_ACC_Q32
                    } else {
                        stepped
                    }
                };
                let v = (acc / 0x1_0000_0000) as u32;
                let v2 = if v > MAX_ENGINE_VOLUME { MAX_ENGINE_VOLUME } else { v };
                (v2, acc, false)
            },
            crate::envelope::DecayEnvelope::Linear { duration } => {
                let t: u32 = if decay_tick > 0xFFFF { 0xFFFF } else { decay_tick as u32 };
                let v = crate::envelope::interp_val_until(
                    t, (attack_volume, sustain.volume), duration);
                let v2 = if v > MAX_ENGINE_VOLUME { MAX_ENGINE_VOLUME } else { v };
                (v2, v2 as u64 * 0x1_0000_0000, false)
            },
        }
    } else if tick - attack_duration - decay_duration <= sustain.duration as u64 {
        // sustain phase
        (sustain.volume, sustain.volume as u64 * 0x1_0000_0000, false)
    } else {
        // release phase
        let mut freed = false;
        let (volume, acc): (u32, u64) = match &env.release {
            Some(crate::envelope::ReleaseInstructions::Exponential { duration })
            | Some(crate::envelope::ReleaseInstructions::ExponentialUntil { duration, .. }) => {
                // per-tick ratio carrying the sustain level to the fixed
                // floor of 0.08 over the declared duration
                let ratio = if sustain.volume == 0 {
                    0
                } else {
                    crate::fixed::root_ratio_down_q32(
                        2, 25 * sustain.volume as u64, *duration as u64)
                };
                let stepped = crate::envelope::envelope_acc_step(acc0, ratio);
                let v = (stepped / 0x1_0000_0000) as u32;
                let v2 = if v > MAX_ENGINE_VOLUME { MAX_ENGINE_VOLUME } else { v };
                if stepped <= crate::envelope::RELEASE_END_Q32 {
                    freed = true;
                }
                (v2, stepped)
            },
            Some(crate::envelope::ReleaseInstructions::Geometric { ratio_q32 })
            | Some(crate::envelope::ReleaseInstructions::GeometricStopBlowing { ratio_q32 }) => {
                let stepped = crate::envelope::envelope_acc_step(acc0, *ratio_q32);
                let v = (stepped / 0x1_0000_0000) as u32;
                let v2 = if v > MAX_ENGINE_VOLUME { MAX_ENGINE_VOLUME } else { v };
                if stepped <= crate::envelope::RELEASE_END_Q32 {
                    freed = true;
                }
                (v2, stepped)
            },
            Some(crate::envelope::ReleaseInstructions::Basic) => {
                let stepped = crate::envelope::envelope_acc_step(
                    acc0, crate::envelope::RELEASE_BASIC_RATIO_Q32);
                let v = (stepped / 0x1_0000_0000) as u32;
                let v2 = if v > MAX_ENGINE_VOLUME { MAX_ENGINE_VOLUME } else { v };
                if stepped <= crate::envelope::RELEASE_END_Q32 {
                    freed = true;
                }
                (v2, stepped)
            },
            Some(crate::envelope::ReleaseInstructions::Static(value)) => {
                freed = true;
                (*value, *value as u64 * 0x1_0000_0000)
            },
            None | Some(crate::envelope::ReleaseInstructions::KeepBlowing) => {
                // a missing release holds the lane at unit volume, which
                // the tear-down threshold immediately collects
                freed = true;
                (1, 0x1_0000_0000)
            },
        };
        (volume, acc, freed)
    }
}

/// Within a single attack phase the engine's computed volume never falls:
/// at two ticks inside the attack span of a linear ramp toward a target at
/// or above the starting level, or of an exactly tabulated ramp whose
/// breakpoints rise from that level, the later evaluation yields at least
/// the earlier one's volume, whatever the accumulators were.
pub proof fn lemma_eval_attack_monotone(env: crate::envelope::Envelope, t1: int, t2: int,
    a1: int, a2: int)
    requires
        env.wf(),
        0 <= t1 <= t2 < spec_attack_duration(env),
        match env.attack {
            Some(crate::envelope::AttackEnvelope::Linear { volume, .. }) => {
                env.initial_volume <= volume
            },
            Some(crate::envelope::AttackEnvelope::Exact { adjustments }) => {
                &&& crate::envelope::spec_breakpoints_ascending(adjustments@)
                &&& forall|i: int| 0 <= i < adjustments@.len()
                    ==> env.initial_volume <= (#[trigger] adjustments@[i]).volume
            },
            None => true,
        },
    ensures
        spec_eval_envelope(env, t1, a1).0 <= spec_eval_envelope(env, t2, a2).0,
{
    let me = MAX_ENGINE_VOLUME as int;
    match env.attack {
        Some(crate::envelope::AttackEnvelope::Linear { volume, duration }) => {
            assert(t2 <= 0xFFFF);
            crate::envelope::lemma_interp_monotone(t1, t2, env.initial_volume as int,
                volume as int, duration as int);
        },
        Some(crate::envelope::AttackEnvelope::Exact { adjustments }) => {
            crate::envelope::lemma_max_time_bound(adjustments@);
            assert(t2 <= 0xFFFF);
            crate::envelope::lemma_attack_breakpoints_monotone(adjustments@, t1, t2,
                env.initial_volume as int);
        },
        None => {},
    }
}

/// In the release phase every curve but a static snap or a held breath
/// shrinks the accumulator: the evaluation's new accumulator never exceeds
/// the previous one and strictly falls while it is positive, so release
/// volume is non-increasing tick over tick and reaches the tear-down
/// threshold.
pub proof fn lemma_eval_release_decreases(env: crate::envelope::Envelope, tick: int,
    acc0: int)
    requires
        env.wf(),
        0 <= acc0 <= crate::fixed::MAX_ACC_Q32,
        tick - spec_attack_duration(env) - spec_decay_duration(env)
            > spec_env_sustain(env).duration,
        match env.release {
            Some(crate::envelope::ReleaseInstructions::Basic)
            | Some(crate::envelope::ReleaseInstructions::Exponential { .. })
            | Some(crate::envelope::ReleaseInstructions::ExponentialUntil { .. })
            | Some(crate::envelope::ReleaseInstructions::Geometric { .. })
            | Some(crate::envelope::ReleaseInstructions::GeometricStopBlowing { .. }) => true,
            _ => false,
        },
    ensures
        spec_eval_envelope(env, tick, acc0).1 <= acc0,
        acc0 > 0 ==> spec_eval_envelope(env, tick, acc0).1 < acc0,
{
    let one = crate::fixed::ONE_Q32 as int;
    let sus = spec_env_sustain(env);
    assert(tick >= spec_attack_duration(env));
    let ratio: int = match env.release {
        Some(crate::envelope::ReleaseInstructions::Exponential { duration })
        | Some(crate::envelope::ReleaseInstructions::ExponentialUntil { duration, .. }) => {
            spec_release_exp_ratio(sus.volume as int, duration as int)
        },
        Some(crate::envelope::ReleaseInstructions::Geometric { ratio_q32 })
        | Some(crate::envelope::ReleaseInstructions::GeometricStopBlowing { ratio_q32 }) => {
            ratio_q32 as int
        },
        _ => crate::envelope::RELEASE_BASIC_RATIO_Q32 as int,
    };
    match env.release {
        Some(crate::envelope::ReleaseInstructions::Exponential { duration })
        | Some(crate::envelope::ReleaseInstructions::ExponentialUntil { duration, .. }) => {
            if sus.volume != 0 {
                crate::fixed::lemma_root_ratio_down_bounds(2, 25 * sus.volume as int,
                    duration as int);
            }
        },
        _ => {},
    }
    assert(0 <= ratio < one);
    crate::fixed::lemma_q32_mul_no_increase(acc0, ratio);
    if acc0 > 0 {
        crate::fixed::lemma_q32_mul_decreases(acc0, ratio);
    }
    assert(spec_eval_envelope(env, tick, acc0).1 == crate::fixed::spec_q32_mul(acc0, ratio));
}

/// Whether song position `tiny_tick` lands on the envelope grid of a
/// voice that started at song step `true_time`.
pub open spec fn spec_on_grid(true_time: int, note_rate: int, tiny_tick: int) -> bool {
    &&& true_time * note_rate <= tiny_tick
    &&& (tiny_tick - true_time * note_rate) % (crate::EVENT_TIMING as int) == 0
}

/// Grid evaluations since the voice's start step.
pub open spec fn spec_grid_tick_abs(true_time: int, note_rate: int, tiny_tick: int) -> int {
    (tiny_tick - true_time * note_rate) / (crate::EVENT_TIMING as int)
}

/// The voice-relative envelope tick: grid evaluations past the voice's own
/// start tick, clamped at zero.
pub open spec fn spec_voice_tick(true_time: int, note_rate: int, start_tick: int,
    tiny_tick: int) -> int
{
    let abs = spec_grid_tick_abs(true_time, note_rate, tiny_tick);
    if start_tick > abs { 0 } else { abs - start_tick }
}

/// The last pitch adjustment of the schedule whose time has come: the most
/// recent one wins.
pub open spec fn spec_latest_due_reload(adjs: Seq<crate::envelope::TimedPitchAdjustment>,
    tick: int) -> Option<u16>
    decreases adjs.len()
{
    if adjs.len() == 0 {
        None
    } else if adjs.last().time <= tick {
        Some(adjs.last().timer_reload)
    } else {
        spec_latest_due_reload(adjs.drop_last(), tick)
    }
}

/// The last queued one-shot sample scheduled exactly at `tick`, if any.
pub open spec fn spec_due_retrigger(qs: Seq<(DrumSample, u32)>, tick: int)
    -> Option<DrumSample>
    decreases qs.len()
{
    if qs.len() == 0 {
        None
    } else if qs.last().1 == tick {
        Some(qs.last().0)
    } else {
        spec_due_retrigger(qs.drop_last(), tick)
    }
}

/// The last breakpoint of an exact attack table scheduled exactly at
/// `tick`, if any.
pub open spec fn spec_attack_hit(adjs: Seq<TimedVolumeAdjustment>, tick: int)
    -> Option<u32>
    decreases adjs.len()
{
    if adjs.len() == 0 {
        None
    } else if adjs.last().time == tick {
        Some(adjs.last().volume)
    } else {
        spec_attack_hit(adjs.drop_last(), tick)
    }
}

/// One release-curve step of a freeing voice: the new Q32 accumulator
/// under the voice's own resolved release curve.
pub open spec fn spec_freeing_step_acc(acc: int,
    release: Option<crate::envelope::ReleaseInstructions>) -> int
{
    match release {
        Some(crate::envelope::ReleaseInstructions::Basic)
        | Some(crate::envelope::ReleaseInstructions::Exponential { .. })
        | Some(crate::envelope::ReleaseInstructions::ExponentialUntil { .. }) => {
            crate::fixed::spec_q32_mul(acc, crate::envelope::RELEASE_BASIC_RATIO_Q32 as int)
        },
        Some(crate::envelope::ReleaseInstructions::Geometric { ratio_q32 }) => {
            crate::fixed::spec_q32_mul(acc, ratio_q32 as int)
        },
        Some(crate::envelope::ReleaseInstructions::GeometricStopBlowing { .. })
        | Some(crate::envelope::ReleaseInstructions::Static(_)) => 0x1_0000_0000,
        None => crate::fixed::spec_q32_mul(acc, crate::envelope::HALF_RATIO_Q32 as int),
        Some(crate::envelope::ReleaseInstructions::KeepBlowing) => {
            crate::fixed::spec_q32_mul(acc, crate::envelope::KEEP_BLOWING_RATIO_Q32 as int)
        },
    }
}

/// A voice whose envelope is an attack ramp alone: such a voice only ever
/// replays tabulated breakpoints, it is never torn down by evaluation.
pub open spec fn spec_attack_only(v: Channel) -> bool {
    match v {
        Channel::Used { envelope: Some(e), .. } => {
            e.attack is Some && e.decay is None && e.sustain is None && e.release is None
        },
        _ => false,
    }
}

/// A pan byte offset by a trigger's stereo offset, clamped to a byte.
pub open spec fn spec_clamped_pan(pan: int, add: int) -> int {
    if pan + add < 0 { 0 } else if pan + add > 255 { 255 } else { pan + add }
}

/// Lane state after a queued drum sample retriggers it: the sample's pan
/// (offset by the trigger), its volume (scaled by the trigger), timer
/// reload, loop position, length and source address programmed, and the
/// lane keyed on in sampled-note mode with its repeat bits.
pub open spec fn spec_retriggered_lane(pre: crate::channel::SpuChannel,
    post: crate::channel::SpuChannel, s: DrumSample,
    snd: crate::manager::QueuedSound) -> bool
{
    let ap = spec_clamped_pan(s.base_pan as int, snd.spec_pan_addition() as int);
    let sv = s.volume as int * snd.spec_volume_multiplier() as int / 0x1_0000;
    &&& post.pan == crate::spu::spec_pan_field(ap)
    &&& post.volume == crate::spu::spec_written_volume(sv)
    &&& post.volume_shift == crate::spu::spec_written_shift(sv)
    &&& post.timer_reload == s.timer_reload
    &&& post.loop_pos == s.loop_pos
    &&& post.length == s.length
    &&& post.src_address == s.src_address
    &&& post.key_on == true
    &&& post.control >> 24 == (if s.is_repeating { 200u32 } else { 208u32 })
    &&& post.pan == crate::channel::spec_ctrl_pan(post.control)
    &&& post.volume == crate::channel::spec_ctrl_volume(post.control)
    &&& post.volume_shift == crate::channel::spec_ctrl_shift(post.control)
    &&& post == (crate::channel::SpuChannel {
        control: post.control,
        volume: post.volume,
        volume_shift: post.volume_shift,
        pan: post.pan,
        key_on: post.key_on,
        timer_reload: post.timer_reload,
        loop_pos: post.loop_pos,
        length: post.length,
        src_address: post.src_address,
        ..pre
    })
}

/// Advances one voice at song position `tiny_tick`: on the voice's
/// envelope grid it applies due pitch adjustments and queued retriggers,
/// evaluates the envelope into the hardware volume register, tears the
/// voice down when its release has finished, and decays releasing voices
/// until they fall silent and open up.  Returns true when the voice wants
/// to be re-armed with its next queued envelope stage.
#[verifier::rlimit(100)]
pub fn advance_voice(
    spu: &mut crate::spu::Spu,
    voice: &mut Channel,
    channel_id: usize,
    tiny_tick: usize,
    note_rate: usize,
) -> (rearm: bool)
    requires
        old(spu).wf(),
        old(voice).wf(),
        channel_id < 16,
        1 <= note_rate <= 0x1_0000,
        tiny_tick <= 0xFF_FFFF_FFFF,
    ensures
        final(spu).wf(),
        final(voice).wf(),
        (*old(voice) is Used) ==> (*final(voice) is Used || *final(voice) is Open),
        (*old(voice) is Freeing) ==> (*final(voice) is Freeing || *final(voice) is Open),
        (*old(voice) is Open) ==> *final(voice) == *old(voice),
        (*old(voice) is Withheld || *old(voice) is Blocked) ==> *final(voice) == *old(voice),
        rearm ==> (*old(voice) matches Channel::Used { future_adsr, .. }
            && future_adsr.len() > 0),
        (match *final(voice) {
            Channel::Used { future_adsr: fa2, .. } => match *old(voice) {
                Channel::Used { future_adsr: fa1, .. } => fa1 == fa2,
                _ => false,
            },
            _ => true,
        }),
        forall|k: int| 0 <= k < 16 && k != channel_id
            ==> #[trigger] final(spu).channels@[k] == old(spu).channels@[k],
        *final(spu) == (crate::spu::Spu { channels: final(spu).channels, ..*old(spu) }),
        // off the voice's envelope grid nothing moves at all
        (match *old(voice) {
            Channel::Used { true_time, .. } => {
                !spec_on_grid(true_time as int, note_rate as int, tiny_tick as int)
            },
            Channel::Freeing { true_time, .. } => {
                !spec_on_grid(true_time as int, note_rate as int, tiny_tick as int)
            },
            _ => true,
        }) ==> (*final(voice) == *old(voice) && *final(spu) == *old(spu)
            && rearm == false),
        // a releasing voice steps its own release curve on its grid,
        // writes the decayed level to the lane's volume register and opens
        // up once silent
        *old(voice) matches Channel::Freeing {
            sound, initial_release_volume, volume, volume_acc, kill_tick, release, true_time
        } ==> ({
            let acc2 = spec_freeing_step_acc(volume_acc as int, release);
            let vr = acc2 / 0x1_0000_0000;
            let v1: int = if vr > MAX_ENGINE_VOLUME as int {
                MAX_ENGINE_VOLUME as int
            } else {
                vr
            };
            let vz: int = if v1 <= 1 { 0 } else { v1 };
            spec_on_grid(true_time as int, note_rate as int, tiny_tick as int) ==> ({
                &&& rearm == false
                &&& (v1 <= 1 ==> *final(voice) is Open)
                &&& (v1 > 1 ==> *final(voice) == (Channel::Freeing {
                    sound,
                    initial_release_volume,
                    volume: v1 as u32,
                    volume_acc: acc2 as u64,
                    kill_tick,
                    release,
                    true_time,
                }))
                &&& final(spu).channels@[channel_id as int].volume
                    == crate::spu::spec_written_volume(vz)
                &&& final(spu).channels@[channel_id as int] == (crate::channel::SpuChannel {
                    control: final(spu).channels@[channel_id as int].control,
                    volume: final(spu).channels@[channel_id as int].volume,
                    volume_shift: final(spu).channels@[channel_id as int].volume_shift,
                    pan: final(spu).channels@[channel_id as int].pan,
                    ..old(spu).channels@[channel_id as int]
                })
            })
        }),
        // a sounding voice on its grid: the latest due pitch adjustment and
        // any due queued retrigger reach the lane's registers, then the
        // envelope evaluation fixes the volume register and the voice's
        // re-arm or tear-down outcome
        *old(voice) matches Channel::Used {
            sound, envelope, volume: v0, volume_acc, pitch_adjustments, future_adsr,
            queued_samples, start_tick, range, true_time
        } ==> ({
            let tick = spec_voice_tick(true_time as int, note_rate as int,
                start_tick as int, tiny_tick as int);
            let tabs = spec_grid_tick_abs(true_time as int, note_rate as int,
                tiny_tick as int);
            let rt = spec_due_retrigger(queued_samples@, tick);
            let mult = sound.spec_volume_multiplier() as int;
            let lane0 = old(spu).channels@[channel_id as int];
            let lane = final(spu).channels@[channel_id as int];
            let vol_after_rt: int = match rt {
                Some(s) => crate::spu::spec_written_volume(
                    s.volume as int * mult / 0x1_0000),
                None => lane0.volume as int,
            };
            spec_on_grid(true_time as int, note_rate as int, tiny_tick as int) ==> ({
                &&& lane.timer_reload == (match rt {
                    Some(s) => s.timer_reload,
                    None => match spec_latest_due_reload(pitch_adjustments@, tick) {
                        Some(r) => r,
                        None => lane0.timer_reload,
                    },
                })
                &&& (rt matches Some(s) ==> (
                    lane.loop_pos == s.loop_pos
                    && lane.length == s.length
                    && lane.src_address == s.src_address
                    && lane.key_on == true
                    && lane.pan == crate::spu::spec_pan_field(spec_clamped_pan(
                        s.base_pan as int, sound.spec_pan_addition() as int))
                    && lane.control >> 24 == (if s.is_repeating { 200u32 } else { 208u32 })
                ))
                &&& (rt is None ==> (
                    lane.loop_pos == lane0.loop_pos
                    && lane.length == lane0.length
                    && lane.src_address == lane0.src_address
                    && lane.key_on == lane0.key_on
                ))
                &&& (envelope is None ==> (*final(voice) == *old(voice) && rearm == false
                    && lane.volume == vol_after_rt))
                &&& (envelope matches Some(env) ==> ({
                    let hit: Option<u32> = match env.attack {
                        Some(crate::envelope::AttackEnvelope::Exact { adjustments }) => {
                            spec_attack_hit(adjustments@, tick)
                        },
                        _ => None,
                    };
                    &&& (spec_attack_only(*old(voice)) ==> (
                        *final(voice) == *old(voice)
                        && rearm == false
                        && lane.volume == (match hit {
                            Some(v) => crate::spu::spec_written_volume(
                                v as int * mult / 0x1_0000),
                            None => vol_after_rt,
                        })
                    ))
                    &&& (!spec_attack_only(*old(voice)) ==> ({
                        let tc: int = if tick > 0xFFFF_FFFF { 0xFFFF_FFFF } else { tick };
                        let ev = spec_eval_envelope(env, tc, volume_acc as int);
                        let scaled = ev.0 * mult / 0x1_0000;
                        let freed = ev.2 || (match env.release {
                            Some(crate::envelope::ReleaseInstructions::ExponentialUntil {
                                until, .. }) => scaled <= until,
                            _ => false,
                        });
                        &&& rearm == (freed && future_adsr.len() > 0
                            && tabs >= future_adsr[0].0)
                        &&& ((freed && future_adsr.len() == 0) ==> (
                            *final(voice) is Open && lane.volume == 0))
                        &&& (!(freed && future_adsr.len() == 0) ==> (
                            *final(voice) == (Channel::Used {
                                sound,
                                envelope,
                                volume: scaled as u32,
                                volume_acc: ev.1 as u64,
                                pitch_adjustments,
                                future_adsr,
                                queued_samples,
                                start_tick,
                                range,
                                true_time,
                            })
                            && lane.volume == crate::spu::spec_written_volume(scaled)))
                    }))
                }))
            })
        }),
{
    let is_used = matches!(voice, Channel::Used { .. });
    if is_used {
        let (sound, start_tick, true_time) = match &*voice {
            Channel::Used { sound, start_tick, true_time, .. } => {
                (*sound, *start_tick, *true_time)
            },
            _ => (crate::manager::QueuedSound::Note(QueuedNote {
                time: 0, instrument: 0, note: 0, track: 0, pan_addition: 0,
                volume_multiplier_q16: 0,
            }), 0, 0),
        };
        proof {
            assert(sound.wf());
            assert((true_time as int) * (note_rate as int) >= 0) by (nonlinear_arith)
                requires true_time >= 0 && note_rate >= 0;
        }
        proof {
            assert((true_time as int) * (note_rate as int) <= 0xFF_FFFF * 0x1_0000)
                by (nonlinear_arith)
                requires 0 <= true_time <= 0xFF_FFFF && 0 <= note_rate <= 0x1_0000;
        }
        let started: u64 = true_time as u64 * note_rate as u64;
        if started > tiny_tick as u64 {
            // a voice stamped in the future is left for its grid to arrive
            return false;
        }
        let delta: u64 = tiny_tick as u64 - started;
        if delta % crate::EVENT_TIMING as u64 != 0 {
            return false;
        }
        let tick_abs: u64 = delta / crate::EVENT_TIMING as u64;
        let tick: u64 = if start_tick > tick_abs { 0 } else { tick_abs - start_tick };
        proof {
            assert(spec_on_grid(true_time as int, note_rate as int, tiny_tick as int));
            assert(tick_abs as int == spec_grid_tick_abs(true_time as int,
                note_rate as int, tiny_tick as int));
            assert(tick as int == spec_voice_tick(true_time as int, note_rate as int,
                start_tick as int, tiny_tick as int));
        }
        let ghost vsnap: Channel = *voice;
        let ghost pav: Seq<crate::envelope::TimedPitchAdjustment> = match vsnap {
            Channel::Used { pitch_adjustments, .. } => pitch_adjustments@,
            _ => Seq::empty(),
        };
        let ghost qsv: Seq<(DrumSample, u32)> = match vsnap {
            Channel::Used { queued_samples, .. } => queued_samples@,
            _ => Seq::empty(),
        };

        // latest due pitch adjustment wins
        let reload_due: Option<u16> = match &*voice {
            Channel::Used { pitch_adjustments, .. } => {
                let mut found: Option<u16> = None;
                let mut j: usize = 0;
                proof {
                    assert(pitch_adjustments@.take(0int) =~= Seq::empty());
                }
                while j < pitch_adjustments.len()
                    invariant
                        j <= pitch_adjustments.len(),
                        pitch_adjustments@ == pav,
                        found == spec_latest_due_reload(pav.take(j as int), tick as int),
                    decreases pitch_adjustments.len() - j,
                {
                    proof {
                        assert(pav.take(j + 1).drop_last() =~= pav.take(j as int));
                        assert(pav.take(j + 1).last() == pav[j as int]);
                    }
                    if pitch_adjustments[j].time as u64 <= tick {
                        found = Some(pitch_adjustments[j].timer_reload);
                    }
                    j = j + 1;
                }
                proof {
                    assert(pav.take(pav.len() as int) =~= pav);
                }
                found
            },
            _ => None,
        };
        proof {
            assert(reload_due == spec_latest_due_reload(pav, tick as int));
        }
        if let Some(reload) = reload_due {
            spu.set_channel_timer_reload(channel_id, reload as u32);
        }
        let ghost pre2 = *spu;
        proof {
            assert(pre2.channels@[channel_id as int] == (match spec_latest_due_reload(
                pav, tick as int) {
                Some(r) => crate::channel::SpuChannel {
                    timer_reload: r,
                    ..old(spu).channels@[channel_id as int]
                },
                None => old(spu).channels@[channel_id as int],
            }));
        }

        // queued one-shot retriggers scheduled for this very tick
        let mut j: usize = 0;
        proof {
            assert(qsv.take(0int) =~= Seq::empty());
        }
        loop
            invariant_except_break
                spu.wf(),
                voice.wf(),
                sound.wf(),
                *voice == *old(voice),
                channel_id < 16,
                j <= qsv.len(),
                (match *voice {
                    Channel::Used { queued_samples, .. } => queued_samples@ == qsv,
                    _ => false,
                }),
                forall|k: int| 0 <= k < 16 && k != channel_id
                    ==> #[trigger] spu.channels@[k] == old(spu).channels@[k],
                *spu == (crate::spu::Spu { channels: spu.channels, ..*old(spu) }),
                (match spec_due_retrigger(qsv.take(j as int), tick as int) {
                    Some(s) => spec_retriggered_lane(pre2.channels@[channel_id as int],
                        spu.channels@[channel_id as int], s, sound),
                    None => spu.channels@[channel_id as int]
                        == pre2.channels@[channel_id as int],
                }),
            ensures
                spu.wf(),
                voice.wf(),
                sound.wf(),
                *voice == *old(voice),
                forall|k: int| 0 <= k < 16 && k != channel_id
                    ==> #[trigger] spu.channels@[k] == old(spu).channels@[k],
                *spu == (crate::spu::Spu { channels: spu.channels, ..*old(spu) }),
                (match spec_due_retrigger(qsv, tick as int) {
                    Some(s) => spec_retriggered_lane(pre2.channels@[channel_id as int],
                        spu.channels@[channel_id as int], s, sound),
                    None => spu.channels@[channel_id as int]
                        == pre2.channels@[channel_id as int],
                }),
            decreases ({
                let n = match &*voice {
                    Channel::Used { queued_samples, .. } => queued_samples.len(),
                    _ => 0,
                };
                n - j
            }),
        {
            let (sample_due, len): (Option<DrumSample>, usize) = match &*voice {
                Channel::Used { queued_samples, .. } => {
                    if j < queued_samples.len() {
                        if queued_samples[j].1 as u64 == tick {
                            (Some(queued_samples[j].0), queued_samples.len())
                        } else {
                            (None, queued_samples.len())
                        }
                    } else {
                        (None, queued_samples.len())
                    }
                },
                _ => (None, 0),
            };
            if j >= len {
                proof {
                    assert(qsv.take(qsv.len() as int) =~= qsv);
                }
                break;
            }
            proof {
                assert(qsv.take(j + 1).drop_last() =~= qsv.take(j as int));
                assert(qsv.take(j + 1).last() == qsv[j as int]);
            }
            if let Some(sample) = sample_due {
                proof {
                    assert(sample.wf());
                }
                spu.set_adjusted_channel_pan(channel_id, sample.base_pan,
                    sound.pan_addition());
                spu.set_adjusted_channel_volume(channel_id, sample.volume,
                    sound.volume_multiplier());
                spu.set_channel_timer_reload(channel_id, sample.timer_reload as u32);
                spu.set_channel_loop_pos(channel_id, sample.loop_pos);
                spu.set_channel_length(channel_id, sample.length);
                spu.set_channel_src_address(channel_id, sample.src_address);
                spu.channel_play_note(channel_id, sample.is_repeating);
            }
            j = j + 1;
        }

        // envelope evaluation
        let attack_only: bool = match &*voice {
            Channel::Used { envelope: Some(env), .. } => {
                env.attack.is_some() && env.decay.is_none() && env.sustain.is_none()
                    && env.release.is_none()
            },
            _ => false,
        };
        if attack_only {
            let hit: Option<u32> = match &*voice {
                Channel::Used { envelope: Some(env), .. } => match &env.attack {
                    Some(crate::envelope::AttackEnvelope::Exact { adjustments }) => {
                        let mut found: Option<u32> = None;
                        let mut a: usize = 0;
                        proof {
                            assert(adjustments@.take(0int) =~= Seq::empty());
                        }
                        while a < adjustments.len()
                            invariant
                                a <= adjustments.len(),
                                (crate::envelope::AttackEnvelope::Exact {
                                    adjustments: *adjustments }).wf(),
                                found == spec_attack_hit(adjustments@.take(a as int),
                                    tick as int),
                                found matches Some(v2) ==> v2 <= MAX_ENGINE_VOLUME,
                            decreases adjustments.len() - a,
                        {
                            proof {
                                assert(adjustments@.take(a + 1).drop_last()
                                    =~= adjustments@.take(a as int));
                                assert(adjustments@.take(a + 1).last()
                                    == adjustments@[a as int]);
                            }
                            if adjustments[a].time as u64 == tick {
                                found = Some(adjustments[a].volume);
                            }
                            a = a + 1;
                        }
                        proof {
                            assert(adjustments@.take(adjustments@.len() as int)
                                =~= adjustments@);
                        }
                        found
                    },
                    _ => None,
                },
                _ => None,
            };
            if let Some(v) = hit {
                spu.set_adjusted_channel_volume(channel_id, v, sound.volume_multiplier());
            }
            return false;
        }

        let has_env = matches!(voice, Channel::Used { envelope: Some(_), .. });
        if !has_env {
            return false;
        }

        let (volume, acc, freed): (u32, u64, bool) = match &*voice {
            Channel::Used { envelope: Some(env), volume_acc, .. } => {
                eval_envelope_volume(env, if tick > 0xFFFF_FFFF { 0xFFFF_FFFF } else { tick },
                    *volume_acc)
            },
            _ => (0, 0, false),
        };

        proof {
            assert((volume as int) * (sound.spec_volume_multiplier() as int)
                <= 2047 * 0x1_0000) by (nonlinear_arith)
                requires volume <= 2047 && 0 <= sound.spec_volume_multiplier() <= 0x1_0000;
        }
        let scaled: u32 = ((volume as u64 * sound.volume_multiplier() as u64)
            / 0x1_0000) as u32;
        proof {
            assert((volume as int) * (sound.spec_volume_multiplier() as int) / 0x1_0000
                <= MAX_ENGINE_VOLUME) by (nonlinear_arith)
                requires volume <= MAX_ENGINE_VOLUME
                    && 0 <= sound.spec_volume_multiplier() <= 0x1_0000;
        }

        // the floor of a bounded-release envelope also ends the voice
        let mut freed2 = freed;
        match &*voice {
            Channel::Used { envelope: Some(env), .. } => {
                if let Some(crate::envelope::ReleaseInstructions::ExponentialUntil {
                    until, .. }) = &env.release {
                    if scaled <= *until {
                        freed2 = true;
                    }
                }
            },
            _ => {},
        }

        match voice {
            Channel::Used { volume: vfield, volume_acc, .. } => {
                *vfield = scaled;
                *volume_acc = acc;
            },
            _ => {},
        }

        spu.set_adjusted_channel_volume(channel_id, volume, sound.volume_multiplier());

        if freed2 {
            let has_future: bool = match &*voice {
                Channel::Used { future_adsr, .. } => future_adsr.len() > 0,
                _ => false,
            };
            if has_future {
                let next_time: u32 = match &*voice {
                    Channel::Used { future_adsr, .. } => future_adsr[0].0,
                    _ => 0,
                };
                if tick_abs >= next_time as u64 {
                    return true;
                }
            } else {
                spu.set_adjusted_channel_volume(channel_id, 0, sound.volume_multiplier());
                *voice = Channel::Open;
            }
        }
        return false;
    }

    let is_freeing = matches!(voice, Channel::Freeing { .. });
    if is_freeing {
        let (volume0, acc0, kill_tick, true_time, release) = match &*voice {
            Channel::Freeing { volume, volume_acc, kill_tick, true_time, release, .. } => {
                (*volume, *volume_acc, *kill_tick, *true_time, *release)
            },
            _ => (0, 0, 0, 0, None),
        };
        proof {
            assert((true_time as int) * (note_rate as int) >= 0) by (nonlinear_arith)
                requires true_time >= 0 && note_rate >= 0;
        }
        proof {
            assert((true_time as int) * (note_rate as int) <= 0xFF_FFFF * 0x1_0000)
                by (nonlinear_arith)
                requires 0 <= true_time <= 0xFF_FFFF && 0 <= note_rate <= 0x1_0000;
        }
        let started: u64 = true_time as u64 * note_rate as u64;
        if started > tiny_tick as u64 {
            return false;
        }
        let delta: u64 = tiny_tick as u64 - started;
        if delta % crate::EVENT_TIMING as u64 != 0 {
            return false;
        }
        proof {
            assert(spec_on_grid(true_time as int, note_rate as int, tiny_tick as int));
        }

        let mut volume: u32 = volume0;
        let mut acc: u64 = acc0;
        match release {
            Some(crate::envelope::ReleaseInstructions::Basic)
            | Some(crate::envelope::ReleaseInstructions::Exponential { .. })
            | Some(crate::envelope::ReleaseInstructions::ExponentialUntil { .. }) => {
                acc = crate::envelope::envelope_acc_step(
                    acc, crate::envelope::RELEASE_BASIC_RATIO_Q32);
                let v = (acc / 0x1_0000_0000) as u32;
                volume = if v > MAX_ENGINE_VOLUME { MAX_ENGINE_VOLUME } else { v };
            },
            Some(crate::envelope::ReleaseInstructions::Geometric { ratio_q32 }) => {
                acc = crate::envelope::envelope_acc_step(acc, ratio_q32);
                let v = (acc / 0x1_0000_0000) as u32;
                volume = if v > MAX_ENGINE_VOLUME { MAX_ENGINE_VOLUME } else { v };
            },
            Some(crate::envelope::ReleaseInstructions::GeometricStopBlowing { .. })
            | Some(crate::envelope::ReleaseInstructions::Static(_)) => {
                volume = 1;
                acc = 0x1_0000_0000;
            },
            None => {
                acc = crate::envelope::envelope_acc_step(
                    acc, crate::envelope::HALF_RATIO_Q32);
                let v = (acc / 0x1_0000_0000) as u32;
                volume = if v > MAX_ENGINE_VOLUME { MAX_ENGINE_VOLUME } else { v };
            },
            Some(crate::envelope::ReleaseInstructions::KeepBlowing) => {
                acc = crate::envelope::envelope_acc_step(
                    acc, crate::envelope::KEEP_BLOWING_RATIO_Q32);
                let v = (acc / 0x1_0000_0000) as u32;
                volume = if v > MAX_ENGINE_VOLUME { MAX_ENGINE_VOLUME } else { v };
            },
        }
        proof {
            assert(acc as int == spec_freeing_step_acc(acc0 as int, release));
        }
        if volume <= 1 {
            volume = 0;
        }

        spu.set_adjusted_channel_volume(channel_id, volume, 0x1_0000);

        if volume <= 1 {
            *voice = Channel::Open;
        } else {
            match voice {
                Channel::Freeing { volume: vfield, volume_acc, .. } => {
                    *vfield = volume;
                    *volume_acc = acc;
                },
                _ => {},
            }
        }
        return false;
    }

    false
}

/// An unrecoverable engine fault: the voice pool yielded no lane, or the
/// catalog had no stage set for a triggered note.  Both indicate sequence
/// or catalog defects; playback stops rather than masking them.
#[derive(Debug, Clone, Copy, PartialEq, Eq, Structural)]
pub enum EngineError {
    VoicePoolExhausted,
    CatalogDefect,
}

/// Well-formed melodic catalog.
pub open spec fn spec_instruments_wf(instruments: Seq<Instrument>) -> bool {
    forall|i: int| 0 <= i < instruments.len() ==> (#[trigger] instruments[i]).wf()
}

/// Well-formed drum catalog: eight sections of fourteen drums.
pub open spec fn spec_sections_wf(sections: Seq<RhythmSection>) -> bool {
    &&& sections.len() == RHYTHM_SECTION_COUNT
    &&& forall|i: int| 0 <= i < sections.len() ==> (#[trigger] sections[i]).wf()
}

/// A note trigger is resolvable: its instrument exists, its note lies in
/// the standard span (or a covering range, for ranged and chirp timbres),
/// and a lookup-table tone timbre sees a note step within its table.
pub open spec fn spec_note_dispatch_ok(n: QueuedNote, instruments: Seq<Instrument>) -> bool {
    &&& (n.instrument as int) < instruments.len()
    &&& match instruments[n.instrument as int].instructions {
        InstrumentInstructions::Adsr(a) => {
            n.note <= 24 && spec_psg_table_note_ok(a, n.note as u32, 0)
        },
        InstrumentInstructions::Dual(pair) => {
            n.note <= 24
                && spec_psg_table_note_ok(pair[0], n.note as u32, 0)
                && spec_psg_table_note_ok(pair[1], n.note as u32, 0)
        },
        InstrumentInstructions::TimedMultiple(ts) => {
            n.note <= 24 && (forall|k: int| 0 <= k < ts.len()
                ==> spec_psg_table_note_ok((#[trigger] ts[k]).1, n.note as u32, 0))
        },
        InstrumentInstructions::Random(vs) => {
            n.note <= 24 && (forall|k: int| 0 <= k < vs.len()
                ==> spec_psg_table_note_ok(#[trigger] vs[k], n.note as u32, 0))
        },
        InstrumentInstructions::Ranged(rs) => {
            &&& (exists|k: int| 0 <= k < rs.len()
                && (#[trigger] rs[k]).low <= n.note <= rs[k].high)
            &&& (forall|k: int| 0 <= k < rs.len() && rs[k].low <= n.note
                ==> spec_psg_table_note_ok((#[trigger] rs[k]).adsr, n.note as u32,
                    rs[k].low as u32))
        },
        InstrumentInstructions::Cricket(cs) => {
            &&& (exists|k: int| 0 <= k < cs.len()
                && (#[trigger] cs[k]).low <= n.note <= cs[k].high)
            &&& (forall|k: int| 0 <= k < cs.len() && cs[k].low <= n.note
                ==> spec_psg_table_note_ok((#[trigger] cs[k]).adsr, n.note as u32,
                    cs[k].low as u32))
        },
    }
}

/// A note step stays within a lookup-table timbre's measured table.
pub open spec fn spec_psg_table_note_ok(a: Adsr, note: u32, low: u32) -> bool {
    (a.sample matches InstrumentSample::PSG(p) && spec_psg_table_reload(p.base_timer_reload))
        ==> note >= low && note - low < 25
}

/// First stage set of a ranged timbre covering the note, scanning in
/// order: an earlier entry wins.
pub open spec fn spec_first_range(rs: Seq<RangedAdsr>, note: u8) -> Option<int>
    decreases rs.len()
{
    if rs.len() == 0 {
        None
    } else if spec_first_range(rs.drop_last(), note) is Some {
        spec_first_range(rs.drop_last(), note)
    } else if rs.last().low <= note <= rs.last().high {
        Some(rs.len() - 1)
    } else {
        None
    }
}

/// First chirp descriptor of a multi-stage timbre covering the note.
pub open spec fn spec_first_cricket(cs: Seq<StupidCricket>, note: u8) -> Option<int>
    decreases cs.len()
{
    if cs.len() == 0 {
        None
    } else if spec_first_cricket(cs.drop_last(), note) is Some {
        spec_first_cricket(cs.drop_last(), note)
    } else if cs.last().low <= note <= cs.last().high {
        Some(cs.len() - 1)
    } else {
        None
    }
}

/// First stage of a scheduled multi-stage timbre that triggers at once.
pub open spec fn spec_first_zero(ts: Seq<(u32, Adsr)>) -> Option<int>
    decreases ts.len()
{
    if ts.len() == 0 {
        None
    } else if spec_first_zero(ts.drop_last()) is Some {
        spec_first_zero(ts.drop_last())
    } else if ts.last().0 == 0 {
        Some(ts.len() - 1)
    } else {
        None
    }
}

/// The lane the allocation policy grants a source of this kind.
pub open spec fn spec_sample_grant(s: InstrumentSample,
    pool: Seq<Channel>, track: u8) -> Option<usize>
{
    match s {
        InstrumentSample::PCM16(_) => crate::manager::spec_pcm_grant(pool, track),
        InstrumentSample::PSG(_) => crate::manager::spec_psg_grant(pool, track),
    }
}

/// The lane a note dispatch is granted, over the released voice pool: the
/// instrument's resolved stage set (the first of a dual pair) decides the
/// request category, a pseudo-random timbre picks by song position plus
/// the track's previous note.
pub open spec fn spec_note_grant(ins: Instrument, note: QueuedNote, pool: Seq<Channel>,
    prev: Option<u8>, tiny_tick: int) -> Option<usize>
{
    match ins.instructions {
        InstrumentInstructions::Adsr(a) => spec_sample_grant(a.sample, pool, note.track),
        InstrumentInstructions::Dual(pair) => {
            spec_sample_grant(pair[0].sample, pool, note.track)
        },
        InstrumentInstructions::Ranged(rs) => match spec_first_range(rs@, note.note) {
            Some(k) => spec_sample_grant(rs@[k].adsr.sample, pool, note.track),
            None => None,
        },
        InstrumentInstructions::TimedMultiple(ts) => match spec_first_zero(ts@) {
            Some(k) => spec_sample_grant(ts@[k].1.sample, pool, note.track),
            None => None,
        },
        InstrumentInstructions::Random(vs) => {
            let p: int = match prev {
                Some(pn) => pn as int,
                None => 0,
            };
            spec_sample_grant(vs@[(tiny_tick + p) % (vs@.len() as int)].sample, pool,
                note.track)
        },
        InstrumentInstructions::Cricket(cs) => match spec_first_cricket(cs@, note.note) {
            Some(k) => spec_sample_grant(cs@[k].adsr.sample, pool, note.track),
            None => None,
        },
    }
}

/// Dispatches one triggered note: releases its track, resolves the
/// instrument's stage set (or sets, for dual timbres) and starts the
/// voice(s).
pub fn dispatch_note(
    channel_manager: &mut crate::manager::ChannelManager,
    spu: &mut crate::spu::Spu,
    note: &QueuedNote,
    instruments: &Vec<Instrument>,
    previous_notes: &mut Vec<Option<u8>>,
    record: &crate::record::Record,
    tiny_tick: usize,
    repeat_count: usize,
) -> (r: Result<(), EngineError>)
    requires
        old(channel_manager).wf(),
        old(spu).wf(),
        record.wf(),
        crate::manager::QueuedSound::Note(*note).wf(),
        spec_instruments_wf(instruments@),
        spec_note_dispatch_ok(*note, instruments@),
        old(previous_notes).len() == 4,
        (note.track as int) < 4,
        tiny_tick <= 0xFF_FFFF_FFFF,
        repeat_count <= 0x7_0000,
    ensures
        final(channel_manager).wf(),
        final(spu).wf(),
        final(previous_notes).len() == 4,
        *final(spu) == (crate::spu::Spu { channels: final(spu).channels, ..*old(spu) }),
        // a resolvable note never reports a catalog defect: the only
        // failure left is an exhausted voice pool
        !(r matches Err(EngineError::CatalogDefect)),
        // success is owed exactly when the policy grants a lane over the
        // released pool, and the granted lane then sounds this note
        ({
            let pool = crate::manager::spec_release_pool(old(channel_manager).channels@,
                note.track, tiny_tick as int, record.note_rate as int);
            let ins0 = instruments@[note.instrument as int];
            let g = spec_note_grant(ins0, *note, pool,
                old(previous_notes)@[note.track as int], tiny_tick as int);
            &&& (g is None ==> r matches Err(EngineError::VoicePoolExhausted))
            &&& (!(ins0.instructions is Dual) ==> ((r is Ok) <==> (g is Some)))
            &&& (!(ins0.instructions is Dual) ==> (g matches Some(i) ==> (
                i < 16
                && (final(channel_manager).channels@[i as int] matches Channel::Used {
                    sound, start_tick, ..
                } && sound == crate::manager::QueuedSound::Note(*note)
                    && start_tick == 0)
                && final(spu).channels@[i as int].key_on == true
                && (forall|k: int| 0 <= k < 16 && k != i
                    ==> #[trigger] final(channel_manager).channels@[k] == pool[k])
                && (forall|k: int| 0 <= k < 16 && k != i
                    ==> #[trigger] final(spu).channels@[k] == old(spu).channels@[k])
            )))
        }),
{
    let ins = &instruments[note.instrument as usize];

    match &ins.instructions {
        InstrumentInstructions::Adsr(adsr) => {
            channel_manager.release_tracks(note.track, tiny_tick, record);
            let got = add_adsr_to_channel(channel_manager, spu, note, (0, 24), instruments,
                adsr, Vec::new(), 0, previous_notes, None, repeat_count);
            if got.is_none() {
                return Err(EngineError::VoicePoolExhausted);
            }
            Ok(())
        },
        InstrumentInstructions::Dual(pair) => {
            channel_manager.release_tracks(note.track, tiny_tick, record);
            let got0 = add_adsr_to_channel(channel_manager, spu, note, (0, 24), instruments,
                &pair[0], Vec::new(), 0, previous_notes, None, repeat_count);
            if got0.is_none() {
                return Err(EngineError::VoicePoolExhausted);
            }
            let got1 = add_adsr_to_channel(channel_manager, spu, note, (0, 24), instruments,
                &pair[1], Vec::new(), 0, previous_notes, None, repeat_count);
            if got1.is_none() {
                return Err(EngineError::VoicePoolExhausted);
            }
            Ok(())
        },
        InstrumentInstructions::Ranged(ranged) => {
            channel_manager.release_tracks(note.track, tiny_tick, record);
            let mut found: Option<usize> = None;
            let mut k: usize = 0;
            proof {
                assert(ranged@.take(0int) =~= Seq::empty());
            }
            while k < ranged.len()
                invariant
                    k <= ranged.len(),
                    found matches Some(f) ==> f < ranged.len()
                        && ranged[f as int].low <= note.note <= ranged[f as int].high,
                    (match spec_first_range(ranged@.take(k as int), note.note) {
                        Some(f) => 0 <= f < k && found == Some(f as usize),
                        None => found is None,
                    }),
                    found is None ==> forall|j: int| 0 <= j < k
                        ==> !((#[trigger] ranged@[j]).low <= note.note <= ranged@[j].high),
                decreases ranged.len() - k,
            {
                proof {
                    assert(ranged@.take(k + 1).drop_last() =~= ranged@.take(k as int));
                    assert(ranged@.take(k + 1).last() == ranged@[k as int]);
                }
                if found.is_none() && ranged[k].low <= note.note && note.note <= ranged[k].high {
                    found = Some(k);
                }
                k = k + 1;
            }
            proof {
                assert(ranged@.take(ranged@.len() as int) =~= ranged@);
            }
            let idx = match found {
                Some(f) => f,
                None => {
                    return Err(EngineError::CatalogDefect);
                },
            };
            let entry = &ranged[idx];
            let got = add_adsr_to_channel(channel_manager, spu, note,
                (entry.low as u32, entry.high as u32), instruments, &entry.adsr,
                Vec::new(), 0, previous_notes, None, repeat_count);
            if got.is_none() {
                return Err(EngineError::VoicePoolExhausted);
            }
            Ok(())
        },
        InstrumentInstructions::Cricket(crickets) => {
            channel_manager.release_tracks(note.track, tiny_tick, record);
            let mut found: Option<usize> = None;
            let mut k: usize = 0;
            proof {
                assert(crickets@.take(0int) =~= Seq::empty());
            }
            while k < crickets.len()
                invariant
                    k <= crickets.len(),
                    found matches Some(f) ==> f < crickets.len()
                        && crickets[f as int].low <= note.note <= crickets[f as int].high,
                    (match spec_first_cricket(crickets@.take(k as int), note.note) {
                        Some(f) => 0 <= f < k && found == Some(f as usize),
                        None => found is None,
                    }),
                    found is None ==> forall|j: int| 0 <= j < k
                        ==> !((#[trigger] crickets@[j]).low <= note.note
                            <= crickets@[j].high),
                decreases crickets.len() - k,
            {
                proof {
                    assert(crickets@.take(k + 1).drop_last() =~= crickets@.take(k as int));
                    assert(crickets@.take(k + 1).last() == crickets@[k as int]);
                }
                if found.is_none() && crickets[k].low <= note.note
                    && note.note <= crickets[k].high {
                    found = Some(k);
                }
                k = k + 1;
            }
            proof {
                assert(crickets@.take(crickets@.len() as int) =~= crickets@);
            }
            let idx = match found {
                Some(f) => f,
                None => {
                    return Err(EngineError::CatalogDefect);
                },
            };
            let entry = &crickets[idx];
            let future = copy_future_adsr(&entry.future_adsr);
            let raw = copy_relative_adjustments(&entry.pitch_adjustments);
            let got = add_adsr_to_channel(channel_manager, spu, note,
                (entry.low as u32, entry.high as u32), instruments, &entry.adsr,
                future, 0, previous_notes,
                Some(PossiblePitchAdjustment::Unprocessed(raw)), repeat_count);
            if got.is_none() {
                return Err(EngineError::VoicePoolExhausted);
            }
            Ok(())
        },
        InstrumentInstructions::TimedMultiple(timed) => {
            channel_manager.release_tracks(note.track, tiny_tick, record);
            let mut first: Option<usize> = None;
            let mut remaining: Vec<(u32, Adsr)> = Vec::new();
            let mut k: usize = 0;
            proof {
                assert(timed@.take(0int) =~= Seq::empty());
            }
            while k < timed.len()
                invariant
                    k <= timed.len(),
                    spec_instruments_wf(instruments@),
                    (note.instrument as int) < instruments.len(),
                    (instruments@[note.instrument as int].instructions matches
                        InstrumentInstructions::TimedMultiple(t2) && t2 == *timed),
                    spec_future_adsr_wf(remaining@),
                    first matches Some(f) ==> f < timed.len() && timed[f as int].0 == 0,
                    (match spec_first_zero(timed@.take(k as int)) {
                        Some(f) => 0 <= f < k && first == Some(f as usize),
                        None => first is None,
                    }),
                    first is None ==> forall|j: int| 0 <= j < k
                        ==> (#[trigger] timed@[j]).0 != 0,
                decreases timed.len() - k,
            {
                proof {
                    assert(instruments@[note.instrument as int].wf());
                    assert(timed@[k as int].1.wf());
                    assert(timed@.take(k + 1).drop_last() =~= timed@.take(k as int));
                    assert(timed@.take(k + 1).last() == timed@[k as int]);
                }
                if timed[k].0 == 0 {
                    if first.is_none() {
                        first = Some(k);
                    }
                } else {
                    let a = copy_adsr(&timed[k].1);
                    remaining.push((timed[k].0, a));
                }
                k = k + 1;
            }
            proof {
                assert(timed@.take(timed@.len() as int) =~= timed@);
            }
            let idx = match first {
                Some(f) => f,
                None => {
                    return Err(EngineError::CatalogDefect);
                },
            };
            // one multi-stage timbre scales its second stage's trigger
            // time with the note
            if ins.scaled_second_stage && remaining.len() > 0 {
                let t0 = remaining[0].0;
                let scaled = crate::envelope::interp_val_until(
                    note.note as u32, (t0, 16), 24);
                let capped = if scaled > 0xFFFF { 0xFFFF } else { scaled };
                let moved = remaining.remove(0);
                remaining.insert(0, (capped, moved.1));
            }
            let got = add_adsr_to_channel(channel_manager, spu, note, (0, 24), instruments,
                &timed[idx].1, remaining, 0, previous_notes, None, repeat_count);
            if got.is_none() {
                return Err(EngineError::VoicePoolExhausted);
            }
            Ok(())
        },
        InstrumentInstructions::Random(adsrs) => {
            channel_manager.release_tracks(note.track, tiny_tick, record);
            // pseudo-random pick: song position plus the track's last note
            let prev: usize = match previous_notes[note.track as usize] {
                Some(p) => p as usize,
                None => 0,
            };
            proof {
                assert(instruments@[note.instrument as int].wf());
            }
            let idx = ((tiny_tick as u64 + prev as u64) % adsrs.len() as u64) as usize;
            let got = add_adsr_to_channel(channel_manager, spu, note, (0, 24), instruments,
                &adsrs[idx], Vec::new(), 0, previous_notes, None, repeat_count);
            if got.is_none() {
                return Err(EngineError::VoicePoolExhausted);
            }
            Ok(())
        },
    }
}

/// Copies a relative pitch adjustment schedule.
fn copy_relative_adjustments(v: &Vec<TimedRelativePitchAdjustment>)
    -> (r: Vec<TimedRelativePitchAdjustment>)
    ensures
        r@ == v@,
{
    let mut r: Vec<TimedRelativePitchAdjustment> = Vec::new();
    let mut i: usize = 0;
    while i < v.len()
        invariant
            i <= v.len(),
            r@ == v@.take(i as int),
        decreases v.len() - i,
    {
        r.push(v[i]);
        proof {
            assert(v@.take(i + 1) =~= v@.take(i as int).push(v@[i as int]));
        }
        i = i + 1;
    }
    proof {
        assert(v@.take(v@.len() as int) =~= v@);
    }
    r
}

/// Programs a hardware lane with a drum sample and keys it on.
fn play_drum_on_spu(
    spu: &mut crate::spu::Spu,
    channel_id: usize,
    sample: &DrumSample,
    pan: u8,
    initial_volume: u32,
    volume_multiplier_q16: u32,
)
    requires
        old(spu).wf(),
        channel_id < 16,
        sample.wf(),
        initial_volume <= MAX_ENGINE_VOLUME,
        volume_multiplier_q16 <= 0x1_0000,
    ensures
        final(spu).wf(),
        final(spu).channels[channel_id as int].key_on == true,
        forall|k: int| 0 <= k < 16 && k != channel_id
            ==> #[trigger] final(spu).channels@[k] == old(spu).channels@[k],
        *final(spu) == (crate::spu::Spu { channels: final(spu).channels, ..*old(spu) }),
        final(spu).channels@[channel_id as int].timer_reload == sample.timer_reload,
        final(spu).channels@[channel_id as int].loop_pos == sample.loop_pos,
        final(spu).channels@[channel_id as int].length == sample.length,
        final(spu).channels@[channel_id as int].src_address == sample.src_address,
        final(spu).channels@[channel_id as int].pan
            == crate::spu::spec_pan_field(pan as int),
        final(spu).channels@[channel_id as int].volume == crate::spu::spec_written_volume(
            initial_volume as int * volume_multiplier_q16 as int / 0x1_0000),
        final(spu).channels@[channel_id as int].control >> 24
            == (if sample.is_repeating { 200u32 } else { 208u32 }),
{
    spu.set_channel_pan(channel_id, pan);
    spu.set_adjusted_channel_volume(channel_id, initial_volume, volume_multiplier_q16);
    proof {
        let tr: u32 = sample.timer_reload as u32;
        assert(tr & 0xFFFF == tr) by (bit_vector)
            requires tr <= 0xFFFF;
    }
    spu.set_channel_timer_reload(channel_id, sample.timer_reload as u32);
    spu.set_channel_loop_pos(channel_id, sample.loop_pos);
    spu.set_channel_length(channel_id, sample.length);
    spu.set_channel_src_address(channel_id, sample.src_address);
    spu.channel_play_note(channel_id, sample.is_repeating);
}

/// A trigger's pan offset applied to a drum's base pan, clamped to a byte.
fn adjust_pan(pan: u8, pan_addition: i32) -> (r: u8)
    requires
        -0x8000 <= pan_addition <= 0x8000,
    ensures
        r as int == (if pan + pan_addition < 0 { 0int }
            else if pan + pan_addition > 255 { 255int }
            else { pan + pan_addition }),
{
    let v: i32 = pan as i32 + pan_addition;
    if v < 0 {
        0
    } else if v > 255 {
        255
    } else {
        v as u8
    }
}

/// The sample a drum descriptor programs on its lane the moment it is
/// dispatched: its primary sample, the first queued sample of a timed
/// chain when that chain starts at once, and none for a noise burst.
pub open spec fn spec_drum_trigger_sample(d: DrumInstructions) -> Option<DrumSample> {
    match d {
        DrumInstructions::Dsr { sample, .. } => Some(sample),
        DrumInstructions::Sr { sample, .. } => Some(sample),
        DrumInstructions::Decay { sample, .. } => Some(sample),
        DrumInstructions::Simple { sample } => Some(sample),
        DrumInstructions::ExactVolumeAdjust { sample, .. } => Some(sample),
        DrumInstructions::DsrPitchAdjust { sample, .. } => Some(sample),
        DrumInstructions::PitchThenRelease { sample, .. } => Some(sample),
        DrumInstructions::RepeatOnce { sample, .. } => Some(sample),
        DrumInstructions::Multiple { samples } => {
            if samples.len() > 0 && samples[0].time == 0 {
                Some(samples[0].sample)
            } else {
                None
            }
        },
        DrumInstructions::Noise { .. } => None,
    }
}

/// Dispatches one triggered drum: releases its pretend track, resolves the
/// drum slot's descriptor into a voice and keys the lane on.
#[verifier::rlimit(100)]
pub fn dispatch_drum(
    channel_manager: &mut crate::manager::ChannelManager,
    spu: &mut crate::spu::Spu,
    drum: &crate::manager::QueuedDrum,
    rhythm_sections: &Vec<RhythmSection>,
    record: &crate::record::Record,
    tiny_tick: usize,
    repeat_count: usize,
) -> (r: Result<(), EngineError>)
    requires
        old(channel_manager).wf(),
        old(spu).wf(),
        record.wf(),
        crate::manager::QueuedSound::Drum(*drum).wf(),
        spec_sections_wf(rhythm_sections@),
        (drum.section as int) < rhythm_sections.len(),
        drum.id < DRUM_COUNT,
        tiny_tick <= 0xFF_FFFF_FFFF,
        repeat_count <= 0x7_0000,
    ensures
        final(channel_manager).wf(),
        final(spu).wf(),
        *final(spu) == (crate::spu::Spu { channels: final(spu).channels, ..*old(spu) }),
        !(r matches Err(EngineError::CatalogDefect)),
        // success is owed exactly when the policy grants a lane over the
        // released pool (a noise request always is, lane 14 being its
        // final fallback); the lane then sounds this drum and its first
        // sample's registers are programmed
        ({
            let pool = crate::manager::spec_release_pool(old(channel_manager).channels@,
                drum.pretend_track, tiny_tick as int, record.note_rate as int);
            let instr = rhythm_sections@[drum.section as int].instructions@[drum.id as int];
            let g = if instr is Noise {
                crate::manager::spec_noise_grant(pool, drum.pretend_track)
            } else {
                crate::manager::spec_pcm_grant(pool, drum.pretend_track)
            };
            &&& ((r is Ok) <==> (g is Some))
            &&& (g matches Some(i) ==> (
                i < 16
                && (final(channel_manager).channels@[i as int] matches Channel::Used {
                    sound, start_tick, true_time, ..
                } && sound == crate::manager::QueuedSound::Drum(*drum)
                    && start_tick == 0
                    && true_time == drum.time + repeat_count * 32)
                && (forall|k: int| 0 <= k < 16 && k != i
                    ==> #[trigger] final(channel_manager).channels@[k] == pool[k])
                && (forall|k: int| 0 <= k < 16 && k != i
                    ==> #[trigger] final(spu).channels@[k] == old(spu).channels@[k])
                && (match spec_drum_trigger_sample(instr) {
                    Some(s) => ({
                        let lane = final(spu).channels@[i as int];
                        &&& lane.timer_reload == s.timer_reload
                        &&& lane.loop_pos == s.loop_pos
                        &&& lane.length == s.length
                        &&& lane.src_address == s.src_address
                        &&& lane.key_on == true
                        &&& lane.pan == crate::spu::spec_pan_field(spec_clamped_pan(
                            s.base_pan as int, drum.pan_addition as int))
                        &&& lane.volume == crate::spu::spec_written_volume(
                            s.volume as int * drum.volume_multiplier_q16 as int
                                / 0x1_0000)
                        &&& lane.control >> 24
                            == (if s.is_repeating { 200u32 } else { 208u32 })
                    }),
                    None => true,
                })
                && (instr matches DrumInstructions::Noise { sample, .. } ==> ({
                    let lane = final(spu).channels@[i as int];
                    &&& lane.timer_reload == sample.timer_reload
                    &&& lane.key_on == true
                    &&& lane.pan == crate::spu::spec_pan_field(spec_clamped_pan(
                        sample.base_pan as int, drum.pan_addition as int))
                    &&& lane.volume == crate::spu::spec_written_volume(
                        sample.volume as int * drum.volume_multiplier_q16 as int
                            / 0x1_0000)
                    &&& lane.control >> 24 == 224
                }))
            ))
        }),
{
    let volume_multiplier = drum.volume_multiplier_q16;
    let true_time = drum.time as usize + repeat_count * crate::TRACK_LENGTH;

    channel_manager.release_tracks(drum.pretend_track, tiny_tick, record);

    let is_noise = matches!(
        &rhythm_sections[drum.section].instructions[drum.id],
        DrumInstructions::Noise { .. });
    let channel_id_opt = if is_noise {
        channel_manager.request_channel_noise(drum.pretend_track)
    } else {
        channel_manager.request_channel_pcm(drum.pretend_track)
    };
    let channel_id = match channel_id_opt {
        Some(i) => i,
        None => {
            return Err(EngineError::VoicePoolExhausted);
        },
    };

    proof {
        assert(rhythm_sections@[drum.section as int].wf());
        assert(rhythm_sections@[drum.section as int].instructions@[drum.id as int].wf());
    }
    match &rhythm_sections[drum.section].instructions[drum.id] {
        DrumInstructions::Dsr { sample, decay, sustain, release } => {
            let initial_volume = sample.volume;
            let ratio = decay_ratio(sustain.volume, initial_volume, decay.duration);
            let envelope = Some(crate::envelope::Envelope {
                attack: None,
                initial_volume,
                decay: Some(crate::envelope::DecayEnvelope::Exponential {
                    ratio_q32: ratio, duration: decay.duration,
                }),
                sustain: Some(crate::envelope::SustainEnvelope {
                    volume: sustain.volume, duration: sustain.duration,
                }),
                release: Some(*release),
            });
            channel_manager.allocate_drum(channel_id, *drum, envelope, initial_volume,
                Vec::new(), Vec::new(), true_time);
            play_drum_on_spu(spu, channel_id, sample,
                adjust_pan(sample.base_pan, drum.pan_addition), initial_volume,
                volume_multiplier);
            Ok(())
        },
        DrumInstructions::Sr { sample, sustain, release } => {
            let initial_volume = sample.volume;
            let envelope = Some(crate::envelope::Envelope {
                attack: None,
                initial_volume,
                decay: None,
                sustain: Some(crate::envelope::SustainEnvelope {
                    volume: sustain.volume, duration: sustain.duration,
                }),
                release: Some(*release),
            });
            channel_manager.allocate_drum(channel_id, *drum, envelope, initial_volume,
                Vec::new(), Vec::new(), true_time);
            play_drum_on_spu(spu, channel_id, sample,
                adjust_pan(sample.base_pan, drum.pan_addition), initial_volume,
                volume_multiplier);
            Ok(())
        },
        DrumInstructions::Decay { sample, decay, final_volume } => {
            let initial_volume = sample.volume;
            // a silent target decays toward the quiet floor instead
            let target = if *final_volume == 0 { 1 } else { *final_volume };
            let resolved = match decay.kind {
                DecayKind::Exponential => crate::envelope::DecayEnvelope::Exponential {
                    ratio_q32: decay_ratio(target, initial_volume, decay.duration),
                    duration: decay.duration,
                },
                DecayKind::Linear => crate::envelope::DecayEnvelope::Linear {
                    duration: decay.duration,
                },
            };
            let envelope = Some(crate::envelope::Envelope {
                attack: None,
                initial_volume,
                decay: Some(resolved),
                sustain: None,
                release: None,
            });
            channel_manager.allocate_drum(channel_id, *drum, envelope, initial_volume,
                Vec::new(), Vec::new(), true_time);
            play_drum_on_spu(spu, channel_id, sample,
                adjust_pan(sample.base_pan, drum.pan_addition), initial_volume,
                volume_multiplier);
            Ok(())
        },
        DrumInstructions::ExactVolumeAdjust { sample, adjustments } => {
            let initial_volume = sample.volume;
            let envelope = Some(crate::envelope::Envelope {
                attack: Some(crate::envelope::AttackEnvelope::Exact {
                    adjustments: copy_volume_adjustments(adjustments),
                }),
                initial_volume,
                decay: None,
                sustain: None,
                release: None,
            });
            channel_manager.allocate_drum(channel_id, *drum, envelope, initial_volume,
                Vec::new(), Vec::new(), true_time);
            play_drum_on_spu(spu, channel_id, sample,
                adjust_pan(sample.base_pan, drum.pan_addition), initial_volume,
                volume_multiplier);
            Ok(())
        },
        DrumInstructions::PitchThenRelease { sample, adjustments, sustain, release } => {
            let initial_volume = sample.volume;
            let envelope = Some(crate::envelope::Envelope {
                attack: None,
                initial_volume,
                decay: None,
                sustain: Some(crate::envelope::SustainEnvelope {
                    volume: sustain.volume, duration: sustain.duration,
                }),
                release: Some(*release),
            });
            channel_manager.allocate_drum(channel_id, *drum, envelope, initial_volume,
                copy_pitch_adjustments(adjustments), Vec::new(), true_time);
            play_drum_on_spu(spu, channel_id, sample,
                adjust_pan(sample.base_pan, drum.pan_addition), initial_volume,
                volume_multiplier);
            Ok(())
        },
        DrumInstructions::DsrPitchAdjust { sample, decay, sustain, release, adjustments } => {
            let initial_volume = sample.volume;
            let resolved = match decay.kind {
                DecayKind::Exponential => crate::envelope::DecayEnvelope::Exponential {
                    ratio_q32: decay_ratio(sustain.volume, initial_volume, decay.duration),
                    duration: decay.duration,
                },
                DecayKind::Linear => crate::envelope::DecayEnvelope::Linear {
                    duration: decay.duration,
                },
            };
            let envelope = Some(crate::envelope::Envelope {
                attack: None,
                initial_volume,
                decay: Some(resolved),
                sustain: Some(crate::envelope::SustainEnvelope {
                    volume: sustain.volume, duration: sustain.duration,
                }),
                release: Some(*release),
            });
            channel_manager.allocate_drum(channel_id, *drum, envelope, initial_volume,
                copy_pitch_adjustments(adjustments), Vec::new(), true_time);
            play_drum_on_spu(spu, channel_id, sample,
                adjust_pan(sample.base_pan, drum.pan_addition), initial_volume,
                volume_multiplier);
            Ok(())
        },
        DrumInstructions::RepeatOnce { sample, repeat_time } => {
            let initial_volume = sample.volume;
            let mut queued: Vec<(DrumSample, u32)> = Vec::new();
            queued.push((*sample, *repeat_time));
            channel_manager.allocate_drum(channel_id, *drum, None, initial_volume,
                Vec::new(), queued, true_time);
            play_drum_on_spu(spu, channel_id, sample,
                adjust_pan(sample.base_pan, drum.pan_addition), initial_volume,
                volume_multiplier);
            Ok(())
        },
        DrumInstructions::Multiple { samples } => {
            let mut queued: Vec<(DrumSample, u32)> = Vec::new();
            let mut k: usize = 0;
            while k < samples.len()
                invariant
                    k <= samples.len(),
                    (forall|j: int| 0 <= j < samples.len()
                        ==> (#[trigger] samples[j]).sample.wf() && samples[j].time <= 0xFFFF),
                    forall|j: int| 0 <= j < queued.len()
                        ==> (#[trigger] queued[j]).0.wf(),
                decreases samples.len() - k,
            {
                queued.push((samples[k].sample, samples[k].time));
                k = k + 1;
            }
            let first_volume = samples[0].sample.volume;
            channel_manager.allocate_drum(channel_id, *drum, None, first_volume,
                Vec::new(), queued, true_time);
            // the voice grid starts one tick after allocation, so a stage
            // scheduled at relative tick zero fires here
            if samples[0].time == 0 {
                let first = samples[0].sample;
                play_drum_on_spu(spu, channel_id, &first,
                    adjust_pan(first.base_pan, drum.pan_addition), first.volume,
                    volume_multiplier);
            }
            Ok(())
        },
        DrumInstructions::Noise { sample, attack, decay, sustain, release } => {
            let initial_volume = sample.volume;
            let ratio = decay_ratio(sustain.volume, initial_volume, decay.duration);
            let resolved_attack = match attack {
                AttackInstructions::Exact { adjustments } => {
                    crate::envelope::AttackEnvelope::Exact {
                        adjustments: copy_volume_adjustments(adjustments),
                    }
                },
                AttackInstructions::Linear { volume, duration } => {
                    crate::envelope::AttackEnvelope::Linear {
                        volume: *volume, duration: *duration,
                    }
                },
            };
            let envelope = Some(crate::envelope::Envelope {
                attack: Some(resolved_attack),
                initial_volume,
                decay: Some(crate::envelope::DecayEnvelope::Exponential {
                    ratio_q32: ratio, duration: decay.duration,
                }),
                sustain: Some(crate::envelope::SustainEnvelope {
                    volume: sustain.volume, duration: sustain.duration,
                }),
                release: Some(*release),
            });
            spu.set_channel_pan(channel_id, adjust_pan(sample.base_pan, drum.pan_addition));
            spu.set_adjusted_channel_volume(channel_id, initial_volume, volume_multiplier);
            spu.set_channel_timer_reload(channel_id, sample.timer_reload as u32);
            spu.channel_play_noise(channel_id);
            channel_manager.allocate_drum(channel_id, *drum, envelope, initial_volume,
                Vec::new(), Vec::new(), true_time);
            Ok(())
        },
        DrumInstructions::Simple { sample } => {
            let initial_volume = sample.volume;
            channel_manager.allocate_drum(channel_id, *drum, None, initial_volume,
                Vec::new(), Vec::new(), true_time);
            play_drum_on_spu(spu, channel_id, sample,
                adjust_pan(sample.base_pan, drum.pan_addition), initial_volume,
                volume_multiplier);
            Ok(())
        },
    }
}

/// The swing delay of a note step: odd steps are pushed back by the
/// record's swing offset.
pub open spec fn spec_swing(record: crate::record::Record, time: u32) -> int {
    match record.swing_offset {
        Some(s) => if time % 2 == 1 { s as int } else { 0 },
        None => 0,
    }
}

/// Whether any note triggers at this phrase position.
pub open spec fn spec_note_triggers_at(record: crate::record::Record, phrase: int) -> bool {
    exists|i: int| 0 <= i < record.notes.len()
        && (#[trigger] record.notes[i]).time * record.note_rate
            + spec_swing(record, record.notes[i].time) == phrase
}

/// Whether any drum triggers at this phrase position.
pub open spec fn spec_drum_triggers_at(record: crate::record::Record, phrase: int) -> bool {
    exists|i: int| 0 <= i < record.drums.len()
        && (#[trigger] record.drums[i]).time * record.note_rate
            + spec_swing(record, record.drums[i].time) == phrase
}

/// The quiet-sample condition: nothing triggers at this phrase position
/// and no voice holds queued future stages.
pub open spec fn spec_quiet_sample(record: crate::record::Record,
    m: crate::manager::ChannelManager, phrase: int) -> bool
{
    &&& !spec_note_triggers_at(record, phrase)
    &&& !spec_drum_triggers_at(record, phrase)
    &&& spec_no_pending_stages(m)
}

/// No sounding voice holds queued future envelope stages.
pub open spec fn spec_no_pending_stages(m: crate::manager::ChannelManager) -> bool {
    forall|i: int| 0 <= i < 16 ==> match #[trigger] m.channels@[i] {
        Channel::Used { future_adsr, .. } => future_adsr.len() == 0,
        _ => true,
    }
}

/// The sequencer position within the song's phrase pass: while passes
/// remain, the position wraps each pass; once a bounded song has run out
/// of passes, it runs on unwrapped so that nothing triggers again.
pub open spec fn spec_phrase_tick(record: crate::record::Record, tiny: int) -> int {
    let span = crate::TRACK_LENGTH as int * record.note_rate as int;
    let raw: int = match record.repeats {
        crate::record::Repeats::Never => 0,
        _ => tiny / span,
    };
    let rc: int = if raw > 0x7_0000 { 0x7_0000 } else { raw };
    match record.repeats {
        crate::record::Repeats::Endless => tiny % span,
        crate::record::Repeats::Never => tiny,
        crate::record::Repeats::Once => if rc <= 1 { tiny % span } else { tiny },
    }
}

/// One output sample of the whole engine: dispatches the song's note and
/// drum triggers due at this position, advances every voice's envelope,
/// re-arms multi-stage voices whose next stage is due, and mixes one
/// stereo frame.  Fails fast on an exhausted voice pool or a catalog gap,
/// as those are data defects rather than runtime conditions.
#[verifier::rlimit(100)]
pub fn advance_one_sample(
    spu: &mut crate::spu::Spu,
    timing: &mut Timing,
    channel_manager: &mut crate::manager::ChannelManager,
    record: &crate::record::Record,
    instruments: &Vec<Instrument>,
    rhythm_sections: &Vec<RhythmSection>,
    previous_notes: &mut Vec<Option<u8>>,
) -> (r: Result<(i16, i16), EngineError>)
    requires
        old(spu).wf(),
        old(channel_manager).wf(),
        record.wf(),
        spec_instruments_wf(instruments@),
        spec_sections_wf(rhythm_sections@),
        forall|i: int| 0 <= i < record.notes.len()
            ==> spec_note_dispatch_ok(#[trigger] record.notes[i], instruments@),
        old(previous_notes).len() == 4,
        old(timing).tiny_tick < 0xF000_0000,
    ensures
        final(spu).wf(),
        final(channel_manager).wf(),
        final(previous_notes).len() == 4,
        final(timing).tiny_tick == old(timing).tiny_tick + 1,
        spec_quiet_sample(*record, *old(channel_manager),
            final(timing).phrase_tick as int) ==> r is Ok,
        final(timing).phrase_tick == spec_phrase_tick(*record,
            old(timing).tiny_tick as int),
        !(r matches Err(EngineError::CatalogDefect)),
        final(spu).control == old(spu).control,
        final(spu).master_volume == old(spu).master_volume,
        final(spu).bias == old(spu).bias,
{
    let nr = record.note_rate;
    let tiny = timing.tiny_tick;

    // current pass over the song, capped far beyond any real session
    let repeat_raw: usize = match record.repeats {
        crate::record::Repeats::Never => 0,
        _ => tiny / (crate::TRACK_LENGTH * nr),
    };
    let repeat_count: usize = if repeat_raw > 0x7_0000 { 0x7_0000 } else { repeat_raw };

    let phrase_tick: usize = match record.repeats.exact() {
        None => tiny % (crate::TRACK_LENGTH * nr),
        Some(0) => tiny,
        Some(max_repeats) => {
            if repeat_count <= max_repeats {
                tiny % (32 * nr)
            } else {
                tiny
            }
        },
    };
    timing.phrase_tick = phrase_tick;

    // at the end of the last pass, every track is released
    if let Some(loop_times) = record.repeats.loop_times() {
        let step1: u64 = loop_times as u64 * crate::TRACK_LENGTH as u64;
        proof {
            assert((step1 as int) * (record.phrase_count as int) <= 64 * 256)
                by (nonlinear_arith)
                requires 0 <= step1 <= 64 && 0 <= record.phrase_count <= 256;
        }
        let step2: u64 = step1 * record.phrase_count as u64;
        proof {
            assert((step2 as int) * (nr as int) <= 16384 * 0x1_0000) by (nonlinear_arith)
                requires 0 <= step2 <= 16384 && 0 <= nr <= 0x1_0000;
        }
        let end: u64 = step2 * nr as u64;
        if tiny as u64 == end {
            let mut t: u8 = 0;
            while t < 16
                invariant
                    channel_manager.wf(),
                    1 <= nr <= 0x1_0000,
                    nr == record.note_rate,
                    tiny <= 0xFF_FFFF_FFFF,
                    spec_no_pending_stages(*old(channel_manager))
                        ==> spec_no_pending_stages(*channel_manager),
                decreases 16 - t,
            {
                channel_manager.release_tracks(t, tiny, record);
                t = t + 1;
            }
        }
    }

    // note triggers due at this phrase position
    let mut ni: usize = 0;
    while ni < record.notes.len()
        invariant
            spu.wf(),
            channel_manager.wf(),
            previous_notes.len() == 4,
            record.wf(),
            spec_instruments_wf(instruments@),
            forall|i: int| 0 <= i < record.notes.len()
                ==> spec_note_dispatch_ok(#[trigger] record.notes[i], instruments@),
            ni <= record.notes.len(),
            spu.control == old(spu).control,
            spu.master_volume == old(spu).master_volume,
            spu.bias == old(spu).bias,
            nr == record.note_rate,
            tiny < 0xF000_0000,
            tiny == old(timing).tiny_tick,
            timing.tiny_tick == tiny,
            timing.phrase_tick == phrase_tick,
            phrase_tick == spec_phrase_tick(*record, old(timing).tiny_tick as int),
            repeat_count <= 0x7_0000,
            phrase_tick <= 0xFF_FFFF_FFFF,
            spec_quiet_sample(*record, *old(channel_manager), phrase_tick as int)
                ==> spec_no_pending_stages(*channel_manager),
        decreases record.notes.len() - ni,
    {
        let note = record.notes[ni];
        proof {
            assert((note.time as int) * (nr as int) <= 0xFFFF * 0x1_0000)
                by (nonlinear_arith)
                requires 0 <= note.time <= 0xFFFF && 0 <= nr <= 0x1_0000;
        }
        let sw: usize = match record.swing_offset {
            Some(s) => if note.time % 2 == 1 { s } else { 0 },
            None => 0,
        };
        if note.time as u64 * nr as u64 + sw as u64 == phrase_tick as u64 {
            proof {
                assert(record.notes[ni as int].time * record.note_rate
                    + spec_swing(*record, record.notes[ni as int].time)
                    == phrase_tick as int);
                assert(spec_note_triggers_at(*record, phrase_tick as int));
            }
            let res = dispatch_note(channel_manager, spu, &note, instruments,
                previous_notes, record, tiny, repeat_count);
            if let Err(e) = res {
                timing.tiny_tick = tiny + 1;
                return Err(e);
            }
        }
        ni = ni + 1;
    }

    // drum triggers due at this phrase position
    let mut di: usize = 0;
    while di < record.drums.len()
        invariant
            spu.wf(),
            channel_manager.wf(),
            previous_notes.len() == 4,
            record.wf(),
            spec_sections_wf(rhythm_sections@),
            di <= record.drums.len(),
            spu.control == old(spu).control,
            spu.master_volume == old(spu).master_volume,
            spu.bias == old(spu).bias,
            nr == record.note_rate,
            tiny < 0xF000_0000,
            tiny == old(timing).tiny_tick,
            timing.tiny_tick == tiny,
            timing.phrase_tick == phrase_tick,
            phrase_tick == spec_phrase_tick(*record, old(timing).tiny_tick as int),
            repeat_count <= 0x7_0000,
            phrase_tick <= 0xFF_FFFF_FFFF,
            spec_quiet_sample(*record, *old(channel_manager), phrase_tick as int)
                ==> spec_no_pending_stages(*channel_manager),
        decreases record.drums.len() - di,
    {
        let drum = record.drums[di];
        proof {
            assert((drum.time as int) * (nr as int) <= 0xFFFF * 0x1_0000)
                by (nonlinear_arith)
                requires 0 <= drum.time <= 0xFFFF && 0 <= nr <= 0x1_0000;
        }
        let sw: usize = match record.swing_offset {
            Some(s) => if drum.time % 2 == 1 { s } else { 0 },
            None => 0,
        };
        if drum.time as u64 * nr as u64 + sw as u64 == phrase_tick as u64 {
            proof {
                assert(record.drums[di as int].time * record.note_rate
                    + spec_swing(*record, record.drums[di as int].time)
                    == phrase_tick as int);
                assert(spec_drum_triggers_at(*record, phrase_tick as int));
            }
            let res = dispatch_drum(channel_manager, spu, &drum, rhythm_sections,
                record, tiny, repeat_count);
            if let Err(e) = res {
                timing.tiny_tick = tiny + 1;
                return Err(e);
            }
        }
        di = di + 1;
    }

    timing.tiny_tick = tiny + 1;
    let tiny2 = timing.tiny_tick;

    // advance every voice's envelope on its own grid
    let mut rearm: Vec<usize> = Vec::new();
    let mut ci: usize = 0;
    while ci < 16
        invariant
            spu.wf(),
            channel_manager.wf(),
            ci <= 16,
            spu.control == old(spu).control,
            spu.master_volume == old(spu).master_volume,
            spu.bias == old(spu).bias,
            1 <= nr <= 0x1_0000,
            tiny2 <= 0xFF_FFFF_FFFF,
            forall|k: int| 0 <= k < rearm.len() ==> (#[trigger] rearm[k]) < 16,
            timing.tiny_tick == tiny2,
            tiny2 == old(timing).tiny_tick + 1,
            spec_quiet_sample(*record, *old(channel_manager), phrase_tick as int)
                ==> rearm.len() == 0,
            spec_quiet_sample(*record, *old(channel_manager), phrase_tick as int)
                ==> spec_no_pending_stages(*channel_manager),
            phrase_tick == timing.phrase_tick,
            phrase_tick == spec_phrase_tick(*record, old(timing).tiny_tick as int),
        decreases 16 - ci,
    {
        let wants_rearm = {
            let voice = &mut channel_manager.channels[ci];
            advance_voice(spu, voice, ci, tiny2, nr)
        };
        if wants_rearm {
            rearm.push(ci);
        }
        ci = ci + 1;
    }

    // re-arm voices whose next queued stage is due
    let mut ri: usize = 0;
    while ri < rearm.len()
        invariant
            spu.wf(),
            channel_manager.wf(),
            previous_notes.len() == 4,
            record.wf(),
            spec_instruments_wf(instruments@),
            ri <= rearm.len(),
            spu.control == old(spu).control,
            spu.master_volume == old(spu).master_volume,
            spu.bias == old(spu).bias,
            nr == record.note_rate,
            tiny2 <= 0xFF_FFFF_FFFF,
            repeat_count <= 0x7_0000,
            timing.tiny_tick == tiny2,
            tiny2 == old(timing).tiny_tick + 1,
            spec_quiet_sample(*record, *old(channel_manager), phrase_tick as int)
                ==> rearm.len() == 0,
            phrase_tick == timing.phrase_tick,
            phrase_tick == spec_phrase_tick(*record, old(timing).tiny_tick as int),
            forall|k: int| 0 <= k < rearm.len() ==> (#[trigger] rearm[k]) < 16,
        decreases rearm.len() - ri,
    {
        let i = rearm[ri];
        let picked: Option<(QueuedNote, (u32, u32))> = match &channel_manager.channels[i] {
            Channel::Used {
                sound: crate::manager::QueuedSound::Note(n), range, future_adsr, ..
            } => {
                if future_adsr.len() > 0 {
                    Some((*n, *range))
                } else {
                    None
                }
            },
            _ => None,
        };
        if let Some((note, range)) = picked {
            let in_range = note.note as u32 >= range.0
                && (note.note as u32 - range.0 <= range.1 || range.1 == 0)
                && range.1 <= 0xFFFF
                && (note.instrument as usize) < instruments.len()
                && note.track < 4;
            if in_range {
                let (future_rest, next_adsr, pitch) = match &channel_manager.channels[i] {
                    Channel::Used { future_adsr, pitch_adjustments, .. } => {
                        let mut f = copy_future_adsr(future_adsr);
                        let head = f.remove(0);
                        (f, head.1, copy_pitch_adjustments(pitch_adjustments))
                    },
                    _ => (Vec::new(), Adsr {
                        sample: InstrumentSample::PSG(ProgrammableSample {
                            volume: (0, 0), base_timer_reload: 0, table_index: 0,
                        }),
                        attack: None, decay: None, sustain: None, release: None,
                    }, Vec::new()),
                };
                let table_ok = match &next_adsr.sample {
                    InstrumentSample::PSG(p) => {
                        !(p.base_timer_reload == 62868 || p.base_timer_reload == 22792
                            || p.base_timer_reload == 54852 || p.base_timer_reload == 41548)
                        || note.note as u32 - range.0 < 25
                    },
                    InstrumentSample::PCM16(_) => true,
                };
                if table_ok {
                    proof {
                        assert((note.time as int) * (nr as int) <= 0xFFFF * 0x1_0000)
                            by (nonlinear_arith)
                            requires 0 <= note.time <= 0xFFFF && 0 <= nr <= 0x1_0000;
                    }
                    channel_manager.release_tracks(note.track, tiny2, record);
                    let started: u64 = note.time as u64 * nr as u64;
                    let tk: u64 = if started > tiny2 as u64 {
                        0
                    } else {
                        (tiny2 as u64 - started) / crate::EVENT_TIMING as u64
                    };
                    let tk2: u64 = if tk > 0xFFFF_FFFF { 0xFFFF_FFFF } else { tk };
                    let res = add_adsr_to_channel(channel_manager, spu, &note, range,
                        instruments, &next_adsr, future_rest, tk2, previous_notes,
                        Some(PossiblePitchAdjustment::Exact(pitch)), repeat_count);
                    if res.is_none() {
                        return Err(EngineError::VoicePoolExhausted);
                    }
                }
            }
        }
        ri = ri + 1;
    }

    let out = spu.mix(1);
    Ok(out)
}

/// Decides whether a pitch adjustment schedule lies within the pitch
/// formula's domain.
fn check_pitch_adjs(v: &Vec<TimedRelativePitchAdjustment>) -> (r: bool)
    ensures
        r == spec_pitch_adjs_wf(v@),
{
    let mut i: usize = 0;
    while i < v.len()
        invariant
            i <= v.len(),
            forall|k: int| 0 <= k < i
                ==> -0x10_0000 <= (#[trigger] v@[k]).pitch_adjust_q16 <= 0x10_0000
                    && v@[k].time <= 0xFFFF,
        decreases v.len() - i,
    {
        if !(-0x10_0000 <= v[i].pitch_adjust_q16 && v[i].pitch_adjust_q16 <= 0x10_0000
            && v[i].time <= 0xFFFF) {
            return false;
        }
        i = i + 1;
    }
    true
}

/// Decides whether an interpolable breakpoint table is well formed.
fn check_ivol_adjs(v: &Vec<InstrumentTimedVolumeAdjustment>) -> (r: bool)
    ensures
        r == spec_ivol_adjs_wf(v@),
{
    if v.len() == 0 {
        return false;
    }
    let mut i: usize = 0;
    while i < v.len()
        invariant
            i <= v.len(),
            forall|k: int| 0 <= k < i
                ==> (#[trigger] v@[k]).volume.0 <= MAX_ENGINE_VOLUME
                    && v@[k].volume.1 <= MAX_ENGINE_VOLUME
                    && v@[k].time <= 0xFFFF,
        decreases v.len() - i,
    {
        if !(v[i].volume.0 <= MAX_ENGINE_VOLUME && v[i].volume.1 <= MAX_ENGINE_VOLUME
            && v[i].time <= 0xFFFF) {
            return false;
        }
        i = i + 1;
    }
    true
}

/// Decides whether one envelope stage set is well formed.
pub fn check_adsr(a: &Adsr) -> (r: bool)
    ensures
        r == a.wf(),
{
    let sample_ok = match &a.sample {
        InstrumentSample::PCM16(s) => {
            s.volume.0 <= MAX_ENGINE_VOLUME && s.volume.1 <= MAX_ENGINE_VOLUME
                && s.loop_pos <= 0x3_FFFC && s.length <= 0x7F_FFFC
                && s.src_address <= 0x07FF_FFFC
        },
        InstrumentSample::PSG(s) => {
            s.volume.0 <= MAX_ENGINE_VOLUME && s.volume.1 <= MAX_ENGINE_VOLUME
                && s.table_index < 8
        },
    };
    let attack_ok = match &a.attack {
        Some(InstrumentAttack::Exact { adjustments })
        | Some(InstrumentAttack::ExactWithMagicPitch { adjustments }) => {
            check_ivol_adjs(adjustments)
        },
        None => true,
    };
    let decay_ok = match &a.decay {
        Some(InstrumentDecay::Exponential { duration }) => 1 <= *duration && *duration <= 0xFFFF,
        Some(InstrumentDecay::ExponentialWithVariableSustain { duration,
            sustain_duration }) => {
            1 <= *duration && *duration <= 0xFFFF && sustain_duration.0 < *duration
                && sustain_duration.1 < *duration
        },
        Some(InstrumentDecay::ExponentialWithWobble { duration, wobble_start,
            max_wobble_q16, wave_duration }) => {
            1 <= *duration && *duration <= 0xFFFF && *wobble_start <= *duration
                && 1 <= *wave_duration && 0 <= *max_wobble_q16 && *max_wobble_q16 <= 0x10_0000
        },
        Some(InstrumentDecay::ExponentialRising { duration, rise_start,
            max_rise_q16 }) => {
            1 <= *duration && *duration <= 0xFFFF && *rise_start < *duration
                && 0 <= *max_rise_q16 && *max_rise_q16 <= 0x10_0000
        },
        Some(InstrumentDecay::Linear { duration }) => *duration <= 0xFFFF,
        None => true,
    };
    let sustain_ok = match &a.sustain {
        Some(s) => s.volume.0 <= MAX_ENGINE_VOLUME && s.volume.1 <= MAX_ENGINE_VOLUME
            && s.duration <= 0xFFFF,
        None => true,
    };
    let release_ok = match &a.release {
        Some(InstrumentRelease::ExponentialUntil { duration, .. }) => {
            1 <= *duration && *duration <= 0xFFFF
        },
        Some(InstrumentRelease::Geometric { ratio_q32 }) => {
            *ratio_q32 < crate::fixed::ONE_Q32
        },
        Some(InstrumentRelease::GeometricStopBlowing { ratio_q32 }) => {
            *ratio_q32 < crate::fixed::ONE_Q32
        },
        Some(InstrumentRelease::Static(v)) => {
            v.0 <= MAX_ENGINE_VOLUME && v.1 <= MAX_ENGINE_VOLUME
        },
        _ => true,
    };
    sample_ok && attack_ok && decay_ok && sustain_ok && release_ok
}

/// Decides whether a queue of future envelope stages is well formed.
fn check_future_adsr(v: &Vec<(u32, Adsr)>) -> (r: bool)
    ensures
        r == spec_future_adsr_wf(v@),
{
    let mut i: usize = 0;
    while i < v.len()
        invariant
            i <= v.len(),
            forall|k: int| 0 <= k < i
                ==> (#[trigger] v@[k]).1.wf() && v@[k].0 <= 0xFFFF,
        decreases v.len() - i,
    {
        if !(check_adsr(&v[i].1) && v[i].0 <= 0xFFFF) {
            return false;
        }
        i = i + 1;
    }
    true
}

/// Decides whether one catalog instrument is well formed: every stage set
/// within volume bounds, pitch offsets within the formula's domain, and a
/// scheduled multi-stage timbre holding an immediate first stage.
pub fn check_instrument(ins: &Instrument) -> (r: bool)
    ensures
        r == ins.wf(),
{
    if !check_pitch_adjs(&ins.pitch_adjustments) {
        return false;
    }
    match &ins.instructions {
        InstrumentInstructions::Adsr(a) => check_adsr(a),
        InstrumentInstructions::Dual(pair) => check_adsr(&pair[0]) && check_adsr(&pair[1]),
        InstrumentInstructions::Ranged(rs) => {
            if rs.len() == 0 {
                return false;
            }
            let mut i: usize = 0;
            while i < rs.len()
                invariant
                    i <= rs.len(),
                    (ins.instructions matches InstrumentInstructions::Ranged(v2)
                        && v2 == *rs),
                    forall|k: int| 0 <= k < i ==> (#[trigger] rs@[k]).adsr.wf(),
                decreases rs.len() - i,
            {
                if !check_adsr(&rs[i].adsr) {
                    return false;
                }
                i = i + 1;
            }
            true
        },
        InstrumentInstructions::TimedMultiple(ts) => {
            if ts.len() == 0 {
                return false;
            }
            let mut has_zero = false;
            let mut i: usize = 0;
            while i < ts.len()
                invariant
                    i <= ts.len(),
                    (ins.instructions matches InstrumentInstructions::TimedMultiple(v2)
                        && v2 == *ts),
                    forall|k: int| 0 <= k < i
                        ==> (#[trigger] ts@[k]).1.wf() && ts@[k].0 <= 0xFFFF,
                    has_zero == exists|k: int| 0 <= k < i && (#[trigger] ts@[k]).0 == 0,
                decreases ts.len() - i,
            {
                if !(check_adsr(&ts[i].1) && ts[i].0 <= 0xFFFF) {
                    return false;
                }
                if ts[i].0 == 0 {
                    has_zero = true;
                }
                i = i + 1;
            }
            has_zero
        },
        InstrumentInstructions::Random(vs) => {
            if vs.len() == 0 {
                return false;
            }
            let mut i: usize = 0;
            while i < vs.len()
                invariant
                    i <= vs.len(),
                    (ins.instructions matches InstrumentInstructions::Random(v2)
                        && v2 == *vs),
                    forall|k: int| 0 <= k < i ==> (#[trigger] vs@[k]).wf(),
                decreases vs.len() - i,
            {
                if !check_adsr(&vs[i]) {
                    return false;
                }
                i = i + 1;
            }
            true
        },
        InstrumentInstructions::Cricket(cs) => {
            if cs.len() == 0 {
                return false;
            }
            let mut i: usize = 0;
            while i < cs.len()
                invariant
                    i <= cs.len(),
                    (ins.instructions matches InstrumentInstructions::Cricket(v2)
                        && v2 == *cs),
                    forall|k: int| 0 <= k < i ==> (#[trigger] cs@[k]).wf(),
                decreases cs.len() - i,
            {
                if !(check_adsr(&cs[i].adsr) && check_pitch_adjs(&cs[i].pitch_adjustments)
                    && check_future_adsr(&cs[i].future_adsr)) {
                    return false;
                }
                i = i + 1;
            }
            true
        },
    }
}

/// Decides whether a whole melodic catalog is well formed, so that an
/// embedder can validate external catalog data before playback.
pub fn check_instruments(instruments: &Vec<Instrument>) -> (r: bool)
    ensures
        r == spec_instruments_wf(instruments@),
{
    let mut i: usize = 0;
    while i < instruments.len()
        invariant
            i <= instruments.len(),
            forall|k: int| 0 <= k < i ==> (#[trigger] instruments@[k]).wf(),
        decreases instruments.len() - i,
    {
        if !check_instrument(&instruments[i]) {
            return false;
        }
        i = i + 1;
    }
    true
}

/// Decides whether a drum sample's registers lie within bounds.
fn check_drum_sample(s: &DrumSample) -> (r: bool)
    ensures
        r == s.wf(),
{
    s.volume <= MAX_ENGINE_VOLUME && s.loop_pos <= 0x3_FFFC
        && s.length <= 0x7F_FFFC && s.src_address <= 0x07FF_FFFC
}

/// Decides whether one drum descriptor is well formed.
pub fn check_drum(d: &DrumInstructions) -> (r: bool)
    ensures
        r == d.wf(),
{
    match d {
        DrumInstructions::Dsr { sample, decay, sustain, release } => {
            check_drum_sample(sample) && 1 <= decay.duration && decay.duration <= 0xFFFF
                && sustain.volume <= MAX_ENGINE_VOLUME && sustain.duration <= 0xFFFF
                && check_release(release) && sample.volume >= 1 && sustain.volume >= 1
        },
        DrumInstructions::Sr { sample, sustain, release } => {
            check_drum_sample(sample) && sustain.volume <= MAX_ENGINE_VOLUME
                && sustain.duration <= 0xFFFF && check_release(release)
                && sustain.volume >= 1
        },
        DrumInstructions::Decay { sample, decay, final_volume } => {
            check_drum_sample(sample) && 1 <= decay.duration && decay.duration <= 0xFFFF
                && *final_volume <= MAX_ENGINE_VOLUME && sample.volume >= 1
        },
        DrumInstructions::Simple { sample } => check_drum_sample(sample),
        DrumInstructions::ExactVolumeAdjust { sample, adjustments } => {
            if !check_drum_sample(sample) || adjustments.len() == 0 {
                return false;
            }
            let mut i: usize = 0;
            while i < adjustments.len()
                invariant
                    i <= adjustments.len(),
                    (*d matches DrumInstructions::ExactVolumeAdjust {
                        adjustments: a2, .. } && a2 == *adjustments),
                    forall|k: int| 0 <= k < i
                        ==> (#[trigger] adjustments@[k]).volume <= MAX_ENGINE_VOLUME
                            && adjustments@[k].time <= 0xFFFF,
                decreases adjustments.len() - i,
            {
                if !(adjustments[i].volume <= MAX_ENGINE_VOLUME
                    && adjustments[i].time <= 0xFFFF) {
                    return false;
                }
                i = i + 1;
            }
            true
        },
        DrumInstructions::DsrPitchAdjust { sample, decay, sustain, release, .. } => {
            check_drum_sample(sample) && 1 <= decay.duration && decay.duration <= 0xFFFF
                && sustain.volume <= MAX_ENGINE_VOLUME && sustain.duration <= 0xFFFF
                && check_release(release) && sample.volume >= 1 && sustain.volume >= 1
        },
        DrumInstructions::PitchThenRelease { sample, sustain, release, .. } => {
            check_drum_sample(sample) && sustain.volume <= MAX_ENGINE_VOLUME
                && sustain.duration <= 0xFFFF && check_release(release)
                && sustain.volume >= 1
        },
        DrumInstructions::RepeatOnce { sample, repeat_time } => {
            check_drum_sample(sample) && *repeat_time <= 0xFFFF
        },
        DrumInstructions::Multiple { samples } => {
            if samples.len() == 0 {
                return false;
            }
            let mut i: usize = 0;
            while i < samples.len()
                invariant
                    i <= samples.len(),
                    (*d matches DrumInstructions::Multiple { samples: s2 }
                        && s2 == *samples),
                    forall|k: int| 0 <= k < i
                        ==> (#[trigger] samples@[k]).sample.wf()
                            && samples@[k].time <= 0xFFFF,
                decreases samples.len() - i,
            {
                if !(check_drum_sample(&samples[i].sample) && samples[i].time <= 0xFFFF) {
                    return false;
                }
                i = i + 1;
            }
            true
        },
        DrumInstructions::Noise { sample, attack, decay, sustain, release } => {
            let noise_ok = sample.volume <= MAX_ENGINE_VOLUME;
            let attack_ok: bool = match attack {
                AttackInstructions::Linear { volume, duration } => {
                    *volume <= MAX_ENGINE_VOLUME && *duration <= 0xFFFF
                },
                AttackInstructions::Exact { adjustments } => {
                    if adjustments.len() == 0 {
                        return false;
                    }
                    let mut i: usize = 0;
                    let mut ok = true;
                    while i < adjustments.len()
                        invariant
                            i <= adjustments.len(),
                            ok == forall|k: int| 0 <= k < i
                                ==> (#[trigger] adjustments@[k]).volume
                                    <= MAX_ENGINE_VOLUME
                                    && adjustments@[k].time <= 0xFFFF,
                        decreases adjustments.len() - i,
                    {
                        if !(adjustments[i].volume <= MAX_ENGINE_VOLUME
                            && adjustments[i].time <= 0xFFFF) {
                            ok = false;
                        }
                        i = i + 1;
                    }
                    ok
                },
            };
            noise_ok && attack_ok && 1 <= decay.duration && decay.duration <= 0xFFFF
                && sustain.volume <= MAX_ENGINE_VOLUME && sustain.duration <= 0xFFFF
                && check_release(release) && sample.volume >= 1 && sustain.volume >= 1
        },
    }
}

/// Decides whether a resolved release phase is well formed.
fn check_release(r0: &crate::envelope::ReleaseInstructions) -> (r: bool)
    ensures
        r == r0.wf(),
{
    match r0 {
        crate::envelope::ReleaseInstructions::Geometric { ratio_q32 } => {
            *ratio_q32 < crate::fixed::ONE_Q32
        },
        crate::envelope::ReleaseInstructions::GeometricStopBlowing { ratio_q32 } => {
            *ratio_q32 < crate::fixed::ONE_Q32
        },
        crate::envelope::ReleaseInstructions::Exponential { duration } => *duration >= 1,
        crate::envelope::ReleaseInstructions::ExponentialUntil { duration, .. } => {
            *duration >= 1
        },
        crate::envelope::ReleaseInstructions::Static(v) => *v <= MAX_ENGINE_VOLUME,
        _ => true,
    }
}

/// Decides whether a whole drum catalog is well formed: eight sections of
/// fourteen drums, each descriptor within bounds.
pub fn check_sections(sections: &Vec<RhythmSection>) -> (r: bool)
    ensures
        r == spec_sections_wf(sections@),
{
    if sections.len() != RHYTHM_SECTION_COUNT {
        return false;
    }
    let mut i: usize = 0;
    while i < sections.len()
        invariant
            i <= sections.len(),
            forall|k: int| 0 <= k < i ==> (#[trigger] sections@[k]).wf(),
        decreases sections.len() - i,
    {
        if sections[i].instructions.len() != DRUM_COUNT {
            return false;
        }
        let mut j: usize = 0;
        while j < sections[i].instructions.len()
            invariant
                i < sections.len(),
                j <= sections@[i as int].instructions.len(),
                forall|k: int| 0 <= k < i ==> (#[trigger] sections@[k]).wf(),
                sections@[i as int].instructions.len() == DRUM_COUNT,
                forall|k: int| 0 <= k < j
                    ==> (#[trigger] sections@[i as int].instructions@[k]).wf(),
            decreases sections[i as int].instructions.len() - j,
        {
            if !check_drum(&sections[i].instructions[j]) {
                return false;
            }
            j = j + 1;
        }
        i = i + 1;
    }
    true
}

/// Decides whether a note step stays within a lookup-table timbre's
/// measured table.
fn check_psg_note(a: &Adsr, note: u32, low: u32) -> (r: bool)
    ensures
        r == spec_psg_table_note_ok(*a, note, low),
{
    match &a.sample {
        InstrumentSample::PSG(p) => {
            if p.base_timer_reload == 62868 || p.base_timer_reload == 22792
                || p.base_timer_reload == 54852 || p.base_timer_reload == 41548 {
                note >= low && note - low < 25
            } else {
                true
            }
        },
        InstrumentSample::PCM16(_) => true,
    }
}

/// Decides whether every note of a song resolves against the catalog:
/// the instrument exists, the note lies in a covering range, and the
/// lookup-table tone timbres see a note step within their tables.  An
/// embedder validates external song and catalog data with this before
/// driving the engine.
pub fn check_record_dispatch(record: &crate::record::Record,
    instruments: &Vec<Instrument>) -> (r: bool)
    ensures
        r == forall|i: int| 0 <= i < record.notes.len()
            ==> spec_note_dispatch_ok(#[trigger] record.notes@[i], instruments@),
{
    let mut ni: usize = 0;
    while ni < record.notes.len()
        invariant
            ni <= record.notes.len(),
            forall|k: int| 0 <= k < ni
                ==> spec_note_dispatch_ok(#[trigger] record.notes@[k], instruments@),
        decreases record.notes.len() - ni,
    {
        let n = record.notes[ni];
        if (n.instrument as usize) >= instruments.len() {
            return false;
        }
        let ok: bool = match &instruments[n.instrument as usize].instructions {
            InstrumentInstructions::Adsr(a) => {
                n.note <= 24 && check_psg_note(a, n.note as u32, 0)
            },
            InstrumentInstructions::Dual(pair) => {
                n.note <= 24 && check_psg_note(&pair[0], n.note as u32, 0)
                    && check_psg_note(&pair[1], n.note as u32, 0)
            },
            InstrumentInstructions::TimedMultiple(ts) => {
                let mut all = n.note <= 24;
                let mut k: usize = 0;
                while k < ts.len()
                    invariant
                        k <= ts.len(),
                        all == (n.note <= 24 && forall|j: int| 0 <= j < k
                            ==> spec_psg_table_note_ok((#[trigger] ts@[j]).1,
                                n.note as u32, 0)),
                    decreases ts.len() - k,
                {
                    if !check_psg_note(&ts[k].1, n.note as u32, 0) {
                        all = false;
                    }
                    k = k + 1;
                }
                all
            },
            InstrumentInstructions::Random(vs) => {
                let mut all = n.note <= 24;
                let mut k: usize = 0;
                while k < vs.len()
                    invariant
                        k <= vs.len(),
                        all == (n.note <= 24 && forall|j: int| 0 <= j < k
                            ==> spec_psg_table_note_ok(#[trigger] vs@[j],
                                n.note as u32, 0)),
                    decreases vs.len() - k,
                {
                    if !check_psg_note(&vs[k], n.note as u32, 0) {
                        all = false;
                    }
                    k = k + 1;
                }
                all
            },
            InstrumentInstructions::Ranged(rs) => {
                let mut covered = false;
                let mut tables_ok = true;
                let mut k: usize = 0;
                while k < rs.len()
                    invariant
                        k <= rs.len(),
                        covered == exists|j: int| 0 <= j < k
                            && (#[trigger] rs@[j]).low <= n.note <= rs@[j].high,
                        tables_ok == forall|j: int| 0 <= j < k && rs@[j].low <= n.note
                            ==> spec_psg_table_note_ok((#[trigger] rs@[j]).adsr,
                                n.note as u32, rs@[j].low as u32),
                    decreases rs.len() - k,
                {
                    if rs[k].low <= n.note && n.note <= rs[k].high {
                        covered = true;
                    }
                    if rs[k].low <= n.note {
                        if !check_psg_note(&rs[k].adsr, n.note as u32, rs[k].low as u32) {
                            tables_ok = false;
                        }
                    }
                    k = k + 1;
                }
                covered && tables_ok
            },
            InstrumentInstructions::Cricket(cs) => {
                let mut covered = false;
                let mut tables_ok = true;
                let mut k: usize = 0;
                while k < cs.len()
                    invariant
                        k <= cs.len(),
                        covered == exists|j: int| 0 <= j < k
                            && (#[trigger] cs@[j]).low <= n.note <= cs@[j].high,
                        tables_ok == forall|j: int| 0 <= j < k && cs@[j].low <= n.note
                            ==> spec_psg_table_note_ok((#[trigger] cs@[j]).adsr,
                                n.note as u32, cs@[j].low as u32),
                    decreases cs.len() - k,
                {
                    if cs[k].low <= n.note && n.note <= cs[k].high {
                        covered = true;
                    }
                    if cs[k].low <= n.note {
                        if !check_psg_note(&cs[k].adsr, n.note as u32, cs[k].low as u32) {
                            tables_ok = false;
                        }
                    }
                    k = k + 1;
                }
                covered && tables_ok
            },
        };
        if !ok {
            return false;
        }
        ni = ni + 1;
    }
    true
}

} // verus!
