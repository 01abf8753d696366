//! Voice allocation: maps note and drum triggers onto the sixteen hardware
//! lanes with a strict tier-ordered stealing policy, and moves released
//! voices through their release phase bookkeeping.
use vstd::prelude::*;

verus! {

use crate::envelope::Envelope;
use crate::envelope::ReleaseInstructions;
use crate::envelope::TimedPitchAdjustment;
use crate::envelope::MAX_ENGINE_VOLUME;
use crate::engine::Adsr;
use crate::engine::DrumSample;
use crate::record::Record;
use crate::EVENT_TIMING;

/// Largest absolute stereo pan offset a trigger may carry.
pub const MAX_PAN_ADDITION: i32 = 0x8000;

/// A note trigger taken from the sequence source.
#[derive(Debug, Clone, Copy, PartialEq, Eq, Structural)]
pub struct QueuedNote {
    pub time: u32,
    pub instrument: u32,
    pub note: u8,
    pub track: u8,
    pub pan_addition: i32,
    /// Track volume scaling in Q16 (1.0 = 0x10000).
    pub volume_multiplier_q16: u32,
}

/// A drum trigger taken from the sequence source.
#[derive(Debug, Clone, Copy, PartialEq, Eq, Structural)]
pub struct QueuedDrum {
    pub time: u32,
    pub section: usize,
    pub id: usize,
    pub pretend_track: u8,
    pub pan_addition: i32,
    /// Track volume scaling in Q16 (1.0 = 0x10000).
    pub volume_multiplier_q16: u32,
}

/// The trigger a voice is sounding.
#[derive(Debug, Clone, Copy, PartialEq, Eq, Structural)]
pub enum QueuedSound {
    Note(QueuedNote),
    Drum(QueuedDrum),
}

impl QueuedSound {
    pub open spec fn wf(self) -> bool {
        match self {
            QueuedSound::Note(n) => n.volume_multiplier_q16 <= 0x1_0000
                && -MAX_PAN_ADDITION <= n.pan_addition <= MAX_PAN_ADDITION
                && n.time <= 0xFFFF,
            QueuedSound::Drum(d) => d.volume_multiplier_q16 <= 0x1_0000
                && -MAX_PAN_ADDITION <= d.pan_addition <= MAX_PAN_ADDITION
                && d.time <= 0xFFFF,
        }
    }

    /// Trigger step of this sound within the song.
    pub fn time(&self) -> (r: u32)
        ensures
            r == match self {
                QueuedSound::Note(n) => n.time,
                QueuedSound::Drum(d) => d.time,
            },
    {
        match self {
            QueuedSound::Note(note) => note.time,
            QueuedSound::Drum(drum) => drum.time,
        }
    }

    /// Logical track the sound belongs to (drums use pretend tracks).
    pub fn track(&self) -> (r: u8)
        ensures
            r == self.spec_track(),
    {
        match self {
            QueuedSound::Note(note) => note.track,
            QueuedSound::Drum(drum) => drum.pretend_track,
        }
    }

    pub open spec fn spec_track(self) -> u8 {
        match self {
            QueuedSound::Note(n) => n.track,
            QueuedSound::Drum(d) => d.pretend_track,
        }
    }

    /// Track volume scaling in Q16.
    pub fn volume_multiplier(&self) -> (r: u32)
        ensures
            r == self.spec_volume_multiplier(),
    {
        match self {
            QueuedSound::Note(note) => note.volume_multiplier_q16,
            QueuedSound::Drum(drum) => drum.volume_multiplier_q16,
        }
    }

    pub open spec fn spec_volume_multiplier(self) -> u32 {
        match self {
            QueuedSound::Note(n) => n.volume_multiplier_q16,
            QueuedSound::Drum(d) => d.volume_multiplier_q16,
        }
    }

    /// Stereo offset the trigger carries.
    pub fn pan_addition(&self) -> (r: i32)
        ensures
            r == self.spec_pan_addition(),
    {
        match self {
            QueuedSound::Note(note) => note.pan_addition,
            QueuedSound::Drum(drum) => drum.pan_addition,
        }
    }

    pub open spec fn spec_pan_addition(self) -> i32 {
        match self {
            QueuedSound::Note(n) => n.pan_addition,
            QueuedSound::Drum(d) => d.pan_addition,
        }
    }
}

/// One logical voice slot, bound 1:1 to the hardware lane of its index.
#[derive(Debug)]
pub enum Channel {
    /// Free.
    Open,
    /// Actively sounding.
    Used {
        sound: QueuedSound,
        envelope: Option<Envelope>,
        volume: u32,
        /// Q32 volume accumulator for exponential envelope segments.
        volume_acc: u64,
        pitch_adjustments: Vec<TimedPitchAdjustment>,
        /// Queued future envelope segments for multi-stage timbres.
        future_adsr: Vec<(u32, Adsr)>,
        /// Scheduled one-shot retriggers for multi-sample drums.
        queued_samples: Vec<(DrumSample, u32)>,
        start_tick: u64,
        range: (u32, u32),
        /// Song step at which the voice was started.
        true_time: usize,
    },
    /// In release.
    Freeing {
        sound: QueuedSound,
        initial_release_volume: u32,
        volume: u32,
        /// Q32 volume accumulator for the release curve.
        volume_acc: u64,
        kill_tick: u64,
        release: Option<ReleaseInstructions>,
        true_time: usize,
    },
    /// Reserved mid-allocation.
    Withheld,
    /// Permanently excluded (the capture feed lanes).
    Blocked,
}

impl Channel {
    pub open spec fn wf(self) -> bool {
        match self {
            Channel::Used {
                sound, envelope, volume, volume_acc, future_adsr, queued_samples, range,
                true_time, ..
            } => {
                &&& sound.wf()
                &&& match envelope {
                    Some(e) => e.wf(),
                    None => true,
                }
                &&& volume <= MAX_ENGINE_VOLUME
                &&& volume_acc <= crate::fixed::MAX_ACC_Q32
                &&& (forall|i: int| 0 <= i < future_adsr.len()
                    ==> (#[trigger] future_adsr[i]).1.wf()
                        && future_adsr[i].0 <= 0xFFFF)
                &&& (forall|i: int| 0 <= i < queued_samples.len()
                    ==> (#[trigger] queued_samples[i]).0.wf())
                &&& range.1 <= 0xFFFF
                &&& true_time <= 0xFF_FFFF
            },
            Channel::Freeing { sound, initial_release_volume, volume, volume_acc, release,
                true_time, .. } => {
                &&& sound.wf()
                &&& initial_release_volume <= MAX_ENGINE_VOLUME
                &&& volume <= MAX_ENGINE_VOLUME
                &&& volume_acc < 0x800_0000_0000
                &&& volume == volume_acc / 0x1_0000_0000
                &&& match release {
                    Some(r) => r.wf(),
                    None => true,
                }
                &&& true_time <= 0xFF_FFFF
            },
            _ => true,
        }
    }

    /// Tier predicates of the allocation policy.
    pub open spec fn is_open(self) -> bool {
        self is Open
    }

    pub open spec fn is_quiet_freeing(self) -> bool {
        match self {
            Channel::Freeing { volume, .. } => volume <= 1,
            _ => false,
        }
    }

    pub open spec fn is_freeing(self) -> bool {
        self is Freeing
    }

    pub open spec fn is_same_track_drum(self, track: u8) -> bool {
        match self {
            Channel::Used { sound: QueuedSound::Drum(d), .. } => d.pretend_track == track,
            _ => false,
        }
    }

    pub open spec fn is_same_track_note(self, track: u8) -> bool {
        match self {
            Channel::Used { sound: QueuedSound::Note(n), .. } => n.track == track,
            _ => false,
        }
    }

    /// Whether this slot matches allocation tier `tier` for `track`.
    pub open spec fn matches_tier(self, tier: int, track: u8) -> bool {
        if tier == 1 { self.is_open() }
        else if tier == 2 { self.is_quiet_freeing() }
        else if tier == 3 { self.is_same_track_drum(track) }
        else if tier == 4 { self.is_freeing() }
        else { self.is_same_track_note(track) }
    }
}

/// First lane of `order` whose slot matches `tier`.
pub open spec fn spec_first_match(channels: Seq<Channel>, order: Seq<usize>, tier: int,
    track: u8) -> Option<usize>
    decreases order.len()
{
    if order.len() == 0 {
        None
    } else if channels[order[0] as int].matches_tier(tier, track) {
        Some(order[0])
    } else {
        spec_first_match(channels, order.drop_first(), tier, track)
    }
}

/// A found lane matches its tier; a miss means no lane of the order does.
pub proof fn lemma_first_match_sound(channels: Seq<Channel>, order: Seq<usize>, tier: int,
    track: u8)
    requires
        forall|k: int| 0 <= k < order.len() ==> (#[trigger] order[k]) < channels.len(),
    ensures
        match spec_first_match(channels, order, tier, track) {
            Some(i) => channels[i as int].matches_tier(tier, track)
                && (exists|k: int| 0 <= k < order.len() && order[k] == i),
            None => forall|k: int| 0 <= k < order.len()
                ==> !(#[trigger] channels[order[k] as int]).matches_tier(tier, track),
        },
    decreases order.len(),
{
    if order.len() > 0 {
        if channels[order[0] as int].matches_tier(tier, track) {
            assert(order[0] == order[0]);
        } else {
            lemma_first_match_sound(channels, order.drop_first(), tier, track);
            match spec_first_match(channels, order.drop_first(), tier, track) {
                Some(i) => {
                    let k = choose|k: int| 0 <= k < order.drop_first().len()
                        && order.drop_first()[k] == i;
                    assert(order[k + 1] == i);
                }
                None => {
                    assert forall|k: int| 0 <= k < order.len()
                        implies !(#[trigger] channels[order[k] as int]).matches_tier(tier, track)
                    by {
                        if k > 0 {
                            assert(order.drop_first()[k - 1] == order[k]);
                        }
                    }
                }
            }
        }
    }
}

/// Scans `order` for the first lane whose slot matches `tier`.
fn find_tier(channels: &Vec<Channel>, order: &Vec<usize>, tier: u8, track: u8)
    -> (r: Option<usize>)
    requires
        1 <= tier <= 5,
        channels.len() == 16,
        forall|k: int| 0 <= k < order.len() ==> (#[trigger] order[k]) < 16,
    ensures
        r == spec_first_match(channels@, order@, tier as int, track),
        r matches Some(i) ==> i < 16,
{
    let mut k: usize = 0;
    proof {
        assert(order@.skip(0) =~= order@);
    }
    while k < order.len()
        invariant
            k <= order.len(),
            1 <= tier <= 5,
            channels.len() == 16,
            forall|j: int| 0 <= j < order.len() ==> (#[trigger] order@[j]) < 16,
            spec_first_match(channels@, order@, tier as int, track)
                == spec_first_match(channels@, order@.skip(k as int), tier as int, track),
        decreases order.len() - k,
    {
        proof {
            assert(order@.skip(k as int)[0] == order@[k as int]);
            assert(order@.skip(k as int).drop_first() =~= order@.skip(k + 1));
        }
        let i = order[k];
        let c = &channels[i];
        let hit: bool = if tier == 1 {
            matches!(c, Channel::Open)
        } else if tier == 2 {
            match c {
                Channel::Freeing { volume, .. } => *volume <= 1,
                _ => false,
            }
        } else if tier == 3 {
            match c {
                Channel::Used { sound: QueuedSound::Drum(d), .. } => d.pretend_track == track,
                _ => false,
            }
        } else if tier == 4 {
            matches!(c, Channel::Freeing { .. })
        } else {
            match c {
                Channel::Used { sound: QueuedSound::Note(n), .. } => n.track == track,
                _ => false,
            }
        };
        if hit {
            return Some(i);
        }
        k = k + 1;
    }
    None
}

/// The slot a voice holds after its track is released at song position
/// `mio_tick`: a same-track sounding voice moves to its release phase with
/// the volume snapshotted as both current and initial release level and
/// its resolved release curve captured; every other slot is untouched.
pub open spec fn spec_release_one(pre: Channel, track: u8, mio_tick: int,
    note_rate: int) -> Channel
{
    match pre {
        Channel::Used { sound, envelope, volume, true_time, .. } => {
            if sound.spec_track() == track {
                Channel::Freeing {
                    sound,
                    initial_release_volume: volume,
                    volume,
                    volume_acc: (volume as int * 0x1_0000_0000) as u64,
                    kill_tick: (if true_time * note_rate > mio_tick {
                        0int
                    } else {
                        (mio_tick - true_time * note_rate) / (EVENT_TIMING as int)
                    }) as u64,
                    release: match envelope {
                        Some(e) => e.release,
                        None => None,
                    },
                    true_time,
                }
            } else {
                pre
            }
        },
        _ => pre,
    }
}

/// The whole voice table after a release of `track`.
pub open spec fn spec_release_pool(channels: Seq<Channel>, track: u8, mio_tick: int,
    note_rate: int) -> Seq<Channel>
{
    Seq::new(channels.len(), |i: int| spec_release_one(channels[i], track, mio_tick,
        note_rate))
}

/// The sixteen voice slots, indexed by hardware lane.
#[derive(Debug)]
pub struct ChannelManager {
    pub channels: Vec<Channel>,
}

/// Preferred lane order for melodic sampled voices.
pub open spec fn spec_pcm_order() -> Seq<usize> {
    seq![4usize, 5, 6, 7, 0, 2, 8, 9, 10, 11, 12, 13, 14, 15]
}

/// Preferred lane order for programmable-tone voices.
pub open spec fn spec_psg_order() -> Seq<usize> {
    seq![8usize, 9, 10, 11, 12, 13]
}

/// Preferred lane order for noise voices.
pub open spec fn spec_noise_order() -> Seq<usize> {
    seq![14usize, 15]
}

/// The lane granted to a melodic sampled request, by the five-tier policy:
/// a free lane, a silent releasing lane, a same-track drum, any releasing
/// lane, then a same-track melodic voice.
pub open spec fn spec_pcm_grant(channels: Seq<Channel>, track: u8) -> Option<usize> {
    let o = spec_pcm_order();
    if spec_first_match(channels, o, 1, track) is Some {
        spec_first_match(channels, o, 1, track)
    } else if spec_first_match(channels, o, 2, track) is Some {
        spec_first_match(channels, o, 2, track)
    } else if spec_first_match(channels, o, 3, track) is Some {
        spec_first_match(channels, o, 3, track)
    } else if spec_first_match(channels, o, 4, track) is Some {
        spec_first_match(channels, o, 4, track)
    } else {
        spec_first_match(channels, o, 5, track)
    }
}

/// The lane granted to a programmable-tone request: a free lane (left
/// unreserved, so an immediate key-on claims it), a silent releasing lane, any
/// releasing lane, then a same-track melodic voice.
pub open spec fn spec_psg_grant(channels: Seq<Channel>, track: u8) -> Option<usize> {
    let o = spec_psg_order();
    if spec_first_match(channels, o, 1, track) is Some {
        spec_first_match(channels, o, 1, track)
    } else if spec_first_match(channels, o, 2, track) is Some {
        spec_first_match(channels, o, 2, track)
    } else if spec_first_match(channels, o, 4, track) is Some {
        spec_first_match(channels, o, 4, track)
    } else {
        spec_first_match(channels, o, 5, track)
    }
}

/// The lane granted to a noise request: a free lane (unreserved), a silent
/// releasing lane, a same-track drum, a same-track melodic voice, with
/// lane 14 as the final fallback.
pub open spec fn spec_noise_grant(channels: Seq<Channel>, track: u8) -> Option<usize> {
    let o = spec_noise_order();
    if spec_first_match(channels, o, 1, track) is Some {
        spec_first_match(channels, o, 1, track)
    } else if spec_first_match(channels, o, 2, track) is Some {
        spec_first_match(channels, o, 2, track)
    } else if spec_first_match(channels, o, 3, track) is Some {
        spec_first_match(channels, o, 3, track)
    } else if spec_first_match(channels, o, 5, track) is Some {
        spec_first_match(channels, o, 5, track)
    } else {
        Some(14usize)
    }
}

impl ChannelManager {
    pub open spec fn wf(self) -> bool {
        &&& self.channels.len() == 16
        &&& forall|i: int| 0 <= i < 16 ==> (#[trigger] self.channels[i]).wf()
    }

    /// The standard lane map: all lanes open except the two capture feed
    /// lanes, which are permanently blocked.
    pub fn new() -> (r: ChannelManager)
        ensures
            r.wf(),
            forall|i: int| 0 <= i < 16 && i != 1 && i != 3
                ==> (#[trigger] r.channels[i]) is Open,
            r.channels[1] is Blocked,
            r.channels[3] is Blocked,
    {
        let mut channels: Vec<Channel> = Vec::new();
        channels.push(Channel::Open);
        channels.push(Channel::Blocked);
        channels.push(Channel::Open);
        channels.push(Channel::Blocked);
        let mut i: usize = 4;
        while i < 16
            invariant
                4 <= i <= 16,
                channels.len() == i,
                forall|k: int| 0 <= k < i && k != 1 && k != 3
                    ==> (#[trigger] channels[k]) is Open,
                channels[1] is Blocked,
                channels[3] is Blocked,
            decreases 16 - i,
        {
            channels.push(Channel::Open);
            i = i + 1;
        }
        ChannelManager { channels }
    }

    /// Grants a lane for a melodic sampled note and reserves it.
    pub fn request_channel_pcm(&mut self, track: u8) -> (r: Option<usize>)
        requires
            old(self).wf(),
        ensures
            final(self).wf(),
            r == spec_pcm_grant(old(self).channels@, track),
            match r {
                Some(i) => i < 16
                    && final(self).channels@ =~= old(self).channels@
                        .update(i as int, Channel::Withheld),
                None => final(self).channels@ == old(self).channels@,
            },
    {
        let order: Vec<usize> = vec![4, 5, 6, 7, 0, 2, 8, 9, 10, 11, 12, 13, 14, 15];
        proof {
            assert(order@ =~= spec_pcm_order());
        }
        if let Some(i) = find_tier(&self.channels, &order, 1, track) {
            self.channels.set(i, Channel::Withheld);
            return Some(i);
        }
        if let Some(i) = find_tier(&self.channels, &order, 2, track) {
            self.channels.set(i, Channel::Withheld);
            return Some(i);
        }
        if let Some(i) = find_tier(&self.channels, &order, 3, track) {
            self.channels.set(i, Channel::Withheld);
            return Some(i);
        }
        if let Some(i) = find_tier(&self.channels, &order, 4, track) {
            self.channels.set(i, Channel::Withheld);
            return Some(i);
        }
        if let Some(i) = find_tier(&self.channels, &order, 5, track) {
            self.channels.set(i, Channel::Withheld);
            return Some(i);
        }
        None
    }

    /// Grants a lane for a programmable-tone note; every tier but the
    /// free-lane one reserves the lane.
    pub fn request_channel_psg(&mut self, track: u8) -> (r: Option<usize>)
        requires
            old(self).wf(),
        ensures
            final(self).wf(),
            r == spec_psg_grant(old(self).channels@, track),
            match r {
                Some(i) => i < 16
                    && (final(self).channels@ == old(self).channels@
                        || final(self).channels@ =~= old(self).channels@
                            .update(i as int, Channel::Withheld)),
                None => final(self).channels@ == old(self).channels@,
            },
            (r matches Some(i) && old(self).channels@[i as int] is Open)
                ==> final(self).channels@ == old(self).channels@,
    {
        let order: Vec<usize> = vec![8, 9, 10, 11, 12, 13];
        proof {
            assert(order@ =~= spec_psg_order());
            lemma_first_match_sound(self.channels@, spec_psg_order(), 1, track);
        }
        if let Some(i) = find_tier(&self.channels, &order, 1, track) {
            return Some(i);
        }
        if let Some(i) = find_tier(&self.channels, &order, 2, track) {
            proof {
                lemma_first_match_sound(self.channels@, spec_psg_order(), 2, track);
            }
            self.channels.set(i, Channel::Withheld);
            return Some(i);
        }
        if let Some(i) = find_tier(&self.channels, &order, 4, track) {
            proof {
                lemma_first_match_sound(self.channels@, spec_psg_order(), 4, track);
            }
            self.channels.set(i, Channel::Withheld);
            return Some(i);
        }
        if let Some(i) = find_tier(&self.channels, &order, 5, track) {
            proof {
                lemma_first_match_sound(self.channels@, spec_psg_order(), 5, track);
            }
            self.channels.set(i, Channel::Withheld);
            return Some(i);
        }
        None
    }

    /// Grants a lane for a noise drum; lane 14 is taken as a last resort.
    pub fn request_channel_noise(&mut self, track: u8) -> (r: Option<usize>)
        requires
            old(self).wf(),
        ensures
            final(self).wf(),
            r == spec_noise_grant(old(self).channels@, track),
            r matches Some(i) && i < 16,
            match r {
                Some(i) => final(self).channels@ == old(self).channels@
                    || final(self).channels@ =~= old(self).channels@
                        .update(i as int, Channel::Withheld),
                None => false,
            },
    {
        let order: Vec<usize> = vec![14, 15];
        proof {
            assert(order@ =~= spec_noise_order());
        }
        if let Some(i) = find_tier(&self.channels, &order, 1, track) {
            return Some(i);
        }
        if let Some(i) = find_tier(&self.channels, &order, 2, track) {
            self.channels.set(i, Channel::Withheld);
            return Some(i);
        }
        if let Some(i) = find_tier(&self.channels, &order, 3, track) {
            self.channels.set(i, Channel::Withheld);
            return Some(i);
        }
        if let Some(i) = find_tier(&self.channels, &order, 5, track) {
            self.channels.set(i, Channel::Withheld);
            return Some(i);
        }
        Some(14)
    }

    /// Fills a granted lane with a melodic voice.
    pub fn allocate_pcm(&mut self, channel_id: usize, note: QueuedNote,
        envelope: Option<Envelope>, volume: u32,
        pitch_adjustments: Vec<TimedPitchAdjustment>, future_adsr: Vec<(u32, Adsr)>,
        start_tick: u64, range: (u32, u32), true_time: usize)
        requires
            old(self).wf(),
            channel_id < 16,
            QueuedSound::Note(note).wf(),
            match envelope {
                Some(e) => e.wf(),
                None => true,
            },
            volume <= MAX_ENGINE_VOLUME,
            forall|i: int| 0 <= i < future_adsr.len()
                ==> (#[trigger] future_adsr[i]).1.wf() && future_adsr[i].0 <= 0xFFFF,
            range.1 <= 0xFFFF,
            true_time <= 0xFF_FFFF,
        ensures
            final(self).wf(),
            forall|k: int| 0 <= k < 16 && k != channel_id
                ==> #[trigger] final(self).channels@[k] == old(self).channels@[k],
            final(self).channels@[channel_id as int] matches Channel::Used {
                sound, envelope: e, volume: v, volume_acc, pitch_adjustments: pa,
                future_adsr: fa, queued_samples, start_tick: st, range: rg, true_time: tt
            } && sound == QueuedSound::Note(note)
                && e == envelope
                && v == volume
                && volume_acc == volume as u64 * 0x1_0000_0000
                && pa == pitch_adjustments
                && fa == future_adsr
                && st == start_tick
                && rg == range
                && tt == true_time
                && queued_samples.len() == 0,
    {
        let slot = Channel::Used {
            sound: QueuedSound::Note(note),
            envelope,
            volume,
            volume_acc: volume as u64 * 0x1_0000_0000,
            pitch_adjustments,
            future_adsr,
            queued_samples: Vec::new(),
            start_tick,
            range,
            true_time,
        };
        self.channels.set(channel_id, slot);
    }

    /// Fills a granted lane with a drum voice.
    pub fn allocate_drum(&mut self, channel_id: usize, drum: QueuedDrum,
        envelope: Option<Envelope>, volume: u32,
        pitch_adjustments: Vec<TimedPitchAdjustment>,
        queued_samples: Vec<(DrumSample, u32)>, true_time: usize)
        requires
            old(self).wf(),
            channel_id < 16,
            QueuedSound::Drum(drum).wf(),
            match envelope {
                Some(e) => e.wf(),
                None => true,
            },
            volume <= MAX_ENGINE_VOLUME,
            true_time <= 0xFF_FFFF,
            forall|i: int| 0 <= i < queued_samples.len()
                ==> (#[trigger] queued_samples[i]).0.wf(),
        ensures
            final(self).wf(),
            forall|k: int| 0 <= k < 16 && k != channel_id
                ==> #[trigger] final(self).channels@[k] == old(self).channels@[k],
            final(self).channels@[channel_id as int] matches Channel::Used {
                sound, envelope: e, volume: v, volume_acc, queued_samples: qs,
                future_adsr, start_tick, true_time: tt, ..
            } && sound == QueuedSound::Drum(drum)
                && e == envelope
                && v == volume
                && volume_acc == volume as u64 * 0x1_0000_0000
                && qs == queued_samples
                && start_tick == 0
                && tt == true_time
                && future_adsr.len() == 0,
    {
        let slot = Channel::Used {
            sound: QueuedSound::Drum(drum),
            envelope,
            volume,
            volume_acc: volume as u64 * 0x1_0000_0000,
            pitch_adjustments,
            future_adsr: Vec::new(),
            queued_samples,
            start_tick: 0,
            range: (0, 0),
            true_time,
        };
        self.channels.set(channel_id, slot);
    }

    /// Moves every sounding voice of `track` into its release phase,
    /// snapshotting the current volume as both the current and initial
    /// release level and capturing the voice's resolved release curve.
    pub fn release_tracks(&mut self, track: u8, mio_tick: usize, record: &Record)
        requires
            old(self).wf(),
            1 <= record.note_rate <= 0x1_0000,
            mio_tick <= 0xFF_FFFF_FFFF,
        ensures
            final(self).wf(),
            final(self).channels.len() == 16,
            forall|i: int| 0 <= i < 16 && (#[trigger] final(self).channels@[i]) is Used
                ==> final(self).channels@[i] == old(self).channels@[i],
            final(self).channels@ == spec_release_pool(old(self).channels@, track,
                mio_tick as int, record.note_rate as int),
    {
        let mut i: usize = 0;
        while i < 16
            invariant
                self.wf(),
                i <= 16,
                self.channels.len() == 16,
                1 <= record.note_rate <= 0x1_0000,
                mio_tick <= 0xFF_FFFF_FFFF,
                old(self).wf(),
                forall|k: int| i <= k < 16
                    ==> #[trigger] self.channels@[k] == old(self).channels@[k],
                forall|k: int| 0 <= k < i && (#[trigger] self.channels@[k]) is Used
                    ==> self.channels@[k] == old(self).channels@[k],
                forall|k: int| 0 <= k < i
                    ==> #[trigger] self.channels@[k] == spec_release_one(
                        old(self).channels@[k], track, mio_tick as int,
                        record.note_rate as int),
            decreases 16 - i,
        {
            let is_match: bool = match &self.channels[i] {
                Channel::Used { sound, .. } => sound.track() == track,
                _ => false,
            };
            if is_match {
                let (sound, volume, true_time, release) = match &self.channels[i] {
                    Channel::Used { sound, volume, true_time, envelope, .. } => (
                        *sound,
                        *volume,
                        *true_time,
                        match envelope {
                            Some(e) => e.release,
                            None => None,
                        },
                    ),
                    _ => (QueuedSound::Note(QueuedNote {
                        time: 0, instrument: 0, note: 0, track: 0, pan_addition: 0,
                        volume_multiplier_q16: 0,
                    }), 0, 0, None),
                };
                proof {
                    assert((true_time as int) * (record.note_rate as int) >= 0)
                        by (nonlinear_arith)
                        requires true_time >= 0 && record.note_rate >= 0;
                }
                proof {
                    assert((true_time as int) * (record.note_rate as int)
                        <= 0xFF_FFFF * 0x1_0000) by (nonlinear_arith)
                        requires 0 <= true_time <= 0xFF_FFFF
                            && 0 <= record.note_rate <= 0x1_0000;
                }
                let started: u64 = true_time as u64 * record.note_rate as u64;
                let tick: u64 = if started > mio_tick as u64 {
                    0
                } else {
                    (mio_tick as u64 - started) / EVENT_TIMING as u64
                };
                self.channels.set(i, Channel::Freeing {
                    sound,
                    volume,
                    initial_release_volume: volume,
                    volume_acc: volume as u64 * 0x1_0000_0000,
                    kill_tick: tick,
                    release,
                    true_time,
                });
            }
            i = i + 1;
        }
        proof {
            assert(self.channels@ =~= spec_release_pool(old(self).channels@, track,
                mio_tick as int, record.note_rate as int));
        }
    }
}

/// If some lane of `order` matches `tier`, the scan finds one.
pub proof fn lemma_first_match_complete(channels: Seq<Channel>, order: Seq<usize>, tier: int,
    track: u8)
    requires
        exists|k: int| 0 <= k < order.len()
            && (#[trigger] channels[order[k] as int]).matches_tier(tier, track),
    ensures
        spec_first_match(channels, order, tier, track) is Some,
    decreases order.len(),
{
    let k = choose|k: int| 0 <= k < order.len()
        && (#[trigger] channels[order[k] as int]).matches_tier(tier, track);
    if !channels[order[0] as int].matches_tier(tier, track) {
        assert(order.drop_first()[k - 1] == order[k]);
        lemma_first_match_complete(channels, order.drop_first(), tier, track);
    }
}

/// The preferred lane order for melodic voices only names real lanes.
pub proof fn lemma_pcm_order_bounds()
    ensures
        forall|k: int| 0 <= k < spec_pcm_order().len()
            ==> (#[trigger] spec_pcm_order()[k]) < 16,
{
    let o = spec_pcm_order();
    assert forall|k: int| 0 <= k < o.len() implies (#[trigger] o[k]) < 16 by {
        if k == 0 { assert(o[0] == 4); }
        else if k == 1 { assert(o[1] == 5); }
        else if k == 2 { assert(o[2] == 6); }
        else if k == 3 { assert(o[3] == 7); }
        else if k == 4 { assert(o[4] == 0); }
        else if k == 5 { assert(o[5] == 2); }
        else if k == 6 { assert(o[6] == 8); }
        else if k == 7 { assert(o[7] == 9); }
        else if k == 8 { assert(o[8] == 10); }
        else if k == 9 { assert(o[9] == 11); }
        else if k == 10 { assert(o[10] == 12); }
        else if k == 11 { assert(o[11] == 13); }
        else if k == 12 { assert(o[12] == 14); }
        else { assert(o[13] == 15); }
    }
}

/// Allocation fallback ordering: while any preferred lane is `Open` the
/// melodic policy grants an `Open` lane, never a releasing or stolen one;
/// with no `Open` lane but a silent releasing lane, a silent releasing
/// lane is granted rather than any forced steal.
pub proof fn lemma_pcm_fallback_ordering(channels: Seq<Channel>, track: u8)
    requires
        channels.len() == 16,
    ensures
        (exists|k: int| 0 <= k < spec_pcm_order().len()
            && (#[trigger] channels[spec_pcm_order()[k] as int]).is_open())
            ==> (spec_pcm_grant(channels, track) matches Some(i)
                && channels[i as int].is_open()),
        ((forall|k: int| 0 <= k < spec_pcm_order().len()
            ==> !(#[trigger] channels[spec_pcm_order()[k] as int]).is_open())
            && (exists|k: int| 0 <= k < spec_pcm_order().len()
                && (#[trigger] channels[spec_pcm_order()[k] as int]).is_quiet_freeing()))
            ==> (spec_pcm_grant(channels, track) matches Some(i)
                && channels[i as int].is_quiet_freeing()),
{
    let o = spec_pcm_order();
    lemma_pcm_order_bounds();
    lemma_first_match_sound(channels, o, 1, track);
    lemma_first_match_sound(channels, o, 2, track);
    if exists|k: int| 0 <= k < o.len()
        && (#[trigger] channels[o[k] as int]).is_open() {
        lemma_first_match_complete(channels, o, 1, track);
    }
    if (forall|k: int| 0 <= k < o.len()
        ==> !(#[trigger] channels[o[k] as int]).is_open())
        && (exists|k: int| 0 <= k < o.len()
            && (#[trigger] channels[o[k] as int]).is_quiet_freeing()) {
        lemma_first_match_complete(channels, o, 2, track);
    }
}

/// Allocation exclusivity: a granted lane is reserved (`Withheld`), and a
/// reserved lane matches no allocation tier, so a second request can never
/// be granted the lane of a pending allocation.  Together with the 1:1
/// slot-to-lane layout this keeps two simultaneously sounding voices off
/// one hardware lane.
pub proof fn lemma_pcm_grant_exclusive(channels: Seq<Channel>, i: usize, track1: u8,
    track2: u8)
    requires
        channels.len() == 16,
        spec_pcm_grant(channels, track1) == Some(i),
    ensures
        spec_pcm_grant(channels.update(i as int, Channel::Withheld), track2) != Some(i),
{
    let o = spec_pcm_order();
    lemma_pcm_order_bounds();
    lemma_first_match_sound(channels, o, 1, track1);
    lemma_first_match_sound(channels, o, 2, track1);
    lemma_first_match_sound(channels, o, 3, track1);
    lemma_first_match_sound(channels, o, 4, track1);
    lemma_first_match_sound(channels, o, 5, track1);
    assert(i < 16);
    let up = channels.update(i as int, Channel::Withheld);
    lemma_first_match_sound(up, o, 1, track2);
    lemma_first_match_sound(up, o, 2, track2);
    lemma_first_match_sound(up, o, 3, track2);
    lemma_first_match_sound(up, o, 4, track2);
    lemma_first_match_sound(up, o, 5, track2);
    if spec_pcm_grant(up, track2) == Some(i) {
        assert(up[i as int].matches_tier(1, track2)
            || up[i as int].matches_tier(2, track2)
            || up[i as int].matches_tier(3, track2)
            || up[i as int].matches_tier(4, track2)
            || up[i as int].matches_tier(5, track2));
        assert(false);
    }
}

} // verus!
