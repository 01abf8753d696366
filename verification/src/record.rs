//! The sequencer's song data: time-tagged note and drum trigger events and
//! the song-level repeat mode.
use vstd::prelude::*;

verus! {

/// How the song behaves when the last phrase has been played.
#[derive(Debug, Clone, Copy, PartialEq, Eq, Structural)]
pub enum Repeats {
    Never,
    Once,
    Endless,
}

impl Repeats {
    /// Number of extra passes over the song, or `None` for endless looping.
    pub fn exact(self) -> (r: Option<usize>)
        ensures
            r == match self {
                Repeats::Never => Some(0usize),
                Repeats::Once => Some(1usize),
                Repeats::Endless => None::<usize>,
            },
    {
        match self {
            Repeats::Never => Some(0),
            Repeats::Once => Some(1),
            Repeats::Endless => None,
        }
    }

    /// Total passes after which every track is released, or `None` for endless.
    pub fn loop_times(self) -> (r: Option<usize>)
        ensures
            r == match self {
                Repeats::Never => Some(1usize),
                Repeats::Once => Some(2usize),
                Repeats::Endless => None::<usize>,
            },
    {
        match self {
            Repeats::Never => Some(1),
            Repeats::Once => Some(2),
            Repeats::Endless => None,
        }
    }
}

use crate::manager::QueuedNote;
use crate::manager::QueuedDrum;
use crate::manager::QueuedSound;

/// A decoded song: time-ordered note and drum triggers plus playback
/// parameters.
#[derive(Debug)]
pub struct Record {
    pub notes: Vec<QueuedNote>,
    pub drums: Vec<QueuedDrum>,
    pub repeats: Repeats,
    /// Phrases in the song.
    pub phrase_count: usize,
    /// Hardware ticks per note step.
    pub note_rate: usize,
    /// Extra delay of every odd note step, for swing feel.
    pub swing_offset: Option<usize>,
}

impl Record {
    pub open spec fn wf(self) -> bool {
        &&& 1 <= self.note_rate <= 0x1_0000
        &&& 1 <= self.phrase_count <= 256
        &&& (forall|i: int| 0 <= i < self.notes.len() ==> {
            &&& (#[trigger] self.notes[i]).time < self.phrase_count * 32
            &&& QueuedSound::Note(self.notes[i]).wf()
            &&& self.notes[i].track < 4
        })
        &&& (forall|i: int| 0 <= i < self.drums.len() ==> {
            &&& (#[trigger] self.drums[i]).time < self.phrase_count * 32
            &&& QueuedSound::Drum(self.drums[i]).wf()
            &&& self.drums[i].section < 8
            &&& self.drums[i].id < 14
            &&& 4 <= self.drums[i].pretend_track < 8
        })
        &&& match self.swing_offset {
            Some(s) => s < self.note_rate,
            None => true,
        }
    }
}

/// Track volume setting (0 to 4) as a Q16 multiplier.
fn volume_multiplier_of(setting: u8) -> (r: Option<u32>)
    ensures
        r matches Some(v) ==> v <= 0x1_0000,
        r is Some <==> setting <= 4,
        r == (if setting == 0 { Some(0u32) } else if setting == 1 { Some(0x4000u32) }
            else if setting == 2 { Some(0x8000u32) } else if setting == 3 {
                Some(0xAAAAu32) }
            else if setting == 4 { Some(0x1_0000u32) } else { None }),
{
    if setting == 0 { Some(0) }
    else if setting == 1 { Some(0x4000) }
    else if setting == 2 { Some(0x8000) }
    else if setting == 3 { Some(0xAAAA) }
    else if setting == 4 { Some(0x1_0000) }
    else { None }
}

/// Track pan setting (0 to 4) as a stereo offset.
fn pan_addition_of(setting: u8) -> (r: Option<i32>)
    ensures
        r matches Some(v) ==> -64 <= v <= 64,
        r is Some <==> setting <= 4,
        r == (if setting == 0 { Some(-64i32) } else if setting == 1 { Some(-32i32) }
            else if setting == 2 { Some(0i32) } else if setting == 3 { Some(32i32) }
            else if setting == 4 { Some(64i32) } else { None }),
{
    if setting == 0 { Some(-64) }
    else if setting == 1 { Some(-32) }
    else if setting == 2 { Some(0) }
    else if setting == 3 { Some(32) }
    else if setting == 4 { Some(64) }
    else { None }
}

impl Record {
    /// Decodes a song byte image by its size: the compact recorded form or
    /// the full in-memory form.  Any other size, or a byte that no field
    /// accepts, yields `None` (a data defect, reported rather than masked).
    pub fn from_mio(mio_data: &Vec<u8>) -> (r: Option<Record>)
        ensures
            r matches Some(rec) ==> rec.wf(),
            mio_data.len() != 8192 && mio_data.len() != 65536 ==> r is None,
    {
        if mio_data.len() == 8192 {
            Self::from_record(mio_data)
        } else if mio_data.len() == 65536 {
            Self::from_game(mio_data)
        } else {
            None
        }
    }

    /// Decodes the full in-memory song form: one phrase of four melodic
    /// tracks and four drum rows at fixed offsets.
    pub fn from_game(mio_data: &Vec<u8>) -> (r: Option<Record>)
        requires
            mio_data.len() == 65536,
        ensures
            r matches Some(rec) ==> rec.wf(),
    {
        let drum_volume = mio_data[0xBA61 + 4];
        let drum_pan = mio_data[0xBA66 + 4];
        let drum_set = (mio_data[0xBA6F] % 8) as usize;
        let repeats = if mio_data[0xE605] == 0 {
            Repeats::Never
        } else if mio_data[0xE605] == 1 {
            Repeats::Once
        } else {
            Repeats::Endless
        };

        let mut queued_drums: Vec<QueuedDrum> = Vec::new();
        let mut i: usize = 0;
        while i < 32
            invariant
                i <= 32,
                mio_data.len() == 65536,
                drum_set < 8,
                forall|k: int| 0 <= k < queued_drums.len() ==> {
                    &&& (#[trigger] queued_drums[k]).time < 32
                    &&& QueuedSound::Drum(queued_drums[k]).wf()
                    &&& queued_drums[k].section < 8
                    &&& queued_drums[k].id < 14
                    &&& 4 <= queued_drums[k].pretend_track < 8
                },
            decreases 32 - i,
        {
            let mut drum_index: usize = 0;
            while drum_index < 4
                invariant
                    i < 32,
                    drum_index <= 4,
                    mio_data.len() == 65536,
                    drum_set < 8,
                    forall|k: int| 0 <= k < queued_drums.len() ==> {
                        &&& (#[trigger] queued_drums[k]).time < 32
                        &&& QueuedSound::Drum(queued_drums[k]).wf()
                        &&& queued_drums[k].section < 8
                        &&& queued_drums[k].id < 14
                        &&& 4 <= queued_drums[k].pretend_track < 8
                    },
                decreases 4 - drum_index,
            {
                let drum_used = mio_data[0xB9E1 + i + drum_index * 32];
                if drum_used != 255 {
                    if drum_used > 13 {
                        return None;
                    }
                    let pan_addition = match pan_addition_of(drum_pan) {
                        Some(p) => p,
                        None => {
                            return None;
                        },
                    };
                    let volume_multiplier = match volume_multiplier_of(drum_volume) {
                        Some(v) => v,
                        None => {
                            return None;
                        },
                    };
                    queued_drums.push(QueuedDrum {
                        time: i as u32,
                        volume_multiplier_q16: volume_multiplier,
                        pan_addition,
                        section: drum_set,
                        id: 13 - drum_used as usize,
                        pretend_track: 4 + drum_index as u8,
                    });
                }
                drum_index = drum_index + 1;
            }
            i = i + 1;
        }

        let mut queued_notes: Vec<QueuedNote> = Vec::new();
        let mut track_index: usize = 0;
        while track_index < 4
            invariant
                track_index <= 4,
                mio_data.len() == 65536,
                forall|k: int| 0 <= k < queued_notes.len() ==> {
                    &&& (#[trigger] queued_notes[k]).time < 32
                    &&& QueuedSound::Note(queued_notes[k]).wf()
                    &&& queued_notes[k].track < 4
                },
            decreases 4 - track_index,
        {
            let song_offset = 0xB961 + track_index * 32;
            let instrument_used = mio_data[0xBA6B + track_index];
            let instrument_volume = mio_data[0xBA61 + track_index];
            let instrument_pan = mio_data[0xBA66 + track_index];

            let mut i2: usize = 0;
            while i2 < 32
                invariant
                    track_index < 4,
                    i2 <= 32,
                    mio_data.len() == 65536,
                    song_offset == 0xB961 + track_index * 32,
                    forall|k: int| 0 <= k < queued_notes.len() ==> {
                        &&& (#[trigger] queued_notes[k]).time < 32
                        &&& QueuedSound::Note(queued_notes[k]).wf()
                        &&& queued_notes[k].track < 4
                    },
                decreases 32 - i2,
            {
                let note = mio_data[song_offset + i2];
                if note != 255 {
                    let pan_addition = match pan_addition_of(instrument_pan) {
                        Some(p) => p,
                        None => {
                            return None;
                        },
                    };
                    let volume_multiplier = match volume_multiplier_of(instrument_volume) {
                        Some(v) => v,
                        None => {
                            return None;
                        },
                    };
                    queued_notes.push(QueuedNote {
                        time: i2 as u32,
                        instrument: instrument_used as u32,
                        note,
                        track: track_index as u8,
                        volume_multiplier_q16: volume_multiplier,
                        pan_addition,
                    });
                }
                i2 = i2 + 1;
            }
            track_index = track_index + 1;
        }

        Some(Record {
            notes: queued_notes,
            drums: queued_drums,
            repeats,
            phrase_count: 1,
            note_rate: crate::NOTE_RATE,
            swing_offset: None,
        })
    }

    /// Decodes the compact recorded song form: up to the declared number of
    /// phrases, each a fixed-size segment, with a tempo byte setting the
    /// note rate and an optional swing feel.
    pub fn from_record(mio_data: &Vec<u8>) -> (r: Option<Record>)
        requires
            mio_data.len() == 8192,
        ensures
            r matches Some(rec) ==> rec.wf(),
    {
        let tempo: u32 = mio_data[0x101] as u32 * 10 + 60;
        let is_swing = mio_data[0x100] != 0;
        // ticks per note step at this tempo: the sample rate over the
        // number of eighth steps per second
        let note_rate: usize = (crate::SAMPLE_RATE * 15) / (tempo as usize);
        if note_rate == 0 {
            return None;
        }
        proof {
            assert(crate::SAMPLE_RATE * 15 == 492360int);
            assert(492360int / (tempo as int) <= 0x1_0000) by (nonlinear_arith)
                requires tempo >= 60;
            assert(note_rate as int / 3 < note_rate as int) by (nonlinear_arith)
                requires note_rate >= 1;
        }
        let swing_jump: usize = note_rate / 3;
        let swing_offset = if is_swing { Some(swing_jump) } else { None };

        // every per-segment read stays inside the 8192-byte image up to
        // 28 segments (the last byte touched is 0x215 + 27 * 0x114)
        let phrase_count = mio_data[0x102] as usize;
        if phrase_count == 0 || phrase_count > 28 {
            return None;
        }

        let mut queued_drums: Vec<QueuedDrum> = Vec::new();
        let mut seg: usize = 0;
        while seg < phrase_count
            invariant
                seg <= phrase_count,
                1 <= phrase_count <= 28,
                mio_data.len() == 8192,
                forall|k: int| 0 <= k < queued_drums.len() ==> {
                    &&& (#[trigger] queued_drums[k]).time < phrase_count * 32
                    &&& QueuedSound::Drum(queued_drums[k]).wf()
                    &&& queued_drums[k].section < 8
                    &&& queued_drums[k].id < 14
                    &&& 4 <= queued_drums[k].pretend_track < 8
                },
            decreases phrase_count - seg,
        {
            let so = seg * 0x114;
            let drum_volume = mio_data[0x207 + so + 4];
            let drum_pan = mio_data[0x20C + so + 4];
            let drum_set = (mio_data[0x211 + so + 4] % 8) as usize;
            let mut i: usize = 0;
            while i < 32
                invariant
                    seg < phrase_count,
                    1 <= phrase_count <= 28,
                    i <= 32,
                    mio_data.len() == 8192,
                    so == seg * 0x114,
                    drum_set < 8,
                    forall|k: int| 0 <= k < queued_drums.len() ==> {
                        &&& (#[trigger] queued_drums[k]).time < phrase_count * 32
                        &&& QueuedSound::Drum(queued_drums[k]).wf()
                        &&& queued_drums[k].section < 8
                        &&& queued_drums[k].id < 14
                        &&& 4 <= queued_drums[k].pretend_track < 8
                    },
                decreases 32 - i,
            {
                let mut drum_index: usize = 0;
                while drum_index < 4
                    invariant
                        seg < phrase_count,
                        1 <= phrase_count <= 28,
                        i < 32,
                        drum_index <= 4,
                        mio_data.len() == 8192,
                        so == seg * 0x114,
                        drum_set < 8,
                        forall|k: int| 0 <= k < queued_drums.len() ==> {
                            &&& (#[trigger] queued_drums[k]).time < phrase_count * 32
                            &&& QueuedSound::Drum(queued_drums[k]).wf()
                            &&& queued_drums[k].section < 8
                            &&& queued_drums[k].id < 14
                            &&& 4 <= queued_drums[k].pretend_track < 8
                        },
                    decreases 4 - drum_index,
                {
                    let drum_used = mio_data[0x187 + so + i + drum_index * 32];
                    if drum_used != 255 {
                        if drum_used > 13 {
                            return None;
                        }
                        let pan_addition = match pan_addition_of(drum_pan) {
                            Some(p) => p,
                            None => {
                                return None;
                            },
                        };
                        let volume_multiplier = match volume_multiplier_of(drum_volume) {
                            Some(v) => v,
                            None => {
                                return None;
                            },
                        };
                        proof {
                            assert(32 * seg + i < phrase_count * 32) by (nonlinear_arith)
                                requires seg < phrase_count && i < 32 && seg >= 0 && i >= 0;
                        }
                        queued_drums.push(QueuedDrum {
                            time: (32 * seg + i) as u32,
                            volume_multiplier_q16: volume_multiplier,
                            pan_addition,
                            section: drum_set,
                            id: 13 - drum_used as usize,
                            pretend_track: 4 + drum_index as u8,
                        });
                    }
                    drum_index = drum_index + 1;
                }
                i = i + 1;
            }
            seg = seg + 1;
        }

        let mut queued_notes: Vec<QueuedNote> = Vec::new();
        let mut seg2: usize = 0;
        while seg2 < phrase_count
            invariant
                seg2 <= phrase_count,
                1 <= phrase_count <= 28,
                mio_data.len() == 8192,
                forall|k: int| 0 <= k < queued_notes.len() ==> {
                    &&& (#[trigger] queued_notes[k]).time < phrase_count * 32
                    &&& QueuedSound::Note(queued_notes[k]).wf()
                    &&& queued_notes[k].track < 4
                },
            decreases phrase_count - seg2,
        {
            let so = seg2 * 0x114;
            let mut track_index: usize = 0;
            while track_index < 4
                invariant
                    seg2 < phrase_count,
                    1 <= phrase_count <= 28,
                    track_index <= 4,
                    mio_data.len() == 8192,
                    so == seg2 * 0x114,
                    forall|k: int| 0 <= k < queued_notes.len() ==> {
                        &&& (#[trigger] queued_notes[k]).time < phrase_count * 32
                        &&& QueuedSound::Note(queued_notes[k]).wf()
                        &&& queued_notes[k].track < 4
                    },
                decreases 4 - track_index,
            {
                let song_offset = 0x107 + so + track_index * 32;
                let instrument_used = mio_data[0x211 + so + track_index];
                let instrument_volume = mio_data[0x207 + so + track_index];
                let instrument_pan = mio_data[0x20C + so + track_index];
                let mut i2: usize = 0;
                while i2 < 32
                    invariant
                        seg2 < phrase_count,
                        1 <= phrase_count <= 28,
                        track_index < 4,
                        i2 <= 32,
                        mio_data.len() == 8192,
                        so == seg2 * 0x114,
                        song_offset == 0x107 + so + track_index * 32,
                        forall|k: int| 0 <= k < queued_notes.len() ==> {
                            &&& (#[trigger] queued_notes[k]).time < phrase_count * 32
                            &&& QueuedSound::Note(queued_notes[k]).wf()
                            &&& queued_notes[k].track < 4
                        },
                    decreases 32 - i2,
                {
                    let note = mio_data[song_offset + i2];
                    if note != 255 {
                        let pan_addition = match pan_addition_of(instrument_pan) {
                            Some(p) => p,
                            None => {
                                return None;
                            },
                        };
                        let volume_multiplier = match volume_multiplier_of(instrument_volume) {
                            Some(v) => v,
                            None => {
                                return None;
                            },
                        };
                        proof {
                            assert(32 * seg2 + i2 < phrase_count * 32) by (nonlinear_arith)
                                requires seg2 < phrase_count && i2 < 32 && seg2 >= 0
                                    && i2 >= 0;
                        }
                        queued_notes.push(QueuedNote {
                            time: (32 * seg2 + i2) as u32,
                            instrument: instrument_used as u32,
                            note,
                            track: track_index as u8,
                            volume_multiplier_q16: volume_multiplier,
                            pan_addition,
                        });
                    }
                    i2 = i2 + 1;
                }
                track_index = track_index + 1;
            }
            seg2 = seg2 + 1;
        }

        Some(Record {
            notes: queued_notes,
            drums: queued_drums,
            repeats: Repeats::Never,
            phrase_count,
            note_rate,
            swing_offset,
        })
    }
}

} // verus!
