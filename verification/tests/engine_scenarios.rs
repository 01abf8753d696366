//! End-to-end playback scenarios through the envelope engine.
use wahdio::engine::advance_one_sample;
use wahdio::engine::dispatch_note;
use wahdio::engine::EngineError;
use wahdio::engine::RangedAdsr;
use wahdio::engine::Adsr;
use wahdio::engine::DrumInstructions;
use wahdio::engine::DrumSample;
use wahdio::engine::Instrument;
use wahdio::engine::InstrumentDecay;
use wahdio::engine::InstrumentInstructions;
use wahdio::engine::InstrumentRelease;
use wahdio::engine::InstrumentSample;
use wahdio::engine::InstrumentSustain;
use wahdio::engine::RhythmSection;
use wahdio::engine::Sample;
use wahdio::engine::TimedDrumSample;
use wahdio::engine::Timing;
use wahdio::manager::Channel;
use wahdio::manager::ChannelManager;
use wahdio::manager::QueuedDrum;
use wahdio::manager::QueuedNote;
use wahdio::nds::Nds;
use wahdio::record::Record;
use wahdio::record::Repeats;
use wahdio::spu::AudioBitDepth;
use wahdio::spu::Spu;
use wahdio::EVENT_TIMING;
use wahdio::NOTE_RATE;

fn fresh_spu() -> Spu {
    let mut spu = Spu::new(Nds::new(vec![0u8; 0x400000]), AudioBitDepth::_16bit);
    spu.write16(0x0400_0500, 0x807F);
    spu
}

fn simple_drum_sample() -> DrumSample {
    DrumSample {
        volume: 500,
        timer_reload: 0xFE00,
        loop_pos: 4,
        length: 64,
        src_address: 0x0200_0000,
        is_repeating: false,
        base_pan: 64,
    }
}

fn empty_sections() -> Vec<RhythmSection> {
    let mut sections = Vec::new();
    for _ in 0..8 {
        let mut slots = Vec::new();
        for _ in 0..14 {
            slots.push(DrumInstructions::Simple { sample: simple_drum_sample() });
        }
        sections.push(RhythmSection::new(String::from("plain"), slots));
    }
    sections
}

fn piano_like_instrument() -> Instrument {
    Instrument {
        name: String::from("keys"),
        instructions: InstrumentInstructions::Adsr(Adsr {
            sample: InstrumentSample::PCM16(Sample {
                volume: (1488, 1200),
                base_timer_reload: 63898,
                loop_pos: 1968,
                length: 548,
                src_address: 0x0212_0000,
                is_repeating: true,
            }),
            attack: None,
            decay: Some(InstrumentDecay::Exponential { duration: 192 }),
            sustain: Some(InstrumentSustain { volume: (94, 4), duration: 0 }),
            release: Some(InstrumentRelease::Basic),
        }),
        pitch_adjustments: Vec::new(),
        scaled_second_stage: false,
    }
}

/// One note at step 0 of a plain sampled instrument: a lane is allocated,
/// the level decays from the attack peak toward the sustain level, holds
/// it, and a track release snapshots exactly that level.
#[test]
fn note_reaches_sustain_then_releases() {
    let mut spu = fresh_spu();
    let mut manager = ChannelManager::new();
    let mut timing = Timing { tiny_tick: 0, phrase_tick: 0 };
    let mut previous: Vec<Option<u8>> = vec![None, None, None, None];
    let instruments = vec![piano_like_instrument()];
    let sections = empty_sections();
    let record = Record {
        notes: vec![QueuedNote {
            time: 0,
            instrument: 0,
            note: 12,
            track: 0,
            pan_addition: 0,
            volume_multiplier_q16: 0x1_0000,
        }],
        drums: Vec::new(),
        repeats: Repeats::Never,
        phrase_count: 1,
        note_rate: NOTE_RATE,
        swing_offset: None,
    };

    // the very first sample dispatches the note onto the first preferred lane
    advance_one_sample(&mut spu, &mut timing, &mut manager, &record, &instruments,
        &sections, &mut previous).unwrap();
    let initial = match &manager.channels[4] {
        Channel::Used { volume, .. } => *volume,
        other => panic!("lane 4 should be sounding, found {:?}", other),
    };
    // interpolated twelve steps into (1488, 1200) over the 24-step span
    assert_eq!(initial, 1344);
    assert!(spu.channels[4].key_on || spu.channels[4].control & 0x8000_0000 != 0);

    // decay: the level falls from the peak across the early envelope ticks
    for _ in 0..(EVENT_TIMING * 24) {
        advance_one_sample(&mut spu, &mut timing, &mut manager, &record, &instruments,
            &sections, &mut previous).unwrap();
    }
    let mid = match &manager.channels[4] {
        Channel::Used { volume, .. } => *volume,
        other => panic!("lane 4 should still be sounding, found {:?}", other),
    };
    assert!(mid < initial);

    // by the declared decay duration the level sits on the sustain value
    while timing.tiny_tick < EVENT_TIMING * 192 + 1 {
        advance_one_sample(&mut spu, &mut timing, &mut manager, &record, &instruments,
            &sections, &mut previous).unwrap();
    }
    let sustain_level = match &manager.channels[4] {
        Channel::Used { volume, .. } => *volume,
        other => panic!("lane 4 should still be sounding, found {:?}", other),
    };
    // interpolated twelve steps into (94, 4) over the 24-step span
    assert_eq!(sustain_level, 49);

    // releasing the track snapshots the sustain level as the release start
    manager.release_tracks(0, timing.tiny_tick, &record);
    match &manager.channels[4] {
        Channel::Freeing { volume, initial_release_volume, .. } => {
            assert_eq!(*volume, 49);
            assert_eq!(*initial_release_volume, 49);
        }
        other => panic!("lane 4 should be releasing, found {:?}", other),
    }

    // and the release decays it to silence, opening the lane
    let mut opened = false;
    for _ in 0..(EVENT_TIMING * 80) {
        advance_one_sample(&mut spu, &mut timing, &mut manager, &record, &instruments,
            &sections, &mut previous).unwrap();
        if matches!(manager.channels[4], Channel::Open) {
            opened = true;
            break;
        }
    }
    assert!(opened);
}

/// A multi-sample drum retriggers its lane exactly at each scheduled
/// voice-relative tick: four times, and not a fifth.
#[test]
fn drum_chain_retriggers_at_each_time() {
    let mut spu = fresh_spu();
    let mut manager = ChannelManager::new();
    let mut timing = Timing { tiny_tick: 0, phrase_tick: 0 };
    let mut previous: Vec<Option<u8>> = vec![None, None, None, None];
    let instruments = vec![piano_like_instrument()];
    let mut sections = empty_sections();
    let mut chain = Vec::new();
    for time in [0u32, 12, 24, 36] {
        chain.push(TimedDrumSample { time, sample: simple_drum_sample() });
    }
    sections[0].instructions[0] = DrumInstructions::Multiple { samples: chain };
    let record = Record {
        notes: Vec::new(),
        drums: vec![QueuedDrum {
            time: 1,
            section: 0,
            id: 0,
            pretend_track: 4,
            pan_addition: 0,
            volume_multiplier_q16: 0x1_0000,
        }],
        repeats: Repeats::Never,
        phrase_count: 1,
        note_rate: NOTE_RATE,
        swing_offset: None,
    };

    let mut restart_history = Vec::new();
    for _ in 0..(NOTE_RATE + EVENT_TIMING * 60) {
        advance_one_sample(&mut spu, &mut timing, &mut manager, &record, &instruments,
            &sections, &mut previous).unwrap();
        restart_history.push(spu.channels[4].restarts);
    }
    // exactly four key-on starts, one per scheduled retrigger
    assert_eq!(*restart_history.last().unwrap(), 4);
    // and they land on the voice's envelope grid: ticks 0, 12, 24 and 36
    for (tick, expected) in [(0usize, 1u64), (12, 2), (24, 3), (36, 4)] {
        let sample_index = NOTE_RATE + EVENT_TIMING * tick;
        assert_eq!(restart_history[sample_index], expected);
        if sample_index >= 2 {
            assert_eq!(restart_history[sample_index - 2], expected - 1);
        }
    }
}

/// A full voice pool is a fault, not a condition to mask: dispatch stops
/// with the pool-exhausted error.
#[test]
fn exhausted_pool_reports_error() {
    let mut spu = fresh_spu();
    let mut manager = ChannelManager::new();
    for i in 0..16 {
        manager.channels[i] = Channel::Withheld;
    }
    let mut timing = Timing { tiny_tick: 0, phrase_tick: 0 };
    let mut previous: Vec<Option<u8>> = vec![None, None, None, None];
    let instruments = vec![piano_like_instrument()];
    let sections = empty_sections();
    let record = Record {
        notes: vec![QueuedNote {
            time: 0,
            instrument: 0,
            note: 12,
            track: 0,
            pan_addition: 0,
            volume_multiplier_q16: 0x1_0000,
        }],
        drums: Vec::new(),
        repeats: Repeats::Never,
        phrase_count: 1,
        note_rate: NOTE_RATE,
        swing_offset: None,
    };
    let got = advance_one_sample(&mut spu, &mut timing, &mut manager, &record,
        &instruments, &sections, &mut previous);
    assert_eq!(got, Err(EngineError::VoicePoolExhausted));
}

/// A note no stage set of a ranged instrument covers is a catalog gap:
/// dispatch stops with the catalog-defect error.
#[test]
fn uncovered_range_reports_error() {
    let mut spu = fresh_spu();
    let mut manager = ChannelManager::new();
    let mut previous: Vec<Option<u8>> = vec![None, None, None, None];
    let base = piano_like_instrument();
    let adsr = match base.instructions {
        InstrumentInstructions::Adsr(a) => a,
        _ => unreachable!(),
    };
    let instruments = vec![Instrument {
        name: String::from("narrow"),
        instructions: InstrumentInstructions::Ranged(vec![RangedAdsr {
            low: 0,
            high: 5,
            adsr,
        }]),
        pitch_adjustments: Vec::new(),
        scaled_second_stage: false,
    }];
    let record = Record {
        notes: Vec::new(),
        drums: Vec::new(),
        repeats: Repeats::Never,
        phrase_count: 1,
        note_rate: NOTE_RATE,
        swing_offset: None,
    };
    let note = QueuedNote {
        time: 0,
        instrument: 0,
        note: 20,
        track: 0,
        pan_addition: 0,
        volume_multiplier_q16: 0x1_0000,
    };
    let got = dispatch_note(&mut manager, &mut spu, &note, &instruments, &mut previous,
        &record, 0, 0);
    assert_eq!(got, Err(EngineError::CatalogDefect));
}
