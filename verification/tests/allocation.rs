//! The voice-allocation policy: preferred-lane ordering, the five fallback
//! tiers, and lane exclusivity.
use wahdio::manager::Channel;
use wahdio::manager::ChannelManager;
use wahdio::manager::QueuedDrum;
use wahdio::manager::QueuedNote;
use wahdio::manager::QueuedSound;

fn note_on(track: u8) -> QueuedNote {
    QueuedNote {
        time: 0,
        instrument: 0,
        note: 0,
        track,
        pan_addition: 0,
        volume_multiplier_q16: 0x1_0000,
    }
}

fn used(track: u8) -> Channel {
    Channel::Used {
        sound: QueuedSound::Note(note_on(track)),
        envelope: None,
        volume: 100,
        volume_acc: 100 << 32,
        pitch_adjustments: Vec::new(),
        future_adsr: Vec::new(),
        queued_samples: Vec::new(),
        start_tick: 0,
        range: (0, 24),
        true_time: 0,
    }
}

fn freeing(track: u8, volume: u32) -> Channel {
    Channel::Freeing {
        sound: QueuedSound::Note(note_on(track)),
        initial_release_volume: volume,
        volume,
        volume_acc: (volume as u64) << 32,
        kill_tick: 0,
        release: None,
        true_time: 0,
    }
}

fn used_drum(pretend_track: u8) -> Channel {
    Channel::Used {
        sound: QueuedSound::Drum(QueuedDrum {
            time: 0,
            section: 0,
            id: 0,
            pretend_track,
            pan_addition: 0,
            volume_multiplier_q16: 0x1_0000,
        }),
        envelope: None,
        volume: 100,
        volume_acc: 100 << 32,
        pitch_adjustments: Vec::new(),
        future_adsr: Vec::new(),
        queued_samples: Vec::new(),
        start_tick: 0,
        range: (0, 0),
        true_time: 0,
    }
}

#[test]
fn fresh_pool_grants_preferred_lane() {
    let mut m = ChannelManager::new();
    let got = m.request_channel_pcm(0);
    assert_eq!(got, Some(4));
    assert!(matches!(m.channels[4], Channel::Withheld));
    // the blocked capture-feed lanes are never granted
    assert!(matches!(m.channels[1], Channel::Blocked));
    assert!(matches!(m.channels[3], Channel::Blocked));
}

#[test]
fn consecutive_requests_are_exclusive() {
    // a granted lane is reserved, so no two requests share one
    let mut m = ChannelManager::new();
    let mut seen = Vec::new();
    for _ in 0..14 {
        let got = m.request_channel_pcm(0).unwrap();
        assert!(!seen.contains(&got));
        seen.push(got);
    }
    // all fourteen allocatable lanes handed out exactly once
    assert_eq!(m.request_channel_pcm(0), None);
}

#[test]
fn open_lane_preferred_over_freeing() {
    // an open lane wins even when a silent releasing lane comes earlier in
    // the preferred order
    let mut m = ChannelManager::new();
    m.channels[4] = freeing(0, 0);
    let got = m.request_channel_pcm(0);
    assert_eq!(got, Some(5));
}

#[test]
fn quiet_freeing_preferred_over_steal() {
    // with no open lane, a silent releasing lane beats a loud one and any
    // same-track steal
    let mut m = ChannelManager::new();
    for i in [0usize, 2, 4, 5, 6, 7, 8, 9, 10, 11, 12, 13, 14, 15] {
        m.channels[i] = used(0);
    }
    m.channels[9] = freeing(0, 90);
    m.channels[11] = freeing(0, 1);
    let got = m.request_channel_pcm(0);
    assert_eq!(got, Some(11));
}

#[test]
fn same_track_drum_stolen_before_forced_steal() {
    let mut m = ChannelManager::new();
    for i in [0usize, 2, 4, 5, 6, 7, 8, 9, 10, 11, 12, 13, 14, 15] {
        m.channels[i] = used(1);
    }
    m.channels[10] = used_drum(3);
    m.channels[12] = freeing(1, 90);
    let got = m.request_channel_pcm(3);
    // tier order: no open, no quiet freeing, same-track drum wins over the
    // loud freeing lane
    assert_eq!(got, Some(10));
}

#[test]
fn forced_steal_of_loud_freeing() {
    let mut m = ChannelManager::new();
    for i in [0usize, 2, 4, 5, 6, 7, 8, 9, 10, 11, 12, 13, 14, 15] {
        m.channels[i] = used(1);
    }
    m.channels[12] = freeing(1, 90);
    let got = m.request_channel_pcm(3);
    assert_eq!(got, Some(12));
}

#[test]
fn same_track_melodic_steal_is_last() {
    let mut m = ChannelManager::new();
    for i in [0usize, 2, 4, 5, 6, 7, 8, 9, 10, 11, 12, 13, 14, 15] {
        m.channels[i] = used(1);
    }
    m.channels[7] = used(3);
    let got = m.request_channel_pcm(3);
    assert_eq!(got, Some(7));
    // a different track with no candidates gets nothing
    let got2 = m.request_channel_pcm(2);
    assert_eq!(got2, None);
}

#[test]
fn psg_pool_and_noise_fallback() {
    let mut m = ChannelManager::new();
    // programmable tones live on lanes 8..=13; a free lane is granted
    // without being reserved
    let got = m.request_channel_psg(0);
    assert_eq!(got, Some(8));
    assert!(matches!(m.channels[8], Channel::Open));
    // noise lives on 14..=15, with 14 as the forced fallback
    m.channels[14] = used(0);
    m.channels[15] = used(0);
    let got2 = m.request_channel_noise(3);
    assert_eq!(got2, Some(14));
}

#[test]
fn release_tracks_snapshots_volume() {
    let mut m = ChannelManager::new();
    m.channels[4] = used(2);
    m.channels[5] = used(1);
    let record = wahdio::record::Record {
        notes: Vec::new(),
        drums: Vec::new(),
        repeats: wahdio::record::Repeats::Never,
        phrase_count: 1,
        note_rate: 4103,
        swing_offset: None,
    };
    m.release_tracks(2, 1000, &record);
    match &m.channels[4] {
        Channel::Freeing { volume, initial_release_volume, .. } => {
            assert_eq!(*volume, 100);
            assert_eq!(*initial_release_volume, 100);
        }
        other => panic!("lane 4 should be releasing, found {:?}", other),
    }
    assert!(matches!(m.channels[5], Channel::Used { .. }));
}
