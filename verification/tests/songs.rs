//! Decoding song byte images into trigger lists.
use wahdio::record::Record;
use wahdio::record::Repeats;

#[test]
fn unknown_size_is_rejected() {
    assert!(Record::from_mio(&vec![0u8; 100]).is_none());
    assert!(Record::from_mio(&vec![0u8; 8193]).is_none());
}

#[test]
fn game_form_decodes_notes_and_drums() {
    let mut data = vec![255u8; 65536];
    // everything silent except the probes below
    data[0xE605] = 1; // repeats once
    // track 0: instrument 3, volume setting 4 (full), pan setting 2 (center)
    data[0xBA6B] = 3;
    data[0xBA61] = 4;
    data[0xBA66] = 2;
    // one note value 12 at step 5 of track 0
    data[0xB961 + 5] = 12;
    // drum row 0: drum 13 at step 7, set byte 2, full volume, pan left
    data[0xBA6F] = 2;
    data[0xBA61 + 4] = 4;
    data[0xBA66 + 4] = 0;
    data[0xB9E1 + 7] = 13;

    let record = Record::from_mio(&data).unwrap();
    assert!(matches!(record.repeats, Repeats::Once));
    assert_eq!(record.phrase_count, 1);
    assert_eq!(record.note_rate, wahdio::NOTE_RATE);
    assert_eq!(record.notes.len(), 1);
    let n = record.notes[0];
    assert_eq!(n.time, 5);
    assert_eq!(n.instrument, 3);
    assert_eq!(n.note, 12);
    assert_eq!(n.track, 0);
    assert_eq!(n.pan_addition, 0);
    assert_eq!(n.volume_multiplier_q16, 0x1_0000);
    assert_eq!(record.drums.len(), 1);
    let d = record.drums[0];
    assert_eq!(d.time, 7);
    assert_eq!(d.section, 2);
    assert_eq!(d.id, 0); // drum byte 13 maps to slot 13 - 13
    assert_eq!(d.pretend_track, 4);
    assert_eq!(d.pan_addition, -64);
}

#[test]
fn game_form_rejects_bad_settings() {
    let mut data = vec![255u8; 65536];
    data[0xE605] = 0;
    data[0xB961] = 1; // a note on track 0
    data[0xBA61] = 9; // invalid volume setting
    data[0xBA66] = 2;
    assert!(Record::from_mio(&data).is_none());
}

#[test]
fn recorded_form_tempo_and_swing() {
    let mut data = vec![255u8; 8192];
    data[0x101] = 6; // tempo 120
    data[0x100] = 1; // swing on
    data[0x102] = 2; // two phrases
    // clear the per-phrase setting rows to valid silent values
    for seg in 0..2 {
        let so = seg * 0x114;
        for t in 0..5 {
            data[0x207 + so + t] = 4; // volumes full
            data[0x20C + so + t] = 2; // pans centered
            data[0x211 + so + t] = 0; // instruments / drum set
        }
    }
    // one note value 3 at step 2 of track 1, phrase 1
    data[0x107 + 0x114 + 32 + 2] = 3;
    let record = Record::from_mio(&data).unwrap();
    // 120 beats per minute: 492360 / 120 ticks per step
    assert_eq!(record.note_rate, 4103);
    assert_eq!(record.swing_offset, Some(4103 / 3));
    assert_eq!(record.phrase_count, 2);
    assert_eq!(record.notes.len(), 1);
    let n = record.notes[0];
    assert_eq!(n.time, 32 + 2);
    assert_eq!(n.track, 1);
    assert!(matches!(record.repeats, Repeats::Never));
}

#[test]
fn recorded_form_rejects_zero_phrases() {
    let mut data = vec![255u8; 8192];
    data[0x101] = 6;
    data[0x100] = 0;
    data[0x102] = 0;
    assert!(Record::from_mio(&data).is_none());
}
