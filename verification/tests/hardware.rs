//! Register-level behaviour of the sound unit: control-word packing,
//! sample decoding and the final output stage.
use wahdio::capture::SpuCaptureUnit;
use wahdio::channel::adpcm_decode_step;
use wahdio::channel::SpuChannel;
use wahdio::nds::Nds;
use wahdio::spu::AudioBitDepth;
use wahdio::spu::Spu;

fn fresh_spu() -> Spu {
    Spu::new(Nds::new(vec![0u8; 0x400000]), AudioBitDepth::_16bit)
}

#[test]
fn control_word_round_trip() {
    // volume 0..=127, each shift tier, pan 0..=127: decode returns the
    // packed values, with the 127 -> 128 boundary rule
    let mut ch = SpuChannel::new(0);
    for volume in 0..=127u32 {
        for shift_index in 0..=3u32 {
            for pan in [0u32, 1, 63, 64, 126, 127] {
                let word = volume | (shift_index << 8) | (pan << 16);
                ch.set_control(word);
                let want_vol = if volume == 127 { 128 } else { volume as u8 };
                let want_pan = if pan == 127 { 128 } else { pan as u8 };
                let want_shift = [4u8, 3, 2, 0][shift_index as usize];
                assert_eq!(ch.volume, want_vol);
                assert_eq!(ch.pan, want_pan);
                assert_eq!(ch.volume_shift, want_shift);
            }
        }
    }
}

#[test]
fn key_on_rising_edge() {
    let mut ch = SpuChannel::new(2);
    assert!(!ch.key_on);
    ch.set_control(0x8000_0000);
    assert!(ch.key_on);
    ch.key_on = false;
    // no rising edge while bit 31 stays set
    ch.set_control(0x8000_0001);
    assert!(!ch.key_on);
    ch.set_control(0x0000_0001);
    ch.set_control(0x8000_0001);
    assert!(ch.key_on);
}

#[test]
fn volume_downshift_encoding() {
    let mut spu = fresh_spu();
    // values above 127 scale down through the shift tiers
    spu.set_channel_volume(0, 100);
    assert_eq!(spu.channels[0].volume, 100);
    assert_eq!(spu.channels[0].volume_shift, 0); // tier index 3 decodes to shift 0
    spu.set_channel_volume(0, 500);
    assert_eq!(spu.channels[0].volume, 125);
    spu.set_channel_volume(0, 1344);
    assert_eq!(spu.channels[0].volume, 84);
    spu.set_channel_volume(0, 2047);
    assert_eq!(spu.channels[0].volume, 127 + 1); // 127 decodes as 128
}

#[test]
fn adpcm_steps_clamp() {
    // a zero nibble nudges the predictor by step / 8 and walks the index
    // down; a sign nibble subtracts
    let (v, i) = adpcm_decode_step(0, 0, 0);
    assert_eq!(v, 0); // step 7 / 8 == 0
    assert_eq!(i, 0);
    let (v, i) = adpcm_decode_step(0, 88, 7);
    assert_eq!(v, 0x7FFF); // huge positive delta clamps
    assert_eq!(i, 88);
    let (v, i) = adpcm_decode_step(-0x7F00, 88, 15);
    assert_eq!(v, -0x7FFF); // huge negative delta clamps
    assert_eq!(i, 88);
    let (v, i) = adpcm_decode_step(100, 4, 1);
    // step 11: diff = 11/8 + 11/4 = 1 + 2 = 3
    assert_eq!(v, 103);
    assert_eq!(i, 3);
}

#[test]
fn noise_shift_register() {
    let mut ch = SpuChannel::new(14);
    ch.noise_val = 0x7FFF;
    ch.next_sample_noise();
    // bit 0 set: output low, feedback folds in
    assert_eq!(ch.current_sample, -0x7FFF);
    assert_eq!(ch.noise_val, (0x7FFF >> 1) ^ 0x6000);
    ch.noise_val = 0x2;
    ch.next_sample_noise();
    assert_eq!(ch.current_sample, 0x7FFF);
    assert_eq!(ch.noise_val, 1);
}

#[test]
fn psg_waveform_rows() {
    let mut ch = SpuChannel::new(8);
    // waveform row 0: low for seven steps, one high step
    ch.set_control(0x0000_0000);
    ch.pos = -1;
    let mut samples = Vec::new();
    for _ in 0..8 {
        ch.next_sample_psg();
        samples.push(ch.current_sample);
    }
    assert_eq!(samples, vec![
        -0x7FFF, -0x7FFF, -0x7FFF, -0x7FFF, -0x7FFF, -0x7FFF, -0x7FFF, 0x7FFF,
    ]);
}

#[test]
fn mix_inactive_applies_master_stage() {
    let mut spu = fresh_spu();
    // a silent unit still runs the output stage: zero in, zero out
    let (l, r) = spu.mix(1);
    assert_eq!((l, r), (0, 0));
    // with the enable bit clear, even configured lanes stay silent
    spu.write16(0x0400_0500, 0x007F);
    let (l2, r2) = spu.mix(1);
    assert_eq!((l2, r2), (0, 0));
}

#[test]
fn register_write_decoding() {
    let mut spu = fresh_spu();
    spu.write16(0x0400_0408, 64002);
    assert_eq!(spu.channels[0].timer_reload, 64002);
    spu.write16(0x0400_040A, 1);
    assert_eq!(spu.channels[0].loop_pos, 4);
    spu.write32(0x0400_040C, 399);
    assert_eq!(spu.channels[0].length, 1596);
    spu.write32(0x0400_0404, 0x0200_0000);
    assert_eq!(spu.channels[0].src_address, 0x0200_0000);
    spu.write16(0x0400_0500, 0x807F);
    assert_eq!(spu.control, 0x807F);
    assert_eq!(spu.master_volume, 128);
    spu.write16(0x0400_0504, 0x5234);
    assert_eq!(spu.bias, 0x234);
}

#[test]
fn one_shot_sample_plays_and_stops() {
    // an 8-bit one-shot sample: constant bytes play back scaled, then the
    // lane clears its own key-on bit at the end
    let mut ram = vec![0u8; 0x400000];
    for i in 0..32 {
        ram[i] = 16; // sample value 16 -> 16 << 8 = 4096 raw
    }
    let mut spu = Spu::new(Nds::new(ram), AudioBitDepth::_16bit);
    spu.write16(0x0400_0500, 0x807F);
    // lane 4: volume 127(->128), shift tier 3 (0), timer reload 0xFE00
    // (one decode per tick), 8-bit PCM format, one-shot repeat
    spu.write32(0x0400_0440, 0);
    spu.write16(0x0400_0448, 0xFE00);
    spu.write16(0x0400_044A, 0);
    spu.write32(0x0400_044C, 8); // 32 bytes
    spu.write32(0x0400_0444, 0x0200_0000);
    spu.write32(0x0400_0440, 0x9000_037F); // key on, one-shot (bit 28), vol 127
    let mut saw_sample = false;
    for _ in 0..64 {
        let ch = {
            let c = &mut spu.channels[4];
            c.do_run(&spu.nds)
        };
        if ch != 0 {
            saw_sample = true;
            // 4096 << 0 * 128
            assert_eq!(ch, 4096 * 128);
        }
    }
    assert!(saw_sample);
    // one-shot completion clears the key-on bit
    assert_eq!(spu.channels[4].control & 0x8000_0000, 0);
    assert_eq!(spu.channels[4].current_sample, 0);
}

#[test]
fn capture_streams_samples_to_memory() {
    // a running 16-bit capture unit writes each sample little-endian into
    // its destination window, flushing in 4-word bursts
    let mut nds = Nds::new(vec![0u8; 0x400000]);
    let mut cap = SpuCaptureUnit::new(0);
    cap.set_dest_address(0x0200_0100);
    cap.set_timer_reload(0xFE00); // one capture per tick
    cap.set_length(4); // a 16-byte window
    cap.set_control(0x80); // start, 16-bit loop mode
    for _ in 0..8 {
        cap.run(&mut nds, 0x1234);
    }
    for pair in 0..8 {
        assert_eq!(nds.ram[0x100 + 2 * pair], 0x34);
        assert_eq!(nds.ram[0x100 + 2 * pair + 1], 0x12);
    }
    // negative samples store their two's complement
    for _ in 0..8 {
        cap.run(&mut nds, -2);
    }
    assert_eq!(nds.ram[0x100], 0xFE);
    assert_eq!(nds.ram[0x101], 0xFF);
}

#[test]
fn capture_one_shot_stops_itself() {
    let mut nds = Nds::new(vec![0u8; 0x400000]);
    let mut cap = SpuCaptureUnit::new(1);
    cap.set_dest_address(0x0200_0200);
    cap.set_timer_reload(0xFE00);
    cap.set_length(4);
    cap.set_control(0x80 | 0x04); // start, one-shot
    for _ in 0..16 {
        cap.run(&mut nds, 100);
    }
    // the run bit dropped once the window filled
    assert_eq!(cap.control & 0x80, 0);
}
