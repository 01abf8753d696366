//! One hardware sample lane: register state, burst-buffered sample memory
//! reads, and the per-format sample generators.
use vstd::prelude::*;

verus! {

use crate::nds::Nds;
use crate::nds::MAIN_RAM_REGION_START;
use crate::nds::MAIN_RAM_REGION_END;

/// Number of 32-bit words in a lane's read FIFO.
pub const SPU_FIFO_SIZE: usize = 8;

/// Ceiling for the free-running counters (tick, position, read offset);
/// they saturate here instead of overflowing, unreachably far beyond any
/// real playback session.
pub const COUNTER_CAP: u64 = 0x1000_0000_0000_0000;

/// A free-running counter advanced by `d`, saturating at `COUNTER_CAP`.
pub open spec fn spec_cap_add(x: int, d: int) -> int {
    if x + d <= COUNTER_CAP { x + d } else { x }
}

/// Volume decoded from a control word: low 7 bits, with 127 promoted to 128.
pub open spec fn spec_ctrl_volume(c: u32) -> u8 {
    let v = (c & 0x7F) as u8;
    if v == 127 { 128u8 } else { v }
}

/// Volume shift decoded from control bits 8-9, through the tier table
/// {4, 3, 2, 0}.
pub open spec fn spec_ctrl_shift(c: u32) -> u8 {
    let s = (c >> 8) & 0x3;
    if s == 0 { 4u8 } else if s == 1 { 3u8 } else if s == 2 { 2u8 } else { 0u8 }
}

/// Pan decoded from control bits 16-22, with 127 promoted to 128.
pub open spec fn spec_ctrl_pan(c: u32) -> u8 {
    let p = ((c >> 16) & 0x7F) as u8;
    if p == 127 { 128u8 } else { p }
}

/// Multiplier that a volume-shift tier applies to a raw sample.
pub open spec fn spec_shift_mult(vs: u8) -> int {
    if vs == 4 { 16 } else if vs == 3 { 8 } else if vs == 2 { 4 } else { 1 }
}

/// The 8-entry programmable-tone waveform table, by waveform index and
/// step.  Several rows deviate from the plain duty-cycle pulses on purpose:
/// they carry a baked-in echo voicing for specific timbres.
pub open spec fn spec_psg_sample(wave: int, index: int) -> i16 {
    if wave == 0 {
        if index == 7 { 0x7FFFi16 } else { -0x7FFFi16 }
    } else if wave == 1 {
        if index >= 5 { 0x7FFFi16 } else { -0x7FFFi16 }
    } else if wave == 2 {
        if index == 0 { -29490i16 } else if index == 1 { -22937i16 }
        else if index == 2 { -26214i16 } else if index == 3 { -26214i16 }
        else if index == 4 { 29490i16 } else if index == 5 { 22937i16 }
        else if index == 6 { 26214i16 } else { 26214i16 }
    } else if wave == 3 {
        if index >= 3 { 0x7FFFi16 } else { -0x7FFFi16 }
    } else if wave == 4 {
        if index == 0 { -22936i16 } else if index == 1 { -29490i16 }
        else if index == 7 { 19660i16 } else { -0x7FFFi16 }
    } else if wave == 5 {
        if index == 0 { -29490i16 } else if index == 1 { -32767i16 }
        else if index == 2 { -26214i16 } else if index == 3 { -26214i16 }
        else if index == 4 { -32767i16 } else if index == 5 { -32767i16 }
        else if index == 6 { 22937i16 } else { 26214i16 }
    } else if wave == 6 {
        if index == 0 { -27033i16 } else if index == 1 { -27033i16 }
        else if index == 2 { -31948i16 } else if index == 3 { -31948i16 }
        else if index == 4 { 27033i16 } else if index == 5 { 27033i16 }
        else if index == 6 { 31948i16 } else { 31948i16 }
    } else {
        if index == 1 { -22936i16 } else if index == 3 { -29490i16 }
        else if index == 7 { 19660i16 } else { -0x7FFFi16 }
    }
}

/// The adaptive 89-entry hardware step table for ADPCM decoding,
/// by step index 0..=88.
pub open spec fn spec_adpcm_step(index: int) -> u16 {
    if index == 0 { 7 }
    else if index == 1 { 8 }
    else if index == 2 { 9 }
    else if index == 3 { 10 }
    else if index == 4 { 11 }
    else if index == 5 { 12 }
    else if index == 6 { 13 }
    else if index == 7 { 14 }
    else if index == 8 { 16 }
    else if index == 9 { 17 }
    else if index == 10 { 19 }
    else if index == 11 { 21 }
    else if index == 12 { 23 }
    else if index == 13 { 25 }
    else if index == 14 { 28 }
    else if index == 15 { 31 }
    else if index == 16 { 34 }
    else if index == 17 { 37 }
    else if index == 18 { 41 }
    else if index == 19 { 45 }
    else if index == 20 { 50 }
    else if index == 21 { 55 }
    else if index == 22 { 60 }
    else if index == 23 { 66 }
    else if index == 24 { 73 }
    else if index == 25 { 80 }
    else if index == 26 { 88 }
    else if index == 27 { 97 }
    else if index == 28 { 107 }
    else if index == 29 { 118 }
    else if index == 30 { 130 }
    else if index == 31 { 143 }
    else if index == 32 { 157 }
    else if index == 33 { 173 }
    else if index == 34 { 190 }
    else if index == 35 { 209 }
    else if index == 36 { 230 }
    else if index == 37 { 253 }
    else if index == 38 { 279 }
    else if index == 39 { 307 }
    else if index == 40 { 337 }
    else if index == 41 { 371 }
    else if index == 42 { 408 }
    else if index == 43 { 449 }
    else if index == 44 { 494 }
    else if index == 45 { 544 }
    else if index == 46 { 598 }
    else if index == 47 { 658 }
    else if index == 48 { 724 }
    else if index == 49 { 796 }
    else if index == 50 { 876 }
    else if index == 51 { 963 }
    else if index == 52 { 1060 }
    else if index == 53 { 1166 }
    else if index == 54 { 1282 }
    else if index == 55 { 1411 }
    else if index == 56 { 1552 }
    else if index == 57 { 1707 }
    else if index == 58 { 1878 }
    else if index == 59 { 2066 }
    else if index == 60 { 2272 }
    else if index == 61 { 2499 }
    else if index == 62 { 2749 }
    else if index == 63 { 3024 }
    else if index == 64 { 3327 }
    else if index == 65 { 3660 }
    else if index == 66 { 4026 }
    else if index == 67 { 4428 }
    else if index == 68 { 4871 }
    else if index == 69 { 5358 }
    else if index == 70 { 5894 }
    else if index == 71 { 6484 }
    else if index == 72 { 7132 }
    else if index == 73 { 7845 }
    else if index == 74 { 8630 }
    else if index == 75 { 9493 }
    else if index == 76 { 10442 }
    else if index == 77 { 11487 }
    else if index == 78 { 12635 }
    else if index == 79 { 13899 }
    else if index == 80 { 15289 }
    else if index == 81 { 16818 }
    else if index == 82 { 18500 }
    else if index == 83 { 20350 }
    else if index == 84 { 22385 }
    else if index == 85 { 24623 }
    else if index == 86 { 27086 }
    else if index == 87 { 29794 }
    else { 32767 }
}

/// Step-index adjustment by the low three bits of an ADPCM nibble.
pub open spec fn spec_adpcm_index_delta(nib: int) -> int {
    if nib < 4 { -1 } else if nib == 4 { 2 } else if nib == 5 { 4 }
    else if nib == 6 { 6 } else { 8 }
}

/// One hardware sample lane.
pub struct SpuChannel {
    /// Lane index, 0 to 15.
    pub num: usize,
    /// Raw control register.
    pub control: u32,
    pub src_address: usize,
    pub timer_reload: u16,
    pub loop_pos: usize,
    pub length: usize,
    /// Number of key-on start sequences this lane has performed.
    pub restarts: u64,
    /// Hardware ticks since the last start sequence.
    pub tick: u64,
    /// Hardware ticks since reset.
    pub big_offset: u64,
    /// Decoded volume, 0 to 128.
    pub volume: u8,
    /// Decoded volume shift, one of 0, 2, 3, 4.
    pub volume_shift: u8,
    /// Decoded pan, 0 (full left) to 128 (full right).
    pub pan: u8,
    pub key_on: bool,
    /// Fractional sample timer; a sample is produced per 0x10000 overflow.
    pub timer: u32,
    /// Sample position within the source data (format-specific units).
    pub pos: i64,
    pub current_sample: i16,
    /// Noise generator shift register.
    pub noise_val: u16,
    /// ADPCM predictor, clamped to +/-0x7FFF.
    pub adpcm_val: i32,
    /// ADPCM step index, 0 to 88.
    pub adpcm_index: i32,
    pub adpcm_val_loop: i32,
    pub adpcm_index_loop: i32,
    pub adpcm_current_byte: u8,
    /// Burst read buffer, 8 words.
    pub fifo_data: Vec<u32>,
    /// Read position in bytes, 0 to 31.
    pub fifo_read_pos: usize,
    /// Write position in words, 0 to 7.
    pub fifo_write_pos: usize,
    /// Source offset of the next burst, in bytes.
    pub fifo_read_offset: u64,
    /// Bytes buffered and not yet consumed, 0 to 32.
    pub fifo_level: usize,
}

impl SpuChannel {
    pub open spec fn wf(self) -> bool {
        &&& self.num < 16
        &&& self.fifo_data.len() == SPU_FIFO_SIZE
        &&& self.fifo_read_pos < 4 * SPU_FIFO_SIZE
        &&& self.fifo_write_pos < SPU_FIFO_SIZE
        &&& self.fifo_level <= 4 * SPU_FIFO_SIZE
        &&& self.volume <= 128
        &&& (self.volume_shift == 0 || self.volume_shift == 2 || self.volume_shift == 3
            || self.volume_shift == 4)
        &&& self.pan <= 128
        &&& self.src_address <= 0x07FF_FFFC
        &&& self.loop_pos <= 0x3_FFFC
        &&& self.length <= 0x7F_FFFC
        &&& self.timer < 0x1_0000
        &&& -3 <= self.pos <= COUNTER_CAP
        &&& 0 <= self.adpcm_index <= 88
        &&& -0x8000 <= self.adpcm_val <= 0x7FFF
        &&& 0 <= self.adpcm_index_loop <= 88
        &&& -0x8000 <= self.adpcm_val_loop <= 0x7FFF
        &&& self.tick <= COUNTER_CAP
        &&& self.big_offset <= COUNTER_CAP
        &&& self.restarts <= COUNTER_CAP
        &&& self.fifo_read_offset <= COUNTER_CAP
    }

    pub fn new(num: usize) -> (r: SpuChannel)
        requires
            num < 16,
        ensures
            r.wf(),
            r.num == num,
            r.control == 0,
            r.key_on == false,
            r.volume == 0 && r.volume_shift == 4 && r.pan == 0,
            r.timer_reload == 0 && r.src_address == 0 && r.loop_pos == 0 && r.length == 0,
            r.current_sample == 0,
            r.tick == 0 && r.restarts == 0 && r.big_offset == 0,
    {
        SpuChannel {
            num,
            control: 0,
            src_address: 0,
            timer_reload: 0,
            loop_pos: 0,
            length: 0,
            tick: 0,
            restarts: 0,
            big_offset: 0,
            volume: 0,
            volume_shift: 4,
            pan: 0,
            key_on: false,
            timer: 0,
            pos: 0,
            current_sample: 0,
            noise_val: 0,
            adpcm_val: 0,
            adpcm_index: 0,
            adpcm_val_loop: 0,
            adpcm_index_loop: 0,
            adpcm_current_byte: 0,
            fifo_data: vec![0, 0, 0, 0, 0, 0, 0, 0],
            fifo_read_pos: 0,
            fifo_write_pos: 0,
            fifo_read_offset: 0,
            fifo_level: 0,
        }
    }

    /// Decodes a freshly written control word into the volume, volume-shift
    /// and pan fields; a rising edge on bit 31 arms the key-on start.
    pub fn set_control(&mut self, val: u32)
        requires
            old(self).wf(),
        ensures
            final(self).wf(),
            final(self).control == val & 0xFF7F_837F,
            final(self).volume == spec_ctrl_volume(final(self).control),
            final(self).volume_shift == spec_ctrl_shift(final(self).control),
            final(self).pan == spec_ctrl_pan(final(self).control),
            final(self).key_on == if val & 0x8000_0000 != 0
                && old(self).control & 0x8000_0000 == 0 { true } else { old(self).key_on },
            *final(self) == (SpuChannel {
                control: final(self).control,
                volume: final(self).volume,
                volume_shift: final(self).volume_shift,
                pan: final(self).pan,
                key_on: final(self).key_on,
                ..*old(self)
            }),
    {
        let old_control = self.control;
        self.control = val & 0xFF7F_837F;

        let v = (self.control & 0x7F) as u8;
        proof {
            assert(val & 0xFF7F_837F & 0x7F == (val & 0xFF7F_837F) & 0x7F) by (bit_vector);
            assert((val & 0xFF7F_837F) & 0x7F <= 0x7F) by (bit_vector);
        }
        self.volume = if v == 127 { 128 } else { v };

        let s = (self.control >> 8) & 0x3;
        self.volume_shift = if s == 0 { 4 } else if s == 1 { 3 } else if s == 2 { 2 } else { 0 };

        proof {
            assert(((val & 0xFF7F_837F) >> 16) & 0x7F <= 0x7F) by (bit_vector);
        }
        let p = ((self.control >> 16) & 0x7F) as u8;
        self.pan = if p == 127 { 128 } else { p };

        if (val & 0x8000_0000) != 0 && (old_control & 0x8000_0000) == 0 {
            self.key_on = true;
        }
    }

    /// Source address register: masked to the low 27 bits, word aligned.
    pub fn set_src_address(&mut self, val: u32)
        requires
            old(self).wf(),
        ensures
            final(self).wf(),
            final(self).src_address == val & 0x07FF_FFFC,
            *final(self) == (SpuChannel { src_address: final(self).src_address, ..*old(self) }),
    {
        proof {
            assert(val & 0x07FF_FFFC <= 0x07FF_FFFC) by (bit_vector);
        }
        self.src_address = (val & 0x07FF_FFFC) as usize;
    }

    /// Timer-reload register: low 16 bits.
    pub fn set_timer_reload(&mut self, val: u32)
        requires
            old(self).wf(),
        ensures
            final(self).wf(),
            final(self).timer_reload == val & 0xFFFF,
            *final(self) == (SpuChannel { timer_reload: final(self).timer_reload, ..*old(self) }),
    {
        proof {
            assert(val & 0xFFFF <= 0xFFFF) by (bit_vector);
        }
        self.timer_reload = (val & 0xFFFF) as u16;
    }

    /// Loop-position register: low 16 bits, in words (shifted to bytes).
    pub fn set_loop_pos(&mut self, val: u32)
        requires
            old(self).wf(),
        ensures
            final(self).wf(),
            final(self).loop_pos == (val & 0xFFFF) * 4,
            *final(self) == (SpuChannel { loop_pos: final(self).loop_pos, ..*old(self) }),
    {
        proof {
            assert(val & 0xFFFF <= 0xFFFF) by (bit_vector);
        }
        self.loop_pos = ((val & 0xFFFF) as usize) * 4;
    }

    /// Length register: low 21 bits, in words (shifted to bytes).
    pub fn set_length(&mut self, val: u32)
        requires
            old(self).wf(),
        ensures
            final(self).wf(),
            final(self).length == (val & 0x001F_FFFF) * 4,
            *final(self) == (SpuChannel { length: final(self).length, ..*old(self) }),
    {
        proof {
            assert(val & 0x001F_FFFF <= 0x001F_FFFF) by (bit_vector);
        }
        self.length = ((val & 0x001F_FFFF) as usize) * 4;
    }

    /// Scales the decoded volume by a Q16 multiplier, truncating.
    pub fn adjust_volume(&mut self, multiplier_q16: u32)
        requires
            old(self).wf(),
            multiplier_q16 <= 0x1_0000,
        ensures
            final(self).wf(),
            final(self).volume == (old(self).volume * multiplier_q16) / 0x1_0000,
            *final(self) == (SpuChannel { volume: final(self).volume, ..*old(self) }),
    {
        let v = self.volume;
        proof {
            assert((v as int) * (multiplier_q16 as int) <= 128 * 0x1_0000) by (nonlinear_arith)
                requires v <= 128 && multiplier_q16 <= 0x1_0000;
            assert((v as int) * (multiplier_q16 as int) / 0x1_0000 <= 128)
                by (nonlinear_arith)
                requires 0 <= (v as int) * (multiplier_q16 as int) <= 128 * 0x1_0000;
        }
        self.volume = ((v as u64 * multiplier_q16 as u64) / 0x1_0000) as u8;
    }

    /// A raw sample after the lane's volume shift and volume multiply.
    pub open spec fn spec_adjust_sample(self, sample: i16) -> int {
        sample * spec_shift_mult(self.volume_shift) * self.volume
    }

    /// Applies the volume shift and volume to a raw 16-bit sample.
    pub fn adjust_sample(&self, sample: i16) -> (r: i32)
        requires
            self.wf(),
        ensures
            r == self.spec_adjust_sample(sample),
            -0x8000_0000 < r < 0x8000_0000,
            r == 0 <==> (sample == 0 || self.volume == 0),
    {
        let mult: i64 = if self.volume_shift == 4 { 16 }
            else if self.volume_shift == 3 { 8 }
            else if self.volume_shift == 2 { 4 }
            else { 1 };
        proof {
            assert(-0x8000 * 16 <= (sample as int) * mult <= 0x7FFF * 16) by (nonlinear_arith)
                requires -0x8000 <= sample <= 0x7FFF && 1 <= mult <= 16;
            assert(-0x8000 * 16 * 128 <= (sample as int) * mult * (self.volume as int)
                && (sample as int) * mult * (self.volume as int) <= 0x7FFF * 16 * 128)
                by (nonlinear_arith)
                requires -0x8000 * 16 <= (sample as int) * mult <= 0x7FFF * 16
                    && 0 <= self.volume <= 128;
            assert(((sample as int) * mult * (self.volume as int) == 0)
                == (sample == 0 || self.volume == 0)) by (nonlinear_arith)
                requires mult >= 1;
        }
        let val: i64 = sample as i64 * mult * self.volume as i64;
        val as i32
    }

    /// The lane's current sample, scaled for mixing.
    pub fn current_adjusted_sample(&self) -> (r: i32)
        requires
            self.wf(),
        ensures
            r == self.spec_adjust_sample(self.current_sample),
    {
        self.adjust_sample(self.current_sample)
    }

    /// Adds this lane's scaled sample into the stereo accumulators:
    /// `left += input * (128 - pan) >> 10`, `right += input * pan >> 10`
    /// (arithmetic shifts, i.e. floor division).
    pub fn pan_output(&self, input: i32, left: &mut i32, right: &mut i32)
        requires
            self.wf(),
            -0x400_0000 <= input <= 0x400_0000,
            -0x4000_0000 <= *old(left) <= 0x4000_0000,
            -0x4000_0000 <= *old(right) <= 0x4000_0000,
        ensures
            *final(left) == *old(left) + (input * (128 - self.pan)) / 1024,
            *final(right) == *old(right) + (input * self.pan) / 1024,
            *old(left) - 0x80_0000 <= *final(left) <= *old(left) + 0x80_0000,
            *old(right) - 0x80_0000 <= *final(right) <= *old(right) + 0x80_0000,
    {
        let pan = self.pan;
        proof {
            assert(-0x2_0000_0000 <= (input as int) * (128 - pan as int)
                && (input as int) * (128 - pan as int) <= 0x2_0000_0000
                && -0x2_0000_0000 <= (input as int) * (pan as int)
                && (input as int) * (pan as int) <= 0x2_0000_0000)
                by (nonlinear_arith)
                requires -0x400_0000 <= input <= 0x400_0000 && 0 <= pan <= 128;
        }
        let lw: i64 = input as i64 * (128 - pan as i64);
        let rw: i64 = input as i64 * self.pan as i64;
        let ls = floor_div_i64(lw, 1024);
        let rs = floor_div_i64(rw, 1024);
        proof {
            lemma_floor_div_1024_bound(lw as int);
            lemma_floor_div_1024_bound(rw as int);
        }
        *left = *left + ls as i32;
        *right = *right + rs as i32;
    }

    /// The next programmable-tone sample: entry `pos % 8` of the selected
    /// waveform row.
    pub fn next_sample_psg(&mut self)
        requires
            old(self).wf(),
        ensures
            final(self).wf(),
            final(self).pos == spec_cap_add(old(self).pos as int, 1),
            final(self).current_sample == spec_psg_sample(
                ((final(self).control >> 24) & 0x7) as int,
                final(self).pos as int % 8,
            ),
            *final(self) == (SpuChannel {
                pos: final(self).pos,
                current_sample: final(self).current_sample,
                ..*old(self)
            }),
    {
        if self.pos < COUNTER_CAP as i64 {
            self.pos = self.pos + 1;
        }
        let c = self.control;
        proof {
            assert((c >> 24) & 0x7 <= 7) by (bit_vector);
        }
        let wave = ((c >> 24) & 0x7) as u64;
        let index: u64 = if self.pos >= 0 {
            (self.pos % 8) as u64
        } else {
            // positions -3..-1 (the pre-roll) wrap as the hardware's
            // two's-complement masking does
            (self.pos + 8) as u64 % 8
        };
        let w: i16 = if wave == 0 {
            if index == 7 { 0x7FFF } else { -0x7FFF }
        } else if wave == 1 {
            if index >= 5 { 0x7FFF } else { -0x7FFF }
        } else if wave == 2 {
            if index == 0 { -29490 } else if index == 1 { -22937 }
            else if index == 2 { -26214 } else if index == 3 { -26214 }
            else if index == 4 { 29490 } else if index == 5 { 22937 }
            else if index == 6 { 26214 } else { 26214 }
        } else if wave == 3 {
            if index >= 3 { 0x7FFF } else { -0x7FFF }
        } else if wave == 4 {
            if index == 0 { -22936 } else if index == 1 { -29490 }
            else if index == 7 { 19660 } else { -0x7FFF }
        } else if wave == 5 {
            if index == 0 { -29490 } else if index == 1 { -32767 }
            else if index == 2 { -26214 } else if index == 3 { -26214 }
            else if index == 4 { -32767 } else if index == 5 { -32767 }
            else if index == 6 { 22937 } else { 26214 }
        } else if wave == 6 {
            if index == 0 { -27033 } else if index == 1 { -27033 }
            else if index == 2 { -31948 } else if index == 3 { -31948 }
            else if index == 4 { 27033 } else if index == 5 { 27033 }
            else if index == 6 { 31948 } else { 31948 }
        } else {
            if index == 1 { -22936 } else if index == 3 { -29490 }
            else if index == 7 { 19660 } else { -0x7FFF }
        };
        self.current_sample = w;
    }

    /// Advances the 16-bit noise shift register: bit 0 selects the output
    /// level and, when set, folds the feedback mask back in.
    pub fn next_sample_noise(&mut self)
        requires
            old(self).wf(),
        ensures
            final(self).wf(),
            final(self).noise_val == if old(self).noise_val & 1 != 0 {
                (old(self).noise_val >> 1) ^ 0x6000
            } else {
                old(self).noise_val >> 1
            },
            final(self).current_sample == if old(self).noise_val & 1 != 0 {
                -0x7FFFi16
            } else {
                0x7FFFi16
            },
            *final(self) == (SpuChannel {
                noise_val: final(self).noise_val,
                current_sample: final(self).current_sample,
                ..*old(self)
            }),
    {
        if (self.noise_val & 0x1) != 0 {
            self.noise_val = (self.noise_val >> 1) ^ 0x6000;
            self.current_sample = -0x7FFF;
        } else {
            self.noise_val = self.noise_val >> 1;
            self.current_sample = 0x7FFF;
        }
    }
}

/// A product bounded by 2^33 shrinks to 2^23 under floor division by 1024.
proof fn lemma_floor_div_1024_bound(x: int)
    requires
        -0x2_0000_0000 <= x <= 0x2_0000_0000,
    ensures
        -0x80_0000 <= x / 1024 <= 0x80_0000,
{
    assert(-0x80_0000 <= x / 1024 <= 0x80_0000) by (nonlinear_arith)
        requires -0x2_0000_0000 <= x <= 0x2_0000_0000;
}

/// Floor division of a (possibly negative) value by a positive divisor,
/// the arithmetic-shift semantics of the hardware's pan and volume scaling.
pub fn floor_div_i64(x: i64, d: i64) -> (r: i64)
    requires
        1 <= d <= 0x1_0000_0000,
        -0x4000_0000_0000_0000 <= x <= 0x4000_0000_0000_0000,
    ensures
        r == (x as int) / (d as int),
{
    if x >= 0 {
        x / d
    } else {
        let q = (-x + (d - 1)) / d;
        proof {
            let xi = x as int;
            let di = d as int;
            let qi = ((-xi + di - 1) / di);
            assert(di * qi <= -xi + di - 1 && -xi <= di * qi) by (nonlinear_arith)
                requires di >= 1 && -xi >= 1 && qi == ((-xi + di - 1) / di);
            assert(xi / di == -qi) by (nonlinear_arith)
                requires di >= 1 && di * qi <= -xi + di - 1 && -xi <= di * qi;
        }
        -q
    }
}

/// A word fetched by the burst engine: main-RAM reads return memory, any
/// other address (including the protected low region) yields zero.
pub open spec fn spec_burst_word(nds: Nds, a: int) -> u32 {
    if MAIN_RAM_REGION_START <= a < MAIN_RAM_REGION_END {
        nds.spec_read32(a)
    } else {
        0
    }
}

/// FIFO contents after `n` burst words have been written starting at word
/// slot `wp`, fetching from source offset `off` onward.
pub open spec fn spec_burst_fill(fifo: Seq<u32>, wp: int, nds: Nds, src: int, off: int, n: nat)
    -> Seq<u32>
    decreases n
{
    if n == 0 {
        fifo
    } else {
        let prev = spec_burst_fill(fifo, wp, nds, src, off, (n - 1) as nat);
        prev.update((wp + n - 1) % 8, spec_burst_word(nds, src + off + 4 * (n - 1)))
    }
}

impl SpuChannel {
    /// Repeat-mode bits of the control word.
    pub open spec fn spec_repeat_mode(self) -> u32 {
        (self.control >> 27) & 0x3
    }

    /// Source offset the next burst starts at, or `None` when a finished
    /// one-shot stops buffering.
    pub open spec fn spec_burst_start(self) -> Option<int> {
        let total = self.loop_pos + self.length;
        if self.fifo_read_offset >= total {
            if self.spec_repeat_mode() & 1 != 0 {
                Some(self.loop_pos as int)
            } else if self.spec_repeat_mode() & 2 != 0 {
                None
            } else {
                Some(self.fifo_read_offset as int)
            }
        } else {
            Some(self.fifo_read_offset as int)
        }
    }

    /// Bytes the next burst fetches: a full 16, or the tail of the sample.
    pub open spec fn spec_burst_len_at(self, off: int) -> int {
        let total = self.loop_pos + self.length;
        if off + 16 > total {
            if total >= off { total - off } else { 0 }
        } else {
            16
        }
    }

    /// The lane after one burst of the FIFO buffering engine.
    pub open spec fn spec_after_buffer(self, nds: Nds) -> SpuChannel {
        match self.spec_burst_start() {
            None => self,
            Some(off) => {
                let blen = self.spec_burst_len_at(off);
                let words = blen / 4;
                SpuChannel {
                    fifo_data: self.fifo_data,  // contents given by view below
                    fifo_read_offset: spec_cap_add(off, blen) as u64,
                    fifo_write_pos: ((self.fifo_write_pos + words) % 8) as usize,
                    fifo_level: (self.fifo_level + blen) as usize,
                    ..self
                }
            }
        }
    }

    /// FIFO view after one burst, over an explicit base view.
    pub open spec fn spec_after_buffer_fifo_v(self, base: Seq<u32>, nds: Nds) -> Seq<u32> {
        match self.spec_burst_start() {
            None => base,
            Some(off) => {
                let blen = self.spec_burst_len_at(off);
                spec_burst_fill(
                    base,
                    self.fifo_write_pos as int,
                    nds,
                    self.src_address as int,
                    off,
                    (blen / 4) as nat,
                )
            }
        }
    }

    /// FIFO view after one burst.
    pub open spec fn spec_after_buffer_fifo(self, nds: Nds) -> Seq<u32> {
        self.spec_after_buffer_fifo_v(self.fifo_data@, nds)
    }

    /// Fetches one burst of sample words from memory into the FIFO,
    /// honouring the loop / one-shot repeat mode at the end of the data.
    #[verifier::rlimit(40)]
    pub fn fifo_buffer_data(&mut self, nds: &Nds)
        requires
            old(self).wf(),
            nds.wf(),
            old(self).fifo_level <= 16,
        ensures
            final(self).wf(),
            *final(self) == (SpuChannel {
                fifo_data: final(self).fifo_data,
                fifo_read_offset: final(self).fifo_read_offset,
                fifo_write_pos: final(self).fifo_write_pos,
                fifo_level: final(self).fifo_level,
                ..*old(self)
            }),
            *final(self) == (SpuChannel {
                fifo_data: final(self).fifo_data,
                ..old(self).spec_after_buffer(*nds)
            }),
            final(self).fifo_data@ == old(self).spec_after_buffer_fifo(*nds),
    {
        let total_len = self.loop_pos + self.length;

        if self.fifo_read_offset >= total_len as u64 {
            let repeat_mode = (self.control >> 27) & 0x3;
            if repeat_mode & 1 != 0 {
                self.fifo_read_offset = self.loop_pos as u64;
            } else if repeat_mode & 2 != 0 {
                // one-shot sound has been fully fetched
                return;
            }
        }

        let off = self.fifo_read_offset;
        let burst_len: u64 = if off + 16 > total_len as u64 {
            if total_len as u64 >= off { total_len as u64 - off } else { 0 }
        } else {
            16
        };
        let words = (burst_len / 4) as usize;
        let ghost fifo0 = self.fifo_data@;
        let ghost wp0 = self.fifo_write_pos as int;
        let ghost pre = *self;
        let src = self.src_address;
        let mut j: usize = 0;
        while j < words
            invariant
                self.wf(),
                nds.wf(),
                words <= 4,
                j <= words,
                src == self.src_address < 0x0800_0000,
                off <= COUNTER_CAP,
                burst_len <= 16,
                self.fifo_write_pos as int == (wp0 + j) % 8,
                self.fifo_data@ == spec_burst_fill(fifo0, wp0, *nds, src as int, off as int, j as nat),
                *self == (SpuChannel {
                    fifo_data: self.fifo_data,
                    fifo_write_pos: self.fifo_write_pos,
                    ..pre
                }),
            decreases words - j,
        {
            let a: u64 = src as u64 + off + 4 * j as u64;
            let word: u32 = if MAIN_RAM_REGION_START as u64 <= a && a < MAIN_RAM_REGION_END as u64 {
                nds.arm7_read32(a as usize)
            } else {
                0
            };
            self.fifo_data.set(self.fifo_write_pos, word);
            self.fifo_write_pos = (self.fifo_write_pos + 1) % 8;
            j = j + 1;
        }

        if off + burst_len <= COUNTER_CAP {
            self.fifo_read_offset = off + burst_len;
        }
        self.fifo_level = self.fifo_level + burst_len as usize;
    }
}

impl SpuChannel {
    /// Byte at FIFO byte position `p`.
    pub open spec fn spec_fifo_byte_at(self, p: int) -> u32 {
        let w = self.fifo_data@[p / 4];
        let b = p % 4;
        if b == 0 { w % 0x100 }
        else if b == 1 { (w / 0x100) % 0x100 }
        else if b == 2 { (w / 0x1_0000) % 0x100 }
        else { w / 0x100_0000 }
    }

    /// The FIFO read cursor and buffered level after consuming `size` bytes;
    /// an under-run leaves the level at zero (stale data by design).
    pub open spec fn spec_after_consume(self, size: int) -> SpuChannel {
        SpuChannel {
            fifo_read_pos: ((self.fifo_read_pos + size) % 32) as usize,
            fifo_level: if self.fifo_level >= size {
                (self.fifo_level - size) as usize
            } else {
                0
            },
            ..self
        }
    }

    /// Reads the byte at the FIFO cursor and advances it; refills the FIFO
    /// by one burst when the level drops to the refill threshold.
    pub fn fifo_read_u8(&mut self, nds: &Nds) -> (r: u8)
        requires
            old(self).wf(),
            nds.wf(),
        ensures
            final(self).wf(),
            r == old(self).spec_fifo_byte_at(old(self).fifo_read_pos as int),
            ({
                let mid = old(self).spec_after_consume(1);
                &&& *final(self) == (SpuChannel {
                    fifo_data: final(self).fifo_data,
                    ..if mid.fifo_level <= 16 { mid.spec_after_buffer(*nds) } else { mid }
                })
                &&& final(self).fifo_data@ == if mid.fifo_level <= 16 {
                    mid.spec_after_buffer_fifo(*nds)
                } else {
                    old(self).fifo_data@
                }
            }),
    {
        let p = self.fifo_read_pos;
        let w = self.fifo_data[p / 4];
        let b = p % 4;
        let r: u8 = if b == 0 { (w % 0x100) as u8 }
            else if b == 1 { ((w / 0x100) % 0x100) as u8 }
            else if b == 2 { ((w / 0x1_0000) % 0x100) as u8 }
            else { (w / 0x100_0000) as u8 };
        self.fifo_read_pos = (p + 1) % 32;
        self.fifo_level = if self.fifo_level >= 1 { self.fifo_level - 1 } else { 0 };
        if self.fifo_level <= 16 {
            self.fifo_buffer_data(nds);
        }
        r
    }

    /// Little-endian 16-bit value at FIFO byte position `p` (wrapping).
    pub open spec fn spec_fifo_u16_at(self, p: int) -> u16 {
        (self.spec_fifo_byte_at(p % 32)
            + self.spec_fifo_byte_at((p + 1) % 32) * 0x100) as u16
    }

    /// Reads a little-endian 16-bit sample at the FIFO cursor.
    pub fn fifo_read_u16(&mut self, nds: &Nds) -> (r: u16)
        requires
            old(self).wf(),
            nds.wf(),
        ensures
            final(self).wf(),
            r == old(self).spec_fifo_u16_at(old(self).fifo_read_pos as int),
            ({
                let mid = old(self).spec_after_consume(2);
                &&& *final(self) == (SpuChannel {
                    fifo_data: final(self).fifo_data,
                    ..if mid.fifo_level <= 16 { mid.spec_after_buffer(*nds) } else { mid }
                })
                &&& final(self).fifo_data@ == if mid.fifo_level <= 16 {
                    mid.spec_after_buffer_fifo(*nds)
                } else {
                    old(self).fifo_data@
                }
            }),
    {
        let p = self.fifo_read_pos;
        let b0 = self.fifo_byte_at(p);
        let b1 = self.fifo_byte_at((p + 1) % 32);
        self.fifo_read_pos = (p + 2) % 32;
        self.fifo_level = if self.fifo_level >= 2 { self.fifo_level - 2 } else { 0 };
        if self.fifo_level <= 16 {
            self.fifo_buffer_data(nds);
        }
        b0 as u16 + b1 as u16 * 0x100
    }

    /// Little-endian 32-bit value at FIFO byte position `p` (wrapping).
    pub open spec fn spec_fifo_u32_at(self, p: int) -> u32 {
        (self.spec_fifo_byte_at(p % 32)
            + self.spec_fifo_byte_at((p + 1) % 32) * 0x100
            + self.spec_fifo_byte_at((p + 2) % 32) * 0x1_0000
            + self.spec_fifo_byte_at((p + 3) % 32) * 0x100_0000) as u32
    }

    /// Reads a little-endian 32-bit word at the FIFO cursor.
    #[verifier::rlimit(60)]
    pub fn fifo_read_u32(&mut self, nds: &Nds) -> (r: u32)
        requires
            old(self).wf(),
            nds.wf(),
        ensures
            final(self).wf(),
            r == old(self).spec_fifo_u32_at(old(self).fifo_read_pos as int),
            ({
                let mid = old(self).spec_after_consume(4);
                &&& *final(self) == (SpuChannel {
                    fifo_data: final(self).fifo_data,
                    ..if mid.fifo_level <= 16 { mid.spec_after_buffer(*nds) } else { mid }
                })
                &&& final(self).fifo_data@ == if mid.fifo_level <= 16 {
                    mid.spec_after_buffer_fifo(*nds)
                } else {
                    old(self).fifo_data@
                }
            }),
    {
        let p = self.fifo_read_pos;
        let b0 = self.fifo_byte_at(p);
        let b1 = self.fifo_byte_at((p + 1) % 32);
        let b2 = self.fifo_byte_at((p + 2) % 32);
        let b3 = self.fifo_byte_at((p + 3) % 32);
        self.fifo_read_pos = (p + 4) % 32;
        self.fifo_level = if self.fifo_level >= 4 { self.fifo_level - 4 } else { 0 };
        if self.fifo_level <= 16 {
            self.fifo_buffer_data(nds);
        }
        b0 as u32 + b1 as u32 * 0x100 + b2 as u32 * 0x1_0000 + b3 as u32 * 0x100_0000
    }

    /// Byte at FIFO position `p` without consuming it.
    fn fifo_byte_at(&self, p: usize) -> (r: u8)
        requires
            self.wf(),
            p < 32,
        ensures
            r == self.spec_fifo_byte_at(p as int),
    {
        let w = self.fifo_data[p / 4];
        let b = p % 4;
        if b == 0 { (w % 0x100) as u8 }
        else if b == 1 { ((w / 0x100) % 0x100) as u8 }
        else if b == 2 { ((w / 0x1_0000) % 0x100) as u8 }
        else { (w / 0x100_0000) as u8 }
    }

    /// Clears the registers and playback cursors; the decode state and
    /// current sample keep their values, as on the hardware.
    pub fn reset(&mut self)
        requires
            old(self).wf(),
        ensures
            final(self).wf(),
            *final(self) == (SpuChannel {
                key_on: false,
                control: 0,
                volume: 0,
                volume_shift: 4,
                pan: 0,
                src_address: 0,
                timer_reload: 0,
                loop_pos: 0,
                length: 0,
                timer: 0,
                pos: 0,
                fifo_read_pos: 0,
                fifo_write_pos: 0,
                fifo_read_offset: 0,
                fifo_level: 0,
                ..*old(self)
            }),
    {
        self.key_on = false;
        self.set_control(0);
        proof {
            assert(0u32 & 0xFF7F_837F == 0) by (bit_vector);
            assert((0u32 >> 8) & 0x3 == 0) by (bit_vector);
            assert((0u32 >> 16) & 0x7F == 0) by (bit_vector);
            assert(0u32 & 0x7F == 0) by (bit_vector);
            assert(0u32 & 0x8000_0000 == 0) by (bit_vector);
        }
        self.src_address = 0;
        self.timer_reload = 0;
        self.loop_pos = 0;
        self.length = 0;
        self.timer = 0;
        self.pos = 0;
        self.fifo_read_pos = 0;
        self.fifo_write_pos = 0;
        self.fifo_read_offset = 0;
        self.fifo_level = 0;
    }

    /// Format-selector bits of the control word.
    pub open spec fn spec_format(self) -> u32 {
        (self.control >> 29) & 0x3
    }

    /// Register state at the top of the key-on start sequence, before any
    /// pre-buffering: cursors rewound, noise generator seeded, the pre-roll
    /// position set by format.
    pub open spec fn spec_start_state(self) -> SpuChannel {
        SpuChannel {
            timer: self.timer_reload as u32,
            pos: if self.spec_format() == 3 { -1 as i64 } else { -3 as i64 },
            noise_val: 0x7FFF,
            current_sample: 0,
            fifo_read_pos: 0,
            fifo_write_pos: 0,
            fifo_read_offset: 0,
            fifo_level: 0,
            tick: 0,
            restarts: spec_cap_add(self.restarts as int, 1) as u64,
            ..self
        }
    }

    /// Key-on start sequence: rewinds the playback state and, for the
    /// memory-backed formats, pre-buffers two bursts of sample data.
    #[verifier::rlimit(60)]
    pub fn start(&mut self, nds: &Nds)
        requires
            old(self).wf(),
            nds.wf(),
        ensures
            final(self).wf(),
            ({
                let s1 = old(self).spec_start_state();
                if s1.spec_format() != 3 {
                    let s2 = s1.spec_after_buffer(*nds);
                    let v2 = s1.spec_after_buffer_fifo(*nds);
                    &&& *final(self) == (SpuChannel {
                        fifo_data: final(self).fifo_data,
                        ..s2.spec_after_buffer(*nds)
                    })
                    &&& final(self).fifo_data@ == (SpuChannel {
                        fifo_data: final(self).fifo_data,
                        ..s2
                    }).spec_after_buffer_fifo_v(v2, *nds)
                } else {
                    &&& *final(self) == (SpuChannel {
                        fifo_data: final(self).fifo_data,
                        ..s1
                    })
                    &&& final(self).fifo_data@ == old(self).fifo_data@
                }
            }),
    {
        self.timer = self.timer_reload as u32;

        if (self.control >> 29) & 0x3 == 3 {
            self.pos = -1;
        } else {
            self.pos = -3;
        }

        self.noise_val = 0x7FFF;
        self.current_sample = 0;

        self.fifo_read_pos = 0;
        self.fifo_write_pos = 0;
        self.fifo_read_offset = 0;
        self.fifo_level = 0;

        self.tick = 0;
        if self.restarts < COUNTER_CAP {
            self.restarts = self.restarts + 1;
        }

        // pre-buffer two bursts for the memory-backed formats
        if (self.control >> 29) & 0x3 != 3 {
            self.fifo_buffer_data(nds);
            self.fifo_buffer_data(nds);
        }
    }
}

/// Step size for an ADPCM step index.
fn adpcm_step_value(index: i32) -> (res: u16)
    requires
        0 <= index <= 88,
    ensures
        res == spec_adpcm_step(index as int),
{
    if index == 0 { 7 }
        else if index == 1 { 8 }
        else if index == 2 { 9 }
        else if index == 3 { 10 }
        else if index == 4 { 11 }
        else if index == 5 { 12 }
        else if index == 6 { 13 }
        else if index == 7 { 14 }
        else if index == 8 { 16 }
        else if index == 9 { 17 }
        else if index == 10 { 19 }
        else if index == 11 { 21 }
        else if index == 12 { 23 }
        else if index == 13 { 25 }
        else if index == 14 { 28 }
        else if index == 15 { 31 }
        else if index == 16 { 34 }
        else if index == 17 { 37 }
        else if index == 18 { 41 }
        else if index == 19 { 45 }
        else if index == 20 { 50 }
        else if index == 21 { 55 }
        else if index == 22 { 60 }
        else if index == 23 { 66 }
        else if index == 24 { 73 }
        else if index == 25 { 80 }
        else if index == 26 { 88 }
        else if index == 27 { 97 }
        else if index == 28 { 107 }
        else if index == 29 { 118 }
        else if index == 30 { 130 }
        else if index == 31 { 143 }
        else if index == 32 { 157 }
        else if index == 33 { 173 }
        else if index == 34 { 190 }
        else if index == 35 { 209 }
        else if index == 36 { 230 }
        else if index == 37 { 253 }
        else if index == 38 { 279 }
        else if index == 39 { 307 }
        else if index == 40 { 337 }
        else if index == 41 { 371 }
        else if index == 42 { 408 }
        else if index == 43 { 449 }
        else if index == 44 { 494 }
        else if index == 45 { 544 }
        else if index == 46 { 598 }
        else if index == 47 { 658 }
        else if index == 48 { 724 }
        else if index == 49 { 796 }
        else if index == 50 { 876 }
        else if index == 51 { 963 }
        else if index == 52 { 1060 }
        else if index == 53 { 1166 }
        else if index == 54 { 1282 }
        else if index == 55 { 1411 }
        else if index == 56 { 1552 }
        else if index == 57 { 1707 }
        else if index == 58 { 1878 }
        else if index == 59 { 2066 }
        else if index == 60 { 2272 }
        else if index == 61 { 2499 }
        else if index == 62 { 2749 }
        else if index == 63 { 3024 }
        else if index == 64 { 3327 }
        else if index == 65 { 3660 }
        else if index == 66 { 4026 }
        else if index == 67 { 4428 }
        else if index == 68 { 4871 }
        else if index == 69 { 5358 }
        else if index == 70 { 5894 }
        else if index == 71 { 6484 }
        else if index == 72 { 7132 }
        else if index == 73 { 7845 }
        else if index == 74 { 8630 }
        else if index == 75 { 9493 }
        else if index == 76 { 10442 }
        else if index == 77 { 11487 }
        else if index == 78 { 12635 }
        else if index == 79 { 13899 }
        else if index == 80 { 15289 }
        else if index == 81 { 16818 }
        else if index == 82 { 18500 }
        else if index == 83 { 20350 }
        else if index == 84 { 22385 }
        else if index == 85 { 24623 }
        else if index == 86 { 27086 }
        else if index == 87 { 29794 }
        else { 32767 }
}

/// New predictor after one ADPCM nibble: the scaled step is added or
/// subtracted by the sign bit, clamping at +/-0x7FFF.
pub open spec fn spec_adpcm_val_step(val: int, step: u16, nib: u8) -> int {
    let diff = step / 8
        + (if nib & 1 != 0 { step / 4 } else { 0 })
        + (if nib & 2 != 0 { step / 2 } else { 0 })
        + (if nib & 4 != 0 { step as int } else { 0 });
    if nib & 8 != 0 {
        if val - diff < -0x7FFF { -0x7FFF } else { val - diff }
    } else {
        if val + diff > 0x7FFF { 0x7FFF } else { val + diff }
    }
}

/// New step index after one ADPCM nibble, clamped to 0..=88.
pub open spec fn spec_adpcm_index_step(index: int, nib: u8) -> int {
    let next = index + spec_adpcm_index_delta((nib & 7) as int);
    if next < 0 { 0 } else if next > 88 { 88 } else { next }
}

/// Decodes one ADPCM nibble: returns the new predictor and step index.
pub fn adpcm_decode_step(val: i32, index: i32, nib: u8) -> (res: (i32, i32))
    requires
        -0x8000 <= val <= 0x7FFF,
        0 <= index <= 88,
    ensures
        res.0 == spec_adpcm_val_step(val as int, spec_adpcm_step(index as int), nib),
        res.1 == spec_adpcm_index_step(index as int, nib),
        -0x8000 <= res.0 <= 0x7FFF,
        0 <= res.1 <= 88,
{
    let step = adpcm_step_value(index);
    let mut diff: i32 = (step / 8) as i32;
    if nib & 1 != 0 {
        diff = diff + (step / 4) as i32;
    }
    if nib & 2 != 0 {
        diff = diff + (step / 2) as i32;
    }
    if nib & 4 != 0 {
        diff = diff + step as i32;
    }
    let new_val: i32 = if nib & 8 != 0 {
        if val - diff < -0x7FFF { -0x7FFF } else { val - diff }
    } else {
        if val + diff > 0x7FFF { 0x7FFF } else { val + diff }
    };
    let delta: i32 = if nib & 7 < 4 { -1 }
        else if nib & 7 == 4 { 2 }
        else if nib & 7 == 5 { 4 }
        else if nib & 7 == 6 { 6 }
        else { 8 };
    let mut new_index = index + delta;
    if new_index < 0 {
        new_index = 0;
    } else if new_index > 88 {
        new_index = 88;
    }
    proof {
        assert(nib & 7 <= 7) by (bit_vector);
    }
    (new_val, new_index)
}

/// An 8-bit sample value widened to the 16-bit range (sign-extended and
/// shifted into the high byte).
pub open spec fn spec_pcm8_sample(b: u32) -> i16 {
    let v = b % 0x100;
    if v < 0x80 { (v * 0x100) as i16 } else { ((v - 0x100) * 0x100) as i16 }
}

/// A raw little-endian 16-bit value reinterpreted as a signed sample.
pub open spec fn spec_pcm16_sample(v: u16) -> i16 {
    if v < 0x8000 { v as i16 } else { (v - 0x1_0000) as i16 }
}

impl SpuChannel {
    /// Holds when `post` is `pre` after one FIFO byte read feeding the 8-bit
    /// sample decoder.
    pub open spec fn spec_pcm8_read_post(pre: SpuChannel, nds: Nds, post: SpuChannel) -> bool {
        let mid = pre.spec_after_consume(1);
        let refill = mid.fifo_level <= 16;
        let s = if refill { mid.spec_after_buffer(nds) } else { mid };
        &&& post == (SpuChannel {
            fifo_data: post.fifo_data,
            current_sample: post.current_sample,
            ..s
        })
        &&& post.fifo_data@ == (if refill { mid.spec_after_buffer_fifo(nds) } else { pre.fifo_data@ })
        &&& post.current_sample == spec_pcm8_sample(
            pre.spec_fifo_byte_at(pre.fifo_read_pos as int))
    }

    /// One 8-bit PCM tick: advances the position, honours the loop or
    /// one-shot boundary, and pulls the next sample from the FIFO.
    pub fn next_sample_pcm8(&mut self, nds: &Nds)
        requires
            old(self).wf(),
            nds.wf(),
        ensures
            final(self).wf(),
            ({
                let p1 = spec_cap_add(old(self).pos as int, 1);
                let total = old(self).loop_pos + old(self).length;
                let rm = old(self).spec_repeat_mode();
                if p1 < 0 {
                    *final(self) == (SpuChannel { pos: p1 as i64, ..*old(self) })
                } else if p1 >= total && rm & 1 != 0 {
                    Self::spec_pcm8_read_post(
                        SpuChannel { pos: old(self).loop_pos as i64, ..*old(self) },
                        *nds, *final(self))
                } else if p1 >= total && rm & 2 != 0 {
                    *final(self) == (SpuChannel {
                        pos: p1 as i64,
                        current_sample: 0i16,
                        control: old(self).control & 0x7FFF_FFFF,
                        ..*old(self)
                    })
                } else {
                    Self::spec_pcm8_read_post(
                        SpuChannel { pos: p1 as i64, ..*old(self) },
                        *nds, *final(self))
                }
            }),
    {
        if self.pos < COUNTER_CAP as i64 {
            self.pos = self.pos + 1;
        }
        if self.pos < 0 {
            return;
        }
        if self.pos >= (self.loop_pos + self.length) as i64 {
            let repeat = (self.control >> 27) & 0x3;
            if repeat & 1 != 0 {
                self.pos = self.loop_pos as i64;
            } else if repeat & 2 != 0 {
                self.current_sample = 0;
                self.control = self.control & 0x7FFF_FFFF;
                return;
            }
        }
        let val = self.fifo_read_u8(nds);
        self.current_sample = if val < 0x80 {
            val as i16 * 0x100
        } else {
            (val as i16 - 0x100) * 0x100
        };
    }

    /// Holds when `post` is `pre` after one 16-bit FIFO read feeding the
    /// sample register.
    pub open spec fn spec_pcm16_read_post(pre: SpuChannel, nds: Nds, post: SpuChannel) -> bool {
        let mid = pre.spec_after_consume(2);
        let refill = mid.fifo_level <= 16;
        let s = if refill { mid.spec_after_buffer(nds) } else { mid };
        &&& post == (SpuChannel {
            fifo_data: post.fifo_data,
            current_sample: post.current_sample,
            ..s
        })
        &&& post.fifo_data@ == (if refill { mid.spec_after_buffer_fifo(nds) } else { pre.fifo_data@ })
        &&& post.current_sample == spec_pcm16_sample(
            pre.spec_fifo_u16_at(pre.fifo_read_pos as int))
    }

    /// One 16-bit PCM tick: advances the position (counted in samples, so
    /// the byte boundary is `2 * pos`), honours the loop or one-shot
    /// boundary, and pulls the next sample from the FIFO.
    pub fn next_sample_pcm16(&mut self, nds: &Nds)
        requires
            old(self).wf(),
            nds.wf(),
        ensures
            final(self).wf(),
            ({
                let p1 = spec_cap_add(old(self).pos as int, 1);
                let total = old(self).loop_pos + old(self).length;
                let rm = old(self).spec_repeat_mode();
                if p1 < 0 {
                    *final(self) == (SpuChannel { pos: p1 as i64, ..*old(self) })
                } else if 2 * p1 >= total && rm & 1 != 0 {
                    Self::spec_pcm16_read_post(
                        SpuChannel { pos: (old(self).loop_pos / 2) as i64, ..*old(self) },
                        *nds, *final(self))
                } else if 2 * p1 >= total && rm & 2 != 0 {
                    *final(self) == (SpuChannel {
                        pos: p1 as i64,
                        current_sample: 0i16,
                        control: old(self).control & 0x7FFF_FFFF,
                        ..*old(self)
                    })
                } else {
                    Self::spec_pcm16_read_post(
                        SpuChannel { pos: p1 as i64, ..*old(self) },
                        *nds, *final(self))
                }
            }),
    {
        if self.pos < COUNTER_CAP as i64 {
            self.pos = self.pos + 1;
        }
        if self.pos < 0 {
            return;
        }
        if self.pos * 2 >= (self.loop_pos + self.length) as i64 {
            let repeat = (self.control >> 27) & 0x3;
            if repeat & 1 != 0 {
                self.pos = (self.loop_pos / 2) as i64;
            } else if repeat & 2 != 0 {
                self.current_sample = 0;
                self.control = self.control & 0x7FFF_FFFF;
                return;
            }
        }
        let val = self.fifo_read_u16(nds);
        self.current_sample = if val < 0x8000 {
            val as i16
        } else {
            ((val as u32 as i32) - 0x1_0000) as i16
        };
    }
}

impl SpuChannel {
    /// Holds when `post` is `pre` after one FIFO byte read into the ADPCM
    /// byte register, with predictor state given by `val`/`index`.
    pub open spec fn spec_adpcm_fetch_post(
        pre: SpuChannel, nds: Nds, post: SpuChannel, val: i32, index: i32) -> bool
    {
        let mid = pre.spec_after_consume(1);
        let refill = mid.fifo_level <= 16;
        let s = if refill { mid.spec_after_buffer(nds) } else { mid };
        &&& post == (SpuChannel {
            fifo_data: post.fifo_data,
            adpcm_current_byte: pre.spec_fifo_byte_at(pre.fifo_read_pos as int) as u8,
            adpcm_val: val,
            adpcm_index: index,
            current_sample: val as i16,
            ..s
        })
        &&& post.fifo_data@ == (if refill { mid.spec_after_buffer_fifo(nds) } else { pre.fifo_data@ })
    }

    /// One ADPCM tick.  The first eight sub-ticks consume the 4-byte header
    /// (initial predictor and step index); afterwards each tick decodes one
    /// nibble, restoring the loop-point snapshot when playback wraps.
    #[verifier::rlimit(100)]
    #[verifier::spinoff_prover]
    pub fn next_sample_adpcm(&mut self, nds: &Nds)
        requires
            old(self).wf(),
            nds.wf(),
        ensures
            final(self).wf(),
            ({
                let p1 = spec_cap_add(old(self).pos as int, 1);
                final(self).pos == if 8 <= p1 && p1 / 2 >= old(self).loop_pos + old(self).length
                    && old(self).spec_repeat_mode() & 1 != 0 {
                    2 * old(self).loop_pos
                } else {
                    p1
                }
            }),
            -0x8000 <= final(self).adpcm_val <= 0x7FFF,
            0 <= final(self).adpcm_index <= 88,
            ({
                let p1 = spec_cap_add(old(self).pos as int, 1);
                // header phase: predictor loaded from the stream, clamped
                p1 == 0 ==> {
                    let header = old(self).spec_fifo_u32_at(old(self).fifo_read_pos as int);
                    let v = header % 0x1_0000;
                    let sv = if v < 0x8000 { v as int } else { v - 0x1_0000 };
                    let ix0 = (header / 0x1_0000) % 0x80;
                    let ix = if ix0 > 88 { 88 as int } else { ix0 as int };
                    &&& final(self).adpcm_val == sv
                    &&& final(self).adpcm_index == ix
                    &&& final(self).adpcm_val_loop == sv
                    &&& final(self).adpcm_index_loop == ix
                    &&& final(self).current_sample == old(self).current_sample
                }
            }),
            ({
                let p1 = spec_cap_add(old(self).pos as int, 1);
                // steady decode phase away from boundaries: one nibble
                (8 <= p1 && p1 / 2 < old(self).loop_pos + old(self).length
                    && p1 != 2 * old(self).loop_pos) ==> {
                    let nib: u8 = if p1 % 2 == 0 {
                        (old(self).spec_fifo_byte_at(old(self).fifo_read_pos as int) % 16) as u8
                    } else {
                        old(self).adpcm_current_byte / 16
                    };
                    let step = spec_adpcm_step(old(self).adpcm_index as int);
                    &&& final(self).adpcm_val
                        == spec_adpcm_val_step(old(self).adpcm_val as int, step, nib)
                    &&& final(self).adpcm_index
                        == spec_adpcm_index_step(old(self).adpcm_index as int, nib)
                    &&& final(self).current_sample == final(self).adpcm_val as i16
                    &&& final(self).adpcm_val_loop == old(self).adpcm_val_loop
                    &&& final(self).adpcm_index_loop == old(self).adpcm_index_loop
                }
            }),
            ({
                let p1 = spec_cap_add(old(self).pos as int, 1);
                // passing the loop point: the nibble decodes as usual and
                // the decoded predictor state is re-saved as the snapshot
                // a later loop wrap restores
                (8 <= p1 && p1 / 2 < old(self).loop_pos + old(self).length
                    && p1 == 2 * old(self).loop_pos) ==> {
                    let nib: u8 = if p1 % 2 == 0 {
                        (old(self).spec_fifo_byte_at(old(self).fifo_read_pos as int) % 16) as u8
                    } else {
                        old(self).adpcm_current_byte / 16
                    };
                    let step = spec_adpcm_step(old(self).adpcm_index as int);
                    &&& final(self).adpcm_val
                        == spec_adpcm_val_step(old(self).adpcm_val as int, step, nib)
                    &&& final(self).adpcm_index
                        == spec_adpcm_index_step(old(self).adpcm_index as int, nib)
                    &&& final(self).current_sample == final(self).adpcm_val as i16
                    &&& final(self).adpcm_val_loop == final(self).adpcm_val
                    &&& final(self).adpcm_index_loop == final(self).adpcm_index
                }
            }),
            ({
                let p1 = spec_cap_add(old(self).pos as int, 1);
                // one-shot end: the sample clears and key-on drops
                (8 <= p1 && p1 / 2 >= old(self).loop_pos + old(self).length
                    && old(self).spec_repeat_mode() & 1 == 0
                    && old(self).spec_repeat_mode() & 2 != 0) ==> {
                    &&& final(self).current_sample == 0
                    &&& final(self).control == old(self).control & 0x7FFF_FFFF
                    &&& final(self).adpcm_val == old(self).adpcm_val
                }
            }),
            ({
                let p1 = spec_cap_add(old(self).pos as int, 1);
                // loop wrap: predictor snapshot restored
                (8 <= p1 && p1 / 2 >= old(self).loop_pos + old(self).length
                    && old(self).spec_repeat_mode() & 1 != 0) ==> {
                    &&& final(self).adpcm_val == old(self).adpcm_val_loop
                    &&& final(self).adpcm_index == old(self).adpcm_index_loop
                    &&& final(self).pos == 2 * old(self).loop_pos
                    &&& final(self).current_sample == old(self).adpcm_val_loop as i16
                }
            }),
            (0 < spec_cap_add(old(self).pos as int, 1) < 8 ==> *final(self) == (SpuChannel {
                pos: final(self).pos,
                ..*old(self)
            })),
            *final(self) == (SpuChannel {
                pos: final(self).pos,
                current_sample: final(self).current_sample,
                control: final(self).control,
                adpcm_val: final(self).adpcm_val,
                adpcm_index: final(self).adpcm_index,
                adpcm_val_loop: final(self).adpcm_val_loop,
                adpcm_index_loop: final(self).adpcm_index_loop,
                adpcm_current_byte: final(self).adpcm_current_byte,
                fifo_data: final(self).fifo_data,
                fifo_read_pos: final(self).fifo_read_pos,
                fifo_write_pos: final(self).fifo_write_pos,
                fifo_read_offset: final(self).fifo_read_offset,
                fifo_level: final(self).fifo_level,
                ..*old(self)
            }),
            (final(self).control == old(self).control
                || final(self).control == old(self).control & 0x7FFF_FFFF),
    {
        if self.pos < COUNTER_CAP as i64 {
            self.pos = self.pos + 1;
        }
        if self.pos < 8 {
            if self.pos == 0 {
                // read and decode the ADPCM header
                let header = self.fifo_read_u32(nds);
                let v = header % 0x1_0000;
                self.adpcm_val = if v < 0x8000 {
                    v as i32
                } else {
                    v as i32 - 0x1_0000
                };
                self.adpcm_index = ((header / 0x1_0000) % 0x80) as i32;
                if self.adpcm_index > 88 {
                    self.adpcm_index = 88;
                }
                self.adpcm_val_loop = self.adpcm_val;
                self.adpcm_index_loop = self.adpcm_index;
            }
            return;
        }

        if self.pos / 2 >= (self.loop_pos + self.length) as i64 {
            let repeat = (self.control >> 27) & 0x3;
            if repeat & 1 != 0 {
                self.pos = (self.loop_pos as i64) * 2;
                self.adpcm_val = self.adpcm_val_loop;
                self.adpcm_index = self.adpcm_index_loop;
                self.adpcm_current_byte = self.fifo_read_u8(nds);
            } else if repeat & 2 != 0 {
                self.current_sample = 0;
                self.control = self.control & 0x7FFF_FFFF;
                return;
            }
        } else {
            if self.pos % 2 == 0 {
                self.adpcm_current_byte = self.fifo_read_u8(nds);
            } else {
                self.adpcm_current_byte = self.adpcm_current_byte / 16;
            }

            let stepped = adpcm_decode_step(
                self.adpcm_val, self.adpcm_index, self.adpcm_current_byte % 16);
            self.adpcm_val = stepped.0;
            self.adpcm_index = stepped.1;

            if self.pos == (self.loop_pos as i64) * 2 {
                self.adpcm_val_loop = self.adpcm_val;
                self.adpcm_index_loop = self.adpcm_index;
            }
        }

        self.current_sample = self.adpcm_val as i16;
    }
}

impl SpuChannel {
    /// Whether the lane produces sound for this run type: key-on must be
    /// set, and the memory-backed formats need at least 16 bytes of data.
    pub open spec fn spec_runnable(self, run_type: u32) -> bool {
        &&& self.control & 0x8000_0000 != 0
        &&& (run_type < 3 ==> self.length + self.loop_pos >= 16)
    }

    /// Runs the lane for one hardware tick in the given decode mode
    /// (0 = 8-bit PCM, 1 = 16-bit PCM, 2 = ADPCM, 3 = programmable tone,
    /// 4 = noise): performs a pending key-on start, advances the sample
    /// timer by one tick's worth of cycles, decodes a sample per timer
    /// overflow, and returns the volume-scaled sample.
    pub fn run(&mut self, run_type: u32, nds: &Nds) -> (r: i32)
        requires
            old(self).wf(),
            nds.wf(),
            run_type <= 4,
        ensures
            final(self).wf(),
            !old(self).spec_runnable(run_type) ==> r == 0 && *final(self) == *old(self),
            old(self).spec_runnable(run_type) ==> {
                &&& r == final(self).spec_adjust_sample(final(self).current_sample)
                &&& final(self).key_on == false
                &&& -0x400_0000 <= r <= 0x400_0000
                &&& final(self).tick == (if old(self).key_on { 0int } else { old(self).tick as int })
            },
            final(self).num == old(self).num,
            final(self).volume == old(self).volume,
            final(self).volume_shift == old(self).volume_shift,
            final(self).pan == old(self).pan,
            final(self).timer_reload == old(self).timer_reload,
            final(self).big_offset == old(self).big_offset,
            // below the overflow point a sounding lane's tick is a pure
            // advance of the 512-cycle sample timer: no decode runs
            (old(self).spec_runnable(run_type) && !old(self).key_on
                && old(self).timer + 512 < 0x1_0000) ==> *final(self) == (SpuChannel {
                timer: (old(self).timer + 512) as u32,
                ..*old(self)
            }),
    {
        if self.control & 0x8000_0000 == 0 {
            return 0;
        }
        if run_type < 3 && self.length + self.loop_pos < 16 {
            return 0;
        }

        if self.key_on {
            self.start(nds);
            self.key_on = false;
        }

        // one output sample spans 512 cycles of the 16 MHz sample timer
        let mut t: u32 = self.timer + 512;
        let ghost base = *self;
        let ghost mut n: int = 0;

        while t >= 0x1_0000
            invariant
                self.wf(),
                nds.wf(),
                run_type <= 4,
                t <= 0x1_03FF,
                self.num == old(self).num,
                self.volume == old(self).volume,
                self.volume_shift == old(self).volume_shift,
                self.pan == old(self).pan,
                self.timer_reload == old(self).timer_reload,
                self.tick == (if old(self).key_on { 0int } else { old(self).tick as int }),
                self.big_offset == old(self).big_offset,
                self.key_on == false,
                n >= 0,
                n == 0 ==> (*self == base && t == base.timer + 512),
                n >= 1 ==> base.timer + 512 >= 0x1_0000,
            decreases t,
        {
            proof {
                n = n + 1;
            }
            t = self.timer_reload as u32 + (t - 0x1_0000);

            if run_type == 0 {
                self.next_sample_pcm8(nds);
            } else if run_type == 1 {
                self.next_sample_pcm16(nds);
            } else if run_type == 2 {
                self.next_sample_adpcm(nds);
            } else if run_type == 3 {
                self.next_sample_psg();
            } else {
                self.next_sample_noise();
            }
        }

        self.timer = t;
        let r = self.current_adjusted_sample();
        proof {
            assert(-0x8000 * 16 * 128 <= self.spec_adjust_sample(self.current_sample)
                <= 0x7FFF * 16 * 128) by (nonlinear_arith)
                requires -0x8000 <= self.current_sample <= 0x7FFF
                    && 0 <= self.volume <= 128
                    && 1 <= spec_shift_mult(self.volume_shift) <= 16;
        }
        r
    }

    /// Decode mode the format-selector routes this lane to: formats 0-2 run
    /// their own decoder; format 3 runs noise on lanes 14-15, programmable
    /// tone on lanes 8-13, and nothing elsewhere.
    pub open spec fn spec_run_type(self) -> Option<u32> {
        let fmt = self.spec_format();
        if fmt < 3 {
            Some(fmt)
        } else if self.num >= 14 {
            Some(4u32)
        } else if self.num >= 8 {
            Some(3u32)
        } else {
            None
        }
    }

    /// One hardware tick of this lane: advances the tick counters and runs
    /// the decoder selected by the format bits; lanes that format 3 leaves
    /// silent return zero.
    pub fn do_run(&mut self, nds: &Nds) -> (r: i32)
        requires
            old(self).wf(),
            nds.wf(),
        ensures
            final(self).wf(),
            final(self).num == old(self).num,
            final(self).volume == old(self).volume,
            final(self).volume_shift == old(self).volume_shift,
            final(self).pan == old(self).pan,
            final(self).timer_reload == old(self).timer_reload,
            final(self).big_offset == spec_cap_add(old(self).big_offset as int, 1),
            -0x400_0000 <= r <= 0x400_0000,
            spec_do_run_rel(*old(self), *final(self), r as int, *nds),
            ({
                let pre = SpuChannel {
                    tick: spec_cap_add(old(self).tick as int, 1) as u64,
                    big_offset: final(self).big_offset,
                    ..*old(self)
                };
                match pre.spec_run_type() {
                    None => r == 0 && *final(self) == pre,
                    Some(rt) => {
                        &&& (!pre.spec_runnable(rt) ==> r == 0 && *final(self) == pre)
                        &&& (pre.spec_runnable(rt)
                            ==> r == final(self).spec_adjust_sample(final(self).current_sample)
                                && final(self).tick
                                    == (if pre.key_on { 0int } else { pre.tick as int }))
                    }
                }
            }),
    {
        if self.tick < COUNTER_CAP {
            self.tick = self.tick + 1;
        }
        if self.big_offset < COUNTER_CAP {
            self.big_offset = self.big_offset + 1;
        }
        let c = self.control;
        proof {
            assert((c >> 29) & 0x3 <= 3) by (bit_vector);
        }
        let fmt = (c >> 29) & 0x3;
        if fmt < 3 {
            self.run(fmt, nds)
        } else if self.num >= 14 {
            self.run(4, nds)
        } else if self.num >= 8 {
            self.run(3, nds)
        } else {
            0
        }
    }
}

/// Relational mirror of `do_run`'s contract: `post` is `pre` advanced by
/// one hardware tick with scaled output `r`.
pub open spec fn spec_do_run_rel(pre: SpuChannel, post: SpuChannel, r: int, nds: Nds) -> bool {
    &&& post.wf()
    &&& post.num == pre.num
    &&& post.volume == pre.volume
    &&& post.volume_shift == pre.volume_shift
    &&& post.pan == pre.pan
    &&& post.timer_reload == pre.timer_reload
    &&& post.big_offset == spec_cap_add(pre.big_offset as int, 1)
    &&& -0x400_0000 <= r <= 0x400_0000
    &&& {
        let mid = SpuChannel {
            tick: spec_cap_add(pre.tick as int, 1) as u64,
            big_offset: post.big_offset,
            ..pre
        };
        match mid.spec_run_type() {
            None => r == 0 && post == mid,
            Some(rt) => {
                &&& (!mid.spec_runnable(rt) ==> r == 0 && post == mid)
                &&& (mid.spec_runnable(rt)
                    ==> r == post.spec_adjust_sample(post.current_sample))
            }
        }
    }
}

/// `post` is `pre` advanced by one hardware tick, for some output sample.
pub open spec fn spec_ticked(pre: SpuChannel, post: SpuChannel, nds: Nds) -> bool {
    exists|r: int| spec_do_run_rel(pre, post, r, nds)
}

/// Packing a volume, volume-shift tier and pan into a control word and
/// decoding it back returns the original values, except that the boundary
/// value 127 decodes as 128 for volume and pan.
pub proof fn lemma_control_round_trip(volume: u8, shift_index: u8, pan: u8)
    requires
        volume <= 127,
        shift_index <= 3,
        pan <= 127,
    ensures
        ({
            let word = volume as u32 | (shift_index as u32) << 8 | (pan as u32) << 16;
            &&& spec_ctrl_volume(word) == (if volume == 127 { 128 } else { volume })
            &&& spec_ctrl_pan(word) == (if pan == 127 { 128 } else { pan })
            &&& spec_ctrl_shift(word) == (if shift_index == 0 { 4u8 }
                else if shift_index == 1 { 3u8 }
                else if shift_index == 2 { 2u8 }
                else { 0u8 })
            &&& word & 0xFF7F_837F == word
        }),
{
    let word = volume as u32 | (shift_index as u32) << 8 | (pan as u32) << 16;
    assert(volume <= 127 && shift_index <= 3 && pan <= 127 ==> (
        (word & 0x7F) == volume
        && ((word >> 8) & 0x3) == shift_index
        && ((word >> 16) & 0x7F) == pan
        && word & 0xFF7F_837F == word
    )) by (bit_vector)
        requires word == volume as u32 | (shift_index as u32) << 8 | (pan as u32) << 16;
}

} // verus!
