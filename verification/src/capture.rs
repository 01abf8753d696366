//! A loopback capture unit: streams the mixed output back into memory
//! through a small write FIFO, flushed in 4-word bursts.
use vstd::prelude::*;

verus! {

use crate::nds::Nds;
use crate::nds::MAIN_RAM_REGION_START;
use crate::nds::MAIN_RAM_REGION_END;
use crate::channel::COUNTER_CAP;

/// One capture unit (the hardware has two: left and right).
pub struct SpuCaptureUnit {
    /// Unit index, 0 (left) or 1 (right).
    pub num: usize,
    /// Control byte: bit 7 = running, bit 3 = 8-bit mode, bit 2 = one-shot,
    /// bit 0 = add-enable (stored but never acted on, as on the hardware).
    pub control: u8,
    pub dest_address: usize,
    pub timer_reload: u16,
    pub length: usize,
    /// Fractional sample timer, as on the playback lanes.
    pub timer: u32,
    /// Bytes captured toward `length`.
    pub pos: u64,
    /// Write buffer, 4 words.
    pub fifo_data: Vec<u32>,
    /// Flush position in words, 0 to 3.
    pub fifo_read_pos: usize,
    /// Write position in bytes, 0 to 15.
    pub fifo_write_pos: usize,
    /// Memory offset of the next flushed word.
    pub fifo_write_offset: usize,
    /// Bytes buffered and not yet flushed.
    pub fifo_level: usize,
}

/// Clearing the run bit is idempotent.
proof fn lemma_clear_run_bit_idem(x: u8)
    ensures
        (x & 0x7F) & 0x7F == x & 0x7F,
{
    assert((x & 0x7F) & 0x7F == x & 0x7F) by (bit_vector);
}

/// The write buffer after one byte lands at byte cursor `pos`: the byte is
/// merged into its word, the rest of the buffer stands.
pub open spec fn spec_fifo_store_u8(data: Seq<u32>, pos: int, val: u8) -> Seq<u32> {
    let w = data[pos / 4] as int;
    let b = pos % 4;
    let nw: int = if b == 0 {
        w - w % 0x100 + val
    } else if b == 1 {
        w - (w / 0x100) % 0x100 * 0x100 + val * 0x100
    } else if b == 2 {
        w - (w / 0x1_0000) % 0x100 * 0x1_0000 + val * 0x1_0000
    } else {
        w % 0x100_0000 + val * 0x100_0000
    };
    data.update(pos / 4, nw as u32)
}

/// The write buffer after one little-endian 16-bit sample lands at byte
/// cursor `pos`; a sample straddling a word boundary spills its high byte
/// into the next word.
pub open spec fn spec_fifo_store_u16(data: Seq<u32>, pos: int, val: u16) -> Seq<u32> {
    let w = data[pos / 4] as int;
    let b = pos % 4;
    if b == 0 {
        data.update(pos / 4, (w - w % 0x1_0000 + val) as u32)
    } else if b == 1 {
        data.update(pos / 4, (w - (w / 0x100) % 0x1_0000 * 0x100 + val * 0x100) as u32)
    } else if b == 2 {
        data.update(pos / 4, (w % 0x1_0000 + val * 0x1_0000) as u32)
    } else {
        let d1 = data.update(pos / 4, (w % 0x100_0000 + (val as int % 0x100) * 0x100_0000) as u32);
        let p2 = (pos / 4 + 1) % 4;
        let w2 = d1[p2] as int;
        d1.update(p2, (w2 - w2 % 0x100 + val as int / 0x100) as u32)
    }
}

/// The byte an 8-bit capture stores: the sample's high byte with the sign
/// bit flipped back after the unsigned offset.
pub open spec fn spec_capture_byte(sample: int) -> int {
    let b = (sample + 0x8000) / 0x100;
    if b >= 0x80 { b - 0x80 } else { b + 0x80 }
}

/// The half-word a 16-bit capture stores: the sample in two's complement.
pub open spec fn spec_capture_half(sample: int) -> int {
    if sample >= 0 { sample } else { sample + 0x1_0000 }
}

impl SpuCaptureUnit {
    pub open spec fn wf(self) -> bool {
        &&& self.num < 2
        &&& self.fifo_data.len() == 4
        &&& self.fifo_read_pos < 4
        &&& self.fifo_write_pos < 16
        &&& self.fifo_level <= 16
        &&& self.dest_address <= 0x07FF_FFFC
        &&& self.length <= 0x4_0000
        &&& self.fifo_write_offset < 0x4_0000 + 4
        &&& self.timer < 0x1_0000
        &&& self.pos <= COUNTER_CAP
    }

    pub fn new(num: usize) -> (r: SpuCaptureUnit)
        requires
            num < 2,
        ensures
            r.wf(),
            r.num == num,
            r.control == 0 && r.dest_address == 0 && r.timer_reload == 0 && r.length == 0,
            r.timer == 0 && r.pos == 0,
            r.fifo_read_pos == 0 && r.fifo_write_pos == 0 && r.fifo_write_offset == 0
                && r.fifo_level == 0,
    {
        SpuCaptureUnit {
            num,
            control: 0,
            dest_address: 0,
            timer_reload: 0,
            length: 0,
            timer: 0,
            pos: 0,
            fifo_data: vec![0, 0, 0, 0],
            fifo_read_pos: 0,
            fifo_write_pos: 0,
            fifo_write_offset: 0,
            fifo_level: 0,
        }
    }

    /// Clears every register and cursor.
    pub fn reset(&mut self)
        requires
            old(self).wf(),
        ensures
            final(self).wf(),
            *final(self) == (SpuCaptureUnit {
                control: 0,
                dest_address: 0,
                timer_reload: 0,
                length: 0,
                timer: 0,
                pos: 0,
                fifo_read_pos: 0,
                fifo_write_pos: 0,
                fifo_write_offset: 0,
                fifo_level: 0,
                ..*old(self)
            }),
    {
        proof {
            assert(0u8 & 0x8F == 0 && 0u8 & 0xFE == 0 && 0u8 & 0x80 == 0) by (bit_vector);
        }
        self.set_control(0);
        self.dest_address = 0;
        self.timer_reload = 0;
        self.length = 0;
        self.timer = 0;
        self.pos = 0;
        self.fifo_read_pos = 0;
        self.fifo_write_pos = 0;
        self.fifo_write_offset = 0;
        self.fifo_level = 0;
    }

    /// Control byte after a write: masked to its defined bits, with the
    /// add-enable bit dropped while the unit is stopped.
    pub open spec fn spec_control_after(v: u8) -> u8 {
        let m = v & 0x8F;
        if m & 0x80 == 0 { m & 0xFE } else { m }
    }

    /// Writes the control byte; a rising edge on bit 7 rewinds the capture
    /// cursors and starts the unit.
    pub fn set_control(&mut self, val: u8)
        requires
            old(self).wf(),
        ensures
            final(self).wf(),
            final(self).control == Self::spec_control_after(val),
            *final(self) == (SpuCaptureUnit {
                control: final(self).control,
                timer: final(self).timer,
                pos: final(self).pos,
                fifo_read_pos: final(self).fifo_read_pos,
                fifo_write_pos: final(self).fifo_write_pos,
                fifo_write_offset: final(self).fifo_write_offset,
                fifo_level: final(self).fifo_level,
                ..*old(self)
            }),
            (val & 0x80 != 0 && old(self).control & 0x80 == 0) ==> (
                final(self).timer == old(self).timer_reload
                && final(self).pos == 0
                && final(self).fifo_read_pos == 0
                && final(self).fifo_write_pos == 0
                && final(self).fifo_write_offset == 0
                && final(self).fifo_level == 0
            ),
            !(val & 0x80 != 0 && old(self).control & 0x80 == 0) ==> (
                final(self).timer == old(self).timer
                && final(self).pos == old(self).pos
                && final(self).fifo_read_pos == old(self).fifo_read_pos
                && final(self).fifo_write_pos == old(self).fifo_write_pos
                && final(self).fifo_write_offset == old(self).fifo_write_offset
                && final(self).fifo_level == old(self).fifo_level
            ),
    {
        if (val & 0x80) != 0 && (self.control & 0x80) == 0 {
            self.start();
        }
        let mut v = val & 0x8F;
        if (v & 0x80) == 0 {
            v = v & 0xFE;
        }
        proof {
            assert(val & 0x8F == Self::spec_control_after(val)
                || (val & 0x8F) & 0xFE == Self::spec_control_after(val)) by (bit_vector);
            assert(((val & 0x8F) & 0x80 == 0) == ((val & 0x8F) & 0x80 == 0)) by (bit_vector);
        }
        self.control = v;
    }

    /// Destination address register: masked to the low 27 bits, word aligned.
    pub fn set_dest_address(&mut self, val: u32)
        requires
            old(self).wf(),
        ensures
            final(self).wf(),
            final(self).dest_address == val & 0x07FF_FFFC,
            *final(self) == (SpuCaptureUnit {
                dest_address: final(self).dest_address, ..*old(self)
            }),
    {
        proof {
            assert(val & 0x07FF_FFFC <= 0x07FF_FFFC) by (bit_vector);
        }
        self.dest_address = (val & 0x07FF_FFFC) as usize;
    }

    /// Timer-reload register: low 16 bits.
    pub fn set_timer_reload(&mut self, val: u32)
        requires
            old(self).wf(),
        ensures
            final(self).wf(),
            final(self).timer_reload == val & 0xFFFF,
            *final(self) == (SpuCaptureUnit {
                timer_reload: final(self).timer_reload, ..*old(self)
            }),
    {
        proof {
            assert(val & 0xFFFF <= 0xFFFF) by (bit_vector);
        }
        self.timer_reload = (val & 0xFFFF) as u16;
    }

    /// Length register, in words (shifted to bytes); zero is promoted to
    /// one word.
    pub fn set_length(&mut self, val: u32)
        requires
            old(self).wf(),
            val <= 0xFFFF,
        ensures
            final(self).wf(),
            final(self).length == if val == 0 { 4int } else { (val * 4) as int },
            *final(self) == (SpuCaptureUnit { length: final(self).length, ..*old(self) }),
    {
        self.length = (val as usize) * 4;
        if self.length == 0 {
            self.length = 4;
        }
    }

    /// Rewinds the capture cursors and loads the sample timer.
    pub fn start(&mut self)
        requires
            old(self).wf(),
        ensures
            final(self).wf(),
            *final(self) == (SpuCaptureUnit {
                timer: old(self).timer_reload as u32,
                pos: 0,
                fifo_read_pos: 0,
                fifo_write_pos: 0,
                fifo_write_offset: 0,
                fifo_level: 0,
                ..*old(self)
            }),
    {
        self.timer = self.timer_reload as u32;
        self.pos = 0;
        self.fifo_read_pos = 0;
        self.fifo_write_pos = 0;
        self.fifo_write_offset = 0;
        self.fifo_level = 0;
    }

    /// Flushes up to four buffered words to memory at the destination
    /// address, wrapping the write offset at `length`.  Words aimed outside
    /// the main-RAM window are dropped, and an under-filled buffer flushes
    /// stale words with the level held at zero, as the burst engine's
    /// defined under-run behaviour.
    pub fn fifo_flush_data(&mut self, nds: &mut Nds)
        requires
            old(self).wf(),
            old(nds).wf(),
        ensures
            final(self).wf(),
            final(nds).wf(),
            *final(self) == (SpuCaptureUnit {
                fifo_read_pos: final(self).fifo_read_pos,
                fifo_write_offset: final(self).fifo_write_offset,
                fifo_level: final(self).fifo_level,
                ..*old(self)
            }),
            final(self).fifo_level <= if old(self).fifo_level >= 4 {
                old(self).fifo_level - 4
            } else {
                0
            },
    {
        let mut i: usize = 0;
        while i < 4
            invariant
                self.wf(),
                nds.wf(),
                i <= 4,
                *self == (SpuCaptureUnit {
                    fifo_read_pos: self.fifo_read_pos,
                    fifo_write_offset: self.fifo_write_offset,
                    fifo_level: self.fifo_level,
                    ..*old(self)
                }),
                i == 0 ==> self.fifo_level == old(self).fifo_level,
                i >= 1 ==> self.fifo_level <= (if old(self).fifo_level >= 4 {
                    old(self).fifo_level - 4
                } else {
                    0
                }),
            decreases 4 - i,
        {
            let a = self.dest_address + self.fifo_write_offset;
            if MAIN_RAM_REGION_START <= a && a < MAIN_RAM_REGION_END {
                nds.arm7_write32(a, self.fifo_data[self.fifo_read_pos]);
            }

            self.fifo_read_pos = (self.fifo_read_pos + 1) % 4;
            self.fifo_level = if self.fifo_level >= 4 { self.fifo_level - 4 } else { 0 };

            self.fifo_write_offset = self.fifo_write_offset + 4;
            if self.fifo_write_offset >= self.length {
                self.fifo_write_offset = 0;
                i = 4;
            } else {
                i = i + 1;
            }
        }
    }

    /// Buffers one byte at the FIFO write cursor, flushing when a full
    /// burst has accumulated.
    pub fn fifo_write_u8(&mut self, nds: &mut Nds, val: u8)
        requires
            old(self).wf(),
            old(nds).wf(),
        ensures
            final(self).wf(),
            final(nds).wf(),
            *final(self) == (SpuCaptureUnit {
                fifo_data: final(self).fifo_data,
                fifo_read_pos: final(self).fifo_read_pos,
                fifo_write_pos: ((old(self).fifo_write_pos + 1) % 16) as usize,
                fifo_write_offset: final(self).fifo_write_offset,
                fifo_level: final(self).fifo_level,
                ..*old(self)
            }),
            final(self).fifo_level < 16,
            final(self).fifo_data@ == spec_fifo_store_u8(old(self).fifo_data@,
                old(self).fifo_write_pos as int, val),
    {
        let w = self.fifo_data[self.fifo_write_pos / 4];
        let b = self.fifo_write_pos % 4;
        let nw: u32 = if b == 0 {
            w - w % 0x100 + val as u32
        } else if b == 1 {
            w - (w / 0x100) % 0x100 * 0x100 + val as u32 * 0x100
        } else if b == 2 {
            w - (w / 0x1_0000) % 0x100 * 0x1_0000 + val as u32 * 0x1_0000
        } else {
            w % 0x100_0000 + val as u32 * 0x100_0000
        };
        proof {
            assert(w - (w / 0x100) % 0x100 * 0x100 + (val as u32) * 0x100 <= u32::MAX)
                by (nonlinear_arith);
            assert(w - (w / 0x1_0000) % 0x100 * 0x1_0000 + (val as u32) * 0x1_0000 <= u32::MAX)
                by (nonlinear_arith);
        }
        let wp = self.fifo_write_pos / 4;
        self.fifo_data.set(wp, nw);
        self.fifo_write_pos = (self.fifo_write_pos + 1) % 16;
        self.fifo_level = if self.fifo_level < 16 { self.fifo_level + 1 } else { 16 };
        if self.fifo_level >= 16 {
            self.fifo_flush_data(nds);
        }
    }

    /// Buffers one little-endian 16-bit sample, flushing when a full burst
    /// has accumulated.
    pub fn fifo_write_u16(&mut self, nds: &mut Nds, val: u16)
        requires
            old(self).wf(),
            old(nds).wf(),
        ensures
            final(self).wf(),
            final(nds).wf(),
            *final(self) == (SpuCaptureUnit {
                fifo_data: final(self).fifo_data,
                fifo_read_pos: final(self).fifo_read_pos,
                fifo_write_pos: ((old(self).fifo_write_pos + 2) % 16) as usize,
                fifo_write_offset: final(self).fifo_write_offset,
                fifo_level: final(self).fifo_level,
                ..*old(self)
            }),
            final(self).fifo_level < 16,
            final(self).fifo_data@ == spec_fifo_store_u16(old(self).fifo_data@,
                old(self).fifo_write_pos as int, val),
    {
        let w = self.fifo_data[self.fifo_write_pos / 4];
        let b = self.fifo_write_pos % 4;
        let lo: u32 = (val % 0x100) as u32;
        let hi: u32 = (val / 0x100) as u32;
        let nw: u32 = if b == 0 {
            w - w % 0x1_0000 + val as u32
        } else if b == 1 {
            w - (w / 0x100) % 0x1_0000 * 0x100 + val as u32 * 0x100
        } else if b == 2 {
            w % 0x1_0000 + val as u32 * 0x1_0000
        } else {
            // a write straddling the word boundary keeps only its low byte
            // in this word, as the byte-addressed hardware buffer does
            w % 0x100_0000 + lo * 0x100_0000
        };
        proof {
            assert(w - (w / 0x100) % 0x1_0000 * 0x100 + (val as u32) * 0x100 <= u32::MAX)
                by (nonlinear_arith);
        }
        let wp = self.fifo_write_pos / 4;
        self.fifo_data.set(wp, nw);
        if b == 3 {
            let p2 = (self.fifo_write_pos / 4 + 1) % 4;
            let w2 = self.fifo_data[p2];
            self.fifo_data.set(p2, w2 - w2 % 0x100 + hi);
        }
        self.fifo_write_pos = (self.fifo_write_pos + 2) % 16;
        self.fifo_level = if self.fifo_level < 14 { self.fifo_level + 2 } else { 16 };
        if self.fifo_level >= 16 {
            self.fifo_flush_data(nds);
        }
    }

    /// Captures one mixer tick: per timer overflow, stores the sample
    /// (right-shifted to 8 bits in 8-bit mode), advancing toward `length`,
    /// then stops (one-shot) or wraps (loop).
    pub fn run(&mut self, nds: &mut Nds, sample: i32)
        requires
            old(self).wf(),
            old(nds).wf(),
            -0x8000 <= sample <= 0x7FFF,
        ensures
            final(self).wf(),
            final(nds).wf(),
            final(self).num == old(self).num,
            final(self).dest_address == old(self).dest_address,
            final(self).timer_reload == old(self).timer_reload,
            final(self).length == old(self).length,
            (final(self).control == old(self).control
                || final(self).control == old(self).control & 0x7F),
            // below the overflow point the tick is a pure timer advance
            old(self).timer + 512 < 0x1_0000 ==> (
                *final(self) == (SpuCaptureUnit {
                    timer: (old(self).timer + 512) as u32,
                    ..*old(self)
                })
                && *final(nds) == *old(nds)
            ),
            // a single timer overflow stores exactly one converted sample
            // at the write cursor, reloads the timer, advances the capture
            // position toward `length`, and at the end either clears the
            // run bit (one-shot) or wraps the position (loop)
            ({
                let t1 = old(self).timer + 512;
                let bit8 = old(self).control & 0x08 != 0;
                let step: int = if bit8 { 1 } else { 2 };
                let p1: int = if bit8 {
                    if old(self).pos < COUNTER_CAP { old(self).pos + 1 } else {
                        old(self).pos as int }
                } else {
                    if old(self).pos < COUNTER_CAP - 1 { old(self).pos + 2 } else {
                        old(self).pos as int }
                };
                (t1 >= 0x1_0000 && old(self).timer_reload + (t1 - 0x1_0000) < 0x1_0000)
                    ==> ({
                    &&& final(self).timer == old(self).timer_reload + (t1 - 0x1_0000)
                    &&& final(self).fifo_write_pos
                        == (old(self).fifo_write_pos + step) % 16
                    &&& final(self).fifo_data@ == (if bit8 {
                        spec_fifo_store_u8(old(self).fifo_data@,
                            old(self).fifo_write_pos as int,
                            spec_capture_byte(sample as int) as u8)
                    } else {
                        spec_fifo_store_u16(old(self).fifo_data@,
                            old(self).fifo_write_pos as int,
                            spec_capture_half(sample as int) as u16)
                    })
                    &&& (p1 < old(self).length ==> (
                        final(self).pos == p1
                        && final(self).control == old(self).control
                    ))
                    &&& (p1 >= old(self).length ==> (
                        (old(self).control & 0x04 != 0 ==> (
                            final(self).control == old(self).control & 0x7F
                            && final(self).pos == p1
                        ))
                        && (old(self).control & 0x04 == 0 ==> (
                            final(self).control == old(self).control
                            && final(self).pos == 0
                        ))
                    ))
                })
            }),
    {
        let mut t: u32 = self.timer + 512;
        let ghost mut n: int = 0;

        if (self.control & 0x08) != 0 {
            // 8-bit capture
            while t >= 0x1_0000
                invariant
                    self.wf(),
                    nds.wf(),
                    t <= 0x1_03FF,
                    -0x8000 <= sample <= 0x7FFF,
                    self.num == old(self).num,
                    self.dest_address == old(self).dest_address,
                    self.timer_reload == old(self).timer_reload,
                    self.length == old(self).length,
                    (self.control == old(self).control
                        || self.control == old(self).control & 0x7F),
                    old(self).control & 0x08 != 0,
                    n >= 0,
                    n == 0 ==> (*self == *old(self) && *nds == *old(nds)
                        && t == old(self).timer + 512),
                    n >= 1 ==> old(self).timer + 512 >= 0x1_0000,
                    n == 1 ==> t == old(self).timer_reload
                        + (old(self).timer + 512 - 0x1_0000),
                    n >= 2 ==> old(self).timer_reload
                        + (old(self).timer + 512 - 0x1_0000) >= 0x1_0000,
                    (n == 1 && old(self).timer_reload
                        + (old(self).timer + 512 - 0x1_0000) < 0x1_0000) ==> ({
                        let p1: int = if old(self).pos < COUNTER_CAP {
                            old(self).pos + 1
                        } else {
                            old(self).pos as int
                        };
                        &&& self.fifo_write_pos == (old(self).fifo_write_pos + 1) % 16
                        &&& self.fifo_data@ == spec_fifo_store_u8(old(self).fifo_data@,
                            old(self).fifo_write_pos as int,
                            spec_capture_byte(sample as int) as u8)
                        &&& (p1 < old(self).length ==> (
                            self.pos == p1 && self.control == old(self).control))
                        &&& (p1 >= old(self).length ==> (
                            old(self).control & 0x04 == 0
                            && self.control == old(self).control
                            && self.pos == 0))
                    }),
                decreases t,
            {
                t = self.timer_reload as u32 + (t - 0x1_0000);

                let b = ((sample + 0x8000) / 0x100) as u8;
                let signed_b = if b >= 0x80 { b - 0x80 } else { b + 0x80 };
                self.fifo_write_u8(nds, signed_b);
                if self.pos < COUNTER_CAP {
                    self.pos = self.pos + 1;
                }
                if self.pos >= self.length as u64 {
                    if self.fifo_level >= 4 {
                        self.fifo_flush_data(nds);
                    }
                    if (self.control & 0x04) != 0 {
                        proof {
                            lemma_clear_run_bit_idem(old(self).control);
                        }
                        self.control = self.control & 0x7F;
                        self.timer = t % 0x1_0000;
                        return;
                    } else {
                        self.pos = 0;
                    }
                }
                proof {
                    n = n + 1;
                }
            }
        } else {
            // 16-bit capture
            while t >= 0x1_0000
                invariant
                    self.wf(),
                    nds.wf(),
                    t <= 0x1_03FF,
                    -0x8000 <= sample <= 0x7FFF,
                    self.num == old(self).num,
                    self.dest_address == old(self).dest_address,
                    self.timer_reload == old(self).timer_reload,
                    self.length == old(self).length,
                    (self.control == old(self).control
                        || self.control == old(self).control & 0x7F),
                    old(self).control & 0x08 == 0,
                    n >= 0,
                    n == 0 ==> (*self == *old(self) && *nds == *old(nds)
                        && t == old(self).timer + 512),
                    n >= 1 ==> old(self).timer + 512 >= 0x1_0000,
                    n == 1 ==> t == old(self).timer_reload
                        + (old(self).timer + 512 - 0x1_0000),
                    n >= 2 ==> old(self).timer_reload
                        + (old(self).timer + 512 - 0x1_0000) >= 0x1_0000,
                    (n == 1 && old(self).timer_reload
                        + (old(self).timer + 512 - 0x1_0000) < 0x1_0000) ==> ({
                        let p1: int = if old(self).pos < COUNTER_CAP - 1 {
                            old(self).pos + 2
                        } else {
                            old(self).pos as int
                        };
                        &&& self.fifo_write_pos == (old(self).fifo_write_pos + 2) % 16
                        &&& self.fifo_data@ == spec_fifo_store_u16(old(self).fifo_data@,
                            old(self).fifo_write_pos as int,
                            spec_capture_half(sample as int) as u16)
                        &&& (p1 < old(self).length ==> (
                            self.pos == p1 && self.control == old(self).control))
                        &&& (p1 >= old(self).length ==> (
                            (old(self).control & 0x04 != 0 ==> (
                                self.control == old(self).control & 0x7F
                                && self.pos == p1))
                            && (old(self).control & 0x04 == 0 ==> (
                                self.control == old(self).control
                                && self.pos == 0))
                        ))
                    }),
                decreases t,
            {
                t = self.timer_reload as u32 + (t - 0x1_0000);

                let half: u16 = if sample >= 0 {
                    sample as u16
                } else {
                    (sample + 0x1_0000) as u16
                };
                self.fifo_write_u16(nds, half);
                if self.pos < COUNTER_CAP - 1 {
                    self.pos = self.pos + 2;
                }
                if self.pos >= self.length as u64 {
                    if self.fifo_level >= 4 {
                        self.fifo_flush_data(nds);
                    }
                    if (self.control & 0x04) != 0 {
                        proof {
                            lemma_clear_run_bit_idem(old(self).control);
                        }
                        self.control = self.control & 0x7F;
                    } else {
                        self.pos = 0;
                    }
                }
                proof {
                    n = n + 1;
                }
            }
        }

        self.timer = t;
    }
}

} // verus!
