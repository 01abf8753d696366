//! The sound processing unit: sixteen sample lanes, two capture units, the
//! register write decoder and the per-sample stereo mixdown.
use vstd::prelude::*;

verus! {

use crate::nds::Nds;
use crate::channel::SpuChannel;
use crate::channel::spec_ctrl_volume;
use crate::channel::spec_ctrl_shift;
use crate::channel::spec_ctrl_pan;
use crate::channel::floor_div_i64;
use crate::capture::SpuCaptureUnit;

/// Stereo frames held by each output buffer half.
pub const SPU_OUTPUT_BUFFER_SIZE: usize = 4096;

/// Output word depth: the original consoles degrade to 10 significant bits.
#[allow(non_camel_case_types)]
pub enum AudioBitDepth {
    _10bit,
    _16bit,
}

/// The emulated sound unit, owning its lanes, capture units and the sample
/// memory they stream from.
pub struct Spu {
    pub nds: Nds,
    pub bit_depth: AudioBitDepth,
    pub output_back_buffer: Vec<i16>,
    pub output_back_buffer_write_position: usize,
    pub output_front_buffer: Vec<i16>,
    pub output_front_buffer_write_position: usize,
    pub output_front_buffer_read_position: usize,
    /// Master control register.
    pub control: u16,
    /// Decoded master volume, 0 to 128.
    pub master_volume: u8,
    /// Output bias, 10 bits.
    pub bias: u16,
    pub apply_bias: bool,
    pub channels: Vec<SpuChannel>,
    pub capture: Vec<SpuCaptureUnit>,
}

/// The final output stage: master volume, 8-bit downshift, optional bias,
/// saturation to the signed 16-bit range and optional 10-bit degradation,
/// then the half-scale store.
pub open spec fn spec_finalize(acc: int, master_volume: u8, bias: u16, apply_bias: bool,
    degrade: bool) -> i16
{
    let v0 = (acc * master_volume) / 128;
    let v1 = v0 / 256;
    let v2 = if apply_bias { v1 + bias * 64 - 0x8000 } else { v1 };
    let v3 = if v2 < -0x8000 { -0x8000 } else if v2 > 0x7FFF { 0x7FFF } else { v2 };
    let v4 = if degrade { v3 - (v3 % 64) } else { v3 };
    (v4 / 2) as i16
}

/// Clamp of a mixer accumulator to the signed 16-bit range after the
/// capture downshift.
pub open spec fn spec_capture_clamp(acc: int) -> int {
    let v = acc / 256;
    if v < -0x8000 { -0x8000 } else if v > 0x7FFF { 0x7FFF } else { v }
}

impl Spu {
    pub open spec fn wf(self) -> bool {
        &&& self.nds.wf()
        &&& self.channels.len() == 16
        &&& (forall|i: int| 0 <= i < 16 ==> (#[trigger] self.channels[i]).wf())
        &&& (forall|i: int| 0 <= i < 16 ==> (#[trigger] self.channels[i]).num == i)
        &&& self.capture.len() == 2
        &&& self.capture[0].wf() && self.capture[0].num == 0
        &&& self.capture[1].wf() && self.capture[1].num == 1
        &&& self.master_volume <= 128
        &&& self.bias <= 0x3FF
        &&& self.output_back_buffer.len() == 2 * SPU_OUTPUT_BUFFER_SIZE
        &&& self.output_front_buffer.len() == 2 * SPU_OUTPUT_BUFFER_SIZE
        &&& self.output_back_buffer_write_position <= 2 * SPU_OUTPUT_BUFFER_SIZE
        &&& self.output_back_buffer_write_position % 2 == 0
        &&& self.output_front_buffer_write_position < 2 * SPU_OUTPUT_BUFFER_SIZE
        &&& self.output_front_buffer_read_position < 2 * SPU_OUTPUT_BUFFER_SIZE
        &&& self.output_front_buffer_write_position % 2 == 0
        &&& self.output_front_buffer_read_position % 2 == 0
    }

    /// Builds a powered-down unit around the given sample memory.
    pub fn new(nds: Nds, depth: AudioBitDepth) -> (r: Spu)
        requires
            nds.wf(),
        ensures
            r.wf(),
            r.nds == nds,
            r.control == 0 && r.master_volume == 0 && r.bias == 0 && r.apply_bias == false,
            forall|i: int| 0 <= i < 16 ==> (#[trigger] r.channels[i]).control == 0,
            r.output_back_buffer_write_position == 0,
            r.output_front_buffer_write_position == 0,
            r.output_front_buffer_read_position == 0,
    {
        let mut channels: Vec<SpuChannel> = Vec::new();
        let mut i: usize = 0;
        while i < 16
            invariant
                i <= 16,
                channels.len() == i,
                forall|k: int| 0 <= k < i ==> (#[trigger] channels[k]).wf(),
                forall|k: int| 0 <= k < i ==> (#[trigger] channels[k]).num == k,
                forall|k: int| 0 <= k < i ==> (#[trigger] channels[k]).control == 0,
            decreases 16 - i,
        {
            channels.push(SpuChannel::new(i));
            i = i + 1;
        }
        let mut capture: Vec<SpuCaptureUnit> = Vec::new();
        capture.push(SpuCaptureUnit::new(0));
        capture.push(SpuCaptureUnit::new(1));

        let mut back: Vec<i16> = Vec::new();
        let mut j: usize = 0;
        while j < 2 * SPU_OUTPUT_BUFFER_SIZE
            invariant
                j <= 2 * SPU_OUTPUT_BUFFER_SIZE,
                back.len() == j,
            decreases 2 * SPU_OUTPUT_BUFFER_SIZE - j,
        {
            back.push(0);
            j = j + 1;
        }
        let mut front: Vec<i16> = Vec::new();
        let mut j2: usize = 0;
        while j2 < 2 * SPU_OUTPUT_BUFFER_SIZE
            invariant
                j2 <= 2 * SPU_OUTPUT_BUFFER_SIZE,
                front.len() == j2,
            decreases 2 * SPU_OUTPUT_BUFFER_SIZE - j2,
        {
            front.push(0);
            j2 = j2 + 1;
        }

        Spu {
            nds,
            bit_depth: depth,
            output_back_buffer: back,
            output_back_buffer_write_position: 0,
            output_front_buffer: front,
            output_front_buffer_write_position: 0,
            output_front_buffer_read_position: 0,
            control: 0,
            master_volume: 0,
            bias: 0,
            apply_bias: false,
            channels,
            capture,
        }
    }

    /// Full reset: clears the output buffers, the master registers, every
    /// lane and both capture units.
    pub fn reset(&mut self)
        requires
            old(self).wf(),
        ensures
            final(self).wf(),
            final(self).control == 0,
            final(self).master_volume == 0,
            final(self).bias == 0,
            final(self).output_front_buffer_read_position == 0,
            final(self).output_front_buffer_write_position == 0,
            forall|i: int| 0 <= i < 16 ==> (#[trigger] final(self).channels[i]).control == 0,
    {
        self.init_output();

        self.control = 0;
        self.master_volume = 0;
        self.bias = 0;

        let mut i: usize = 0;
        while i < 16
            invariant
                self.wf(),
                i <= 16,
                self.control == 0 && self.master_volume == 0 && self.bias == 0,
                self.output_front_buffer_read_position == 0,
                self.output_front_buffer_write_position == 0,
                forall|k: int| 0 <= k < i ==> (#[trigger] self.channels[k]).control == 0,
            decreases 16 - i,
        {
            let ch = &mut self.channels[i];
            ch.reset();
            proof {
                assert(0u32 & 0xFF7F_837F == 0) by (bit_vector);
            }
            i = i + 1;
        }

        let c0 = &mut self.capture[0];
        c0.reset();
        let c1 = &mut self.capture[1];
        c1.reset();
    }

    /// Rewinds both output buffers.
    pub fn stop(&mut self)
        requires
            old(self).wf(),
        ensures
            final(self).wf(),
            final(self).output_back_buffer_write_position == 0,
            final(self).output_front_buffer_read_position == 0,
            final(self).output_front_buffer_write_position == 0,
    {
        self.output_back_buffer_write_position = 0;
        self.output_front_buffer_read_position = 0;
        self.output_front_buffer_write_position = 0;
    }

    /// Zeroes both output buffers and rewinds their cursors.
    pub fn init_output(&mut self)
        requires
            old(self).wf(),
        ensures
            final(self).wf(),
            final(self).output_front_buffer_read_position == 0,
            final(self).output_front_buffer_write_position == 0,
            forall|k: int| 0 <= k < final(self).output_front_buffer.len()
                ==> final(self).output_front_buffer[k] == 0,
            *final(self) == (Spu {
                output_back_buffer: final(self).output_back_buffer,
                output_front_buffer: final(self).output_front_buffer,
                output_front_buffer_read_position: 0,
                output_front_buffer_write_position: 0,
                ..*old(self)
            }),
    {
        let mut k: usize = 0;
        while k < 2 * SPU_OUTPUT_BUFFER_SIZE
            invariant
                k <= 2 * SPU_OUTPUT_BUFFER_SIZE,
                self.output_back_buffer.len() == 2 * SPU_OUTPUT_BUFFER_SIZE,
                *self == (Spu { output_back_buffer: self.output_back_buffer, ..*old(self) }),
            decreases 2 * SPU_OUTPUT_BUFFER_SIZE - k,
        {
            self.output_back_buffer.set(k, 0);
            k = k + 1;
        }
        let mut k2: usize = 0;
        while k2 < 2 * SPU_OUTPUT_BUFFER_SIZE
            invariant
                k2 <= 2 * SPU_OUTPUT_BUFFER_SIZE,
                self.output_front_buffer.len() == 2 * SPU_OUTPUT_BUFFER_SIZE,
                self.output_back_buffer.len() == 2 * SPU_OUTPUT_BUFFER_SIZE,
                forall|k3: int| 0 <= k3 < k2 ==> self.output_front_buffer[k3] == 0,
                *self == (Spu {
                    output_back_buffer: self.output_back_buffer,
                    output_front_buffer: self.output_front_buffer,
                    ..*old(self)
                }),
            decreases 2 * SPU_OUTPUT_BUFFER_SIZE - k2,
        {
            self.output_front_buffer.set(k2, 0);
            k2 = k2 + 1;
        }
        self.output_front_buffer_read_position = 0;
        self.output_front_buffer_write_position = 0;
    }

    /// Copies the back buffer's pending frames into the front ring,
    /// nudging the read cursor forward when the ring fills.
    pub fn transfer_output(&mut self)
        requires
            old(self).wf(),
        ensures
            final(self).wf(),
            final(self).output_back_buffer_write_position == 0,
    {
        let mut i: usize = 0;
        while i + 1 < self.output_back_buffer_write_position
            invariant
                self.wf(),
                i % 2 == 0,
                self.output_back_buffer == old(self).output_back_buffer,
                self.output_back_buffer_write_position
                    == old(self).output_back_buffer_write_position,
            decreases self.output_back_buffer_write_position - i,
        {
            let a = self.output_back_buffer[i];
            let b = self.output_back_buffer[i + 1];
            let w = self.output_front_buffer_write_position;
            self.output_front_buffer.set(w, a);
            self.output_front_buffer.set(w + 1, b);

            self.output_front_buffer_write_position =
                if w + 2 >= SPU_OUTPUT_BUFFER_SIZE * 2 { 0 } else { w + 2 };
            if self.output_front_buffer_write_position == self.output_front_buffer_read_position {
                let rp = self.output_front_buffer_read_position;
                self.output_front_buffer_read_position =
                    if rp + 2 >= SPU_OUTPUT_BUFFER_SIZE * 2 { 0 } else { rp + 2 };
            }
            i = i + 2;
        }

        self.output_back_buffer_write_position = 0;
    }

    /// Moves the read cursor a full buffer behind the write cursor.
    pub fn trim_output(&mut self)
        requires
            old(self).wf(),
        ensures
            final(self).wf(),
            final(self).output_front_buffer_read_position
                == (old(self).output_front_buffer_write_position + SPU_OUTPUT_BUFFER_SIZE)
                    % (2 * SPU_OUTPUT_BUFFER_SIZE),
            *final(self) == (Spu {
                output_front_buffer_read_position: final(self).output_front_buffer_read_position,
                ..*old(self)
            }),
    {
        // adding one buffer length modulo the ring is the same as
        // subtracting one, without the underflow
        let read_pos = (self.output_front_buffer_write_position + SPU_OUTPUT_BUFFER_SIZE)
            % (2 * SPU_OUTPUT_BUFFER_SIZE);
        self.output_front_buffer_read_position = read_pos;
    }

    /// Empties the front ring.
    pub fn drain_output(&mut self)
        requires
            old(self).wf(),
        ensures
            final(self).wf(),
            final(self).output_front_buffer_write_position == 0,
            final(self).output_front_buffer_read_position == 0,
            *final(self) == (Spu {
                output_front_buffer_read_position: 0,
                output_front_buffer_write_position: 0,
                ..*old(self)
            }),
    {
        self.output_front_buffer_write_position = 0;
        self.output_front_buffer_read_position = 0;
    }

    /// Number of stereo frames waiting in the front ring.
    pub fn get_output_size(&self) -> (r: usize)
        requires
            self.wf(),
        ensures
            r == (if self.output_front_buffer_write_position
                >= self.output_front_buffer_read_position {
                (self.output_front_buffer_write_position
                    - self.output_front_buffer_read_position) / 2
            } else {
                (2 * SPU_OUTPUT_BUFFER_SIZE - self.output_front_buffer_read_position
                    + self.output_front_buffer_write_position) / 2
            }),
    {
        let ret = if self.output_front_buffer_write_position
            >= self.output_front_buffer_read_position {
            self.output_front_buffer_write_position - self.output_front_buffer_read_position
        } else {
            SPU_OUTPUT_BUFFER_SIZE * 2 - self.output_front_buffer_read_position
                + self.output_front_buffer_write_position
        };
        ret / 2
    }

    /// Drains up to `samples` stereo frames from the front ring; an empty
    /// ring yields an empty vector.
    pub fn read_output(&mut self, samples: usize) -> (data: Vec<i16>)
        requires
            old(self).wf(),
            samples <= SPU_OUTPUT_BUFFER_SIZE,
        ensures
            final(self).wf(),
            data.len() % 2 == 0,
            data.len() <= 2 * samples,
    {
        let mut data: Vec<i16> = Vec::new();

        if self.output_front_buffer_read_position == self.output_front_buffer_write_position {
            return data;
        }

        let mut n: usize = 0;
        while n < samples
            invariant
                self.wf(),
                n <= samples,
                data.len() == 2 * n,
            decreases samples - n,
        {
            let rp = self.output_front_buffer_read_position;
            data.push(self.output_front_buffer[rp]);
            data.push(self.output_front_buffer[rp + 1]);

            self.output_front_buffer_read_position =
                if rp + 2 >= 2 * SPU_OUTPUT_BUFFER_SIZE { 0 } else { rp + 2 };
            n = n + 1;

            if self.output_front_buffer_write_position
                == self.output_front_buffer_read_position {
                return data;
            }
        }

        data
    }
}

/// Volume downshift encoding: volumes above 127 are scaled into range by
/// successive shifts, selecting the matching volume-shift tier.
pub open spec fn spec_downshift(volume: int) -> (int, int) {
    if volume > 2047 {
        (volume / 16, 0)
    } else if volume > 1023 {
        (volume / 16, 0)
    } else if volume > 511 {
        (volume / 8, 1)
    } else if volume > 127 {
        (volume / 4, 2)
    } else {
        (volume, 3)
    }
}

/// The volume field a lane decodes after the engine writes level `v`
/// through the iterative down-shift encoding (127 promotes to 128).
pub open spec fn spec_written_volume(v: int) -> int {
    let enc = spec_downshift(v).0;
    if enc == 127 { 128 } else { enc }
}

/// The volume-shift field a lane decodes after the engine writes level
/// `v`: the tier table {4, 3, 2, 0} at the chosen down-shift index.
pub open spec fn spec_written_shift(v: int) -> int {
    let ix = spec_downshift(v).1;
    if ix == 0 { 4 } else if ix == 1 { 3 } else if ix == 2 { 2 } else { 0 }
}

/// The pan field a lane decodes after the engine writes pan byte `ap`:
/// the low seven bits, with 127 promoted to 128.
pub open spec fn spec_pan_field(ap: int) -> int {
    let p = ap % 128;
    if p == 127 { 128 } else { p }
}

impl Spu {
    /// Applies `f` to channel `i`'s raw control register with the given
    /// mask-and-merge, decoding the result.
    pub fn set_channel_volume(&mut self, channel: usize, volume: u32)
        requires
            old(self).wf(),
            channel < 16,
            volume < 2048,
        ensures
            final(self).wf(),
            final(self).channels.len() == 16,
            forall|k: int| 0 <= k < 16 && k != channel
                ==> final(self).channels[k] == old(self).channels[k],
            ({
                let dv = spec_downshift(volume as int);
                let c = (old(self).channels[channel as int].control & 0xFFFF_F000)
                    | (dv.0 as u32) | ((dv.1 as u32) << 8);
                &&& final(self).channels[channel as int].control == c & 0xFF7F_837F
                &&& final(self).channels[channel as int].volume == spec_ctrl_volume(c & 0xFF7F_837F)
                &&& final(self).channels[channel as int].volume_shift
                    == spec_ctrl_shift(c & 0xFF7F_837F)
            }),
            final(self).channels[channel as int].volume == spec_written_volume(volume as int),
            final(self).channels[channel as int].volume_shift
                == spec_written_shift(volume as int),
            final(self).channels[channel as int].control >> 24
                == old(self).channels[channel as int].control >> 24,
            final(self).channels[channel as int].volume
                == spec_ctrl_volume(final(self).channels[channel as int].control),
            final(self).channels[channel as int].volume_shift
                == spec_ctrl_shift(final(self).channels[channel as int].control),
            final(self).channels[channel as int].pan
                == spec_ctrl_pan(final(self).channels[channel as int].control),
            final(self).channels[channel as int].pan
                == spec_ctrl_pan(old(self).channels[channel as int].control),
            final(self).channels[channel as int] == (SpuChannel {
                control: final(self).channels[channel as int].control,
                volume: final(self).channels[channel as int].volume,
                volume_shift: final(self).channels[channel as int].volume_shift,
                pan: final(self).channels[channel as int].pan,
                ..old(self).channels[channel as int]
            }),
            *final(self) == (Spu { channels: final(self).channels, ..*old(self) }),
    {
        let mut v = volume;
        let mut volume_shift_index: u32 = 3;
        if v > 127 {
            v = v / 4;
            volume_shift_index = volume_shift_index - 1;
        }
        if v > 127 {
            v = v / 2;
            volume_shift_index = volume_shift_index - 1;
        }
        if v > 127 {
            v = v / 2;
            volume_shift_index = volume_shift_index - 1;
        }
        let control = self.channels[channel].control;
        let merged = (control & 0xFFFF_F000) | v | (volume_shift_index << 8);
        proof {
            let dv = spec_downshift(volume as int);
            assert(volume < 2048 ==> (
                (volume > 511 ==> volume / 4 / 2 == volume / 8)
                && (volume > 1023 ==> volume / 4 / 2 / 2 == volume / 16)
            )) by (nonlinear_arith);
            let m = (control & 0xFFFF_F000) | v | (volume_shift_index << 8);
            assert(m & 0xFF7F_837F & 0x7F == v
                && ((m & 0xFF7F_837F) >> 8) & 0x3 == volume_shift_index
                && ((m & 0xFF7F_837F) >> 16) & 0x7F == (control >> 16) & 0x7F
                && (m & 0xFF7F_837F) >> 24 == control >> 24
                && (m & 0x8000_0000 == 0) == (control & 0x8000_0000 == 0)) by (bit_vector)
                requires
                    m == (control & 0xFFFF_F000) | v | (volume_shift_index << 8),
                    v <= 127,
                    volume_shift_index <= 3;
        }
        let ch = &mut self.channels[channel];
        ch.set_control(merged);
    }

    /// Scales `volume` by a Q16 multiplier, then encodes it on the lane.
    pub fn set_adjusted_channel_volume(&mut self, channel: usize, volume: u32,
        multiplier_q16: u32)
        requires
            old(self).wf(),
            channel < 16,
            volume < 2048,
            multiplier_q16 <= 0x1_0000,
        ensures
            final(self).wf(),
            forall|k: int| 0 <= k < 16 && k != channel
                ==> final(self).channels[k] == old(self).channels[k],
            ({
                let scaled = (volume * multiplier_q16) / 0x1_0000;
                let dv = spec_downshift(scaled);
                let c = (old(self).channels[channel as int].control & 0xFFFF_F000)
                    | (dv.0 as u32) | ((dv.1 as u32) << 8);
                &&& final(self).channels[channel as int].control == c & 0xFF7F_837F
                &&& final(self).channels[channel as int].volume == spec_ctrl_volume(c & 0xFF7F_837F)
            }),
            final(self).channels[channel as int].volume
                == spec_written_volume((volume * multiplier_q16) / 0x1_0000),
            final(self).channels[channel as int].volume_shift
                == spec_written_shift((volume * multiplier_q16) / 0x1_0000),
            final(self).channels[channel as int].control >> 24
                == old(self).channels[channel as int].control >> 24,
            final(self).channels[channel as int].volume
                == spec_ctrl_volume(final(self).channels[channel as int].control),
            final(self).channels[channel as int].volume_shift
                == spec_ctrl_shift(final(self).channels[channel as int].control),
            final(self).channels[channel as int].pan
                == spec_ctrl_pan(final(self).channels[channel as int].control),
            final(self).channels[channel as int].pan
                == spec_ctrl_pan(old(self).channels[channel as int].control),
            final(self).channels[channel as int] == (SpuChannel {
                control: final(self).channels[channel as int].control,
                volume: final(self).channels[channel as int].volume,
                volume_shift: final(self).channels[channel as int].volume_shift,
                pan: final(self).channels[channel as int].pan,
                ..old(self).channels[channel as int]
            }),
            *final(self) == (Spu { channels: final(self).channels, ..*old(self) }),
    {
        proof {
            assert((volume as int) * (multiplier_q16 as int) / 0x1_0000 < 2048)
                by (nonlinear_arith)
                requires volume < 2048 && 0 <= multiplier_q16 <= 0x1_0000;
            assert((volume as int) * (multiplier_q16 as int) <= 2047 * 0x1_0000)
                by (nonlinear_arith)
                requires volume < 2048 && 0 <= multiplier_q16 <= 0x1_0000;
        }
        let scaled = ((volume as u64 * multiplier_q16 as u64) / 0x1_0000) as u32;
        self.set_channel_volume(channel, scaled);
    }

    /// Writes a lane's pitch register.
    pub fn set_channel_timer_reload(&mut self, channel: usize, timer_reload: u32)
        requires
            old(self).wf(),
            channel < 16,
        ensures
            final(self).wf(),
            forall|k: int| 0 <= k < 16 && k != channel
                ==> final(self).channels[k] == old(self).channels[k],
            final(self).channels[channel as int] == (SpuChannel {
                timer_reload: (timer_reload & 0xFFFF) as u16,
                ..old(self).channels[channel as int]
            }),
            timer_reload <= 0xFFFF ==> final(self).channels[channel as int].timer_reload
                == timer_reload as u16,
            *final(self) == (Spu { channels: final(self).channels, ..*old(self) }),
    {
        proof {
            let t = timer_reload;
            assert(t <= 0xFFFF ==> t & 0xFFFF == t) by (bit_vector);
        }
        let ch = &mut self.channels[channel];
        ch.set_timer_reload(timer_reload);
    }

    /// Writes a lane's loop position directly, in bytes.
    pub fn set_channel_loop_pos(&mut self, channel: usize, loop_pos: usize)
        requires
            old(self).wf(),
            channel < 16,
            loop_pos <= 0x3_FFFC,
        ensures
            final(self).wf(),
            forall|k: int| 0 <= k < 16 && k != channel
                ==> final(self).channels[k] == old(self).channels[k],
            final(self).channels[channel as int] == (SpuChannel {
                loop_pos: loop_pos,
                ..old(self).channels[channel as int]
            }),
            *final(self) == (Spu { channels: final(self).channels, ..*old(self) }),
    {
        let ch = &mut self.channels[channel];
        ch.loop_pos = loop_pos;
    }

    /// Writes a lane's sample length directly, in bytes.
    pub fn set_channel_length(&mut self, channel: usize, length: usize)
        requires
            old(self).wf(),
            channel < 16,
            length <= 0x7F_FFFC,
        ensures
            final(self).wf(),
            forall|k: int| 0 <= k < 16 && k != channel
                ==> final(self).channels[k] == old(self).channels[k],
            final(self).channels[channel as int] == (SpuChannel {
                length: length,
                ..old(self).channels[channel as int]
            }),
            *final(self) == (Spu { channels: final(self).channels, ..*old(self) }),
    {
        let ch = &mut self.channels[channel];
        ch.length = length;
    }

    /// Writes a lane's source address directly.
    pub fn set_channel_src_address(&mut self, channel: usize, src_address: usize)
        requires
            old(self).wf(),
            channel < 16,
            src_address <= 0x07FF_FFFC,
        ensures
            final(self).wf(),
            forall|k: int| 0 <= k < 16 && k != channel
                ==> final(self).channels[k] == old(self).channels[k],
            final(self).channels[channel as int] == (SpuChannel {
                src_address: src_address,
                ..old(self).channels[channel as int]
            }),
            *final(self) == (Spu { channels: final(self).channels, ..*old(self) }),
    {
        let ch = &mut self.channels[channel];
        ch.src_address = src_address;
    }

    /// Writes a lane's pan field.
    pub fn set_channel_pan(&mut self, channel: usize, pan: u8)
        requires
            old(self).wf(),
            channel < 16,
        ensures
            final(self).wf(),
            forall|k: int| 0 <= k < 16 && k != channel
                ==> final(self).channels[k] == old(self).channels[k],
            ({
                let c = (old(self).channels[channel as int].control & 0xFF00_FFFF)
                    | ((pan as u32) << 16);
                &&& final(self).channels[channel as int].control == c & 0xFF7F_837F
                &&& final(self).channels[channel as int].pan == spec_ctrl_pan(c & 0xFF7F_837F)
            }),
            final(self).channels[channel as int].pan == spec_pan_field(pan as int),
            final(self).channels[channel as int].volume
                == spec_ctrl_volume(final(self).channels[channel as int].control),
            final(self).channels[channel as int].volume_shift
                == spec_ctrl_shift(final(self).channels[channel as int].control),
            final(self).channels[channel as int].pan
                == spec_ctrl_pan(final(self).channels[channel as int].control),
            final(self).channels[channel as int].volume
                == spec_ctrl_volume(old(self).channels[channel as int].control),
            final(self).channels[channel as int].volume_shift
                == spec_ctrl_shift(old(self).channels[channel as int].control),
            final(self).channels[channel as int] == (SpuChannel {
                control: final(self).channels[channel as int].control,
                volume: final(self).channels[channel as int].volume,
                volume_shift: final(self).channels[channel as int].volume_shift,
                pan: final(self).channels[channel as int].pan,
                ..old(self).channels[channel as int]
            }),
            *final(self) == (Spu { channels: final(self).channels, ..*old(self) }),
    {
        let control = self.channels[channel].control;
        let merged = (control & 0xFF00_FFFF) | ((pan as u32) << 16);
        proof {
            let m = (control & 0xFF00_FFFF) | ((pan as u32) << 16);
            assert(((m & 0xFF7F_837F) >> 16) & 0x7F == (pan as u32) % 128
                && m & 0xFF7F_837F & 0x7F == control & 0x7F
                && ((m & 0xFF7F_837F) >> 8) & 0x3 == (control >> 8) & 0x3
                && (m & 0x8000_0000 == 0) == (control & 0x8000_0000 == 0)) by (bit_vector)
                requires m == (control & 0xFF00_FFFF) | ((pan as u32) << 16);
        }
        let ch = &mut self.channels[channel];
        ch.set_control(merged);
    }

    /// Writes a lane's pan field after applying a clamped stereo offset.
    pub fn set_adjusted_channel_pan(&mut self, channel: usize, pan: u8, pan_addition: i32)
        requires
            old(self).wf(),
            channel < 16,
            -0x8000 <= pan_addition <= 0x8000,
        ensures
            final(self).wf(),
            forall|k: int| 0 <= k < 16 && k != channel
                ==> final(self).channels[k] == old(self).channels[k],
            ({
                let ap = if pan as int + pan_addition < 0 { 0int }
                    else if pan as int + pan_addition > 255 { 255int }
                    else { pan as int + pan_addition };
                let c = (old(self).channels[channel as int].control & 0xFF00_FFFF)
                    | ((ap as u32) << 16);
                &&& final(self).channels[channel as int].control == c & 0xFF7F_837F
                &&& final(self).channels[channel as int].pan == spec_pan_field(ap)
            }),
            final(self).channels[channel as int].volume
                == spec_ctrl_volume(final(self).channels[channel as int].control),
            final(self).channels[channel as int].volume_shift
                == spec_ctrl_shift(final(self).channels[channel as int].control),
            final(self).channels[channel as int].pan
                == spec_ctrl_pan(final(self).channels[channel as int].control),
            final(self).channels[channel as int].volume
                == spec_ctrl_volume(old(self).channels[channel as int].control),
            final(self).channels[channel as int].volume_shift
                == spec_ctrl_shift(old(self).channels[channel as int].control),
            final(self).channels[channel as int] == (SpuChannel {
                control: final(self).channels[channel as int].control,
                volume: final(self).channels[channel as int].volume,
                volume_shift: final(self).channels[channel as int].volume_shift,
                pan: final(self).channels[channel as int].pan,
                ..old(self).channels[channel as int]
            }),
            *final(self) == (Spu { channels: final(self).channels, ..*old(self) }),
    {
        let mut a: i32 = pan as i32 + pan_addition;
        if a < 0 {
            a = 0;
        }
        if a > 255 {
            a = 255;
        }
        self.set_channel_pan(channel, a as u8);
    }

    /// Keys the lane on in sampled-note mode: the top control byte selects
    /// the ADPCM format with the repeat bits of a looping or one-shot
    /// sample, leaving volume, shift and pan as they stand.
    pub fn channel_play_note(&mut self, channel: usize, is_repeating: bool)
        requires
            old(self).wf(),
            channel < 16,
        ensures
            final(self).wf(),
            forall|k: int| 0 <= k < 16 && k != channel
                ==> final(self).channels[k] == old(self).channels[k],
            final(self).channels[channel as int].key_on == true,
            ({
                let high: u32 = if is_repeating { 200u32 } else { 208u32 };
                let c = (old(self).channels[channel as int].control & 0x00FF_FFFF) & 0x00FF_FFFF
                    | high << 24;
                &&& final(self).channels[channel as int].control == c & 0xFF7F_837F
                &&& final(self).channels[channel as int].control >> 24 == high
            }),
            final(self).channels[channel as int].volume
                == spec_ctrl_volume(final(self).channels[channel as int].control),
            final(self).channels[channel as int].volume_shift
                == spec_ctrl_shift(final(self).channels[channel as int].control),
            final(self).channels[channel as int].pan
                == spec_ctrl_pan(final(self).channels[channel as int].control),
            final(self).channels[channel as int].volume
                == spec_ctrl_volume(old(self).channels[channel as int].control),
            final(self).channels[channel as int].volume_shift
                == spec_ctrl_shift(old(self).channels[channel as int].control),
            final(self).channels[channel as int].pan
                == spec_ctrl_pan(old(self).channels[channel as int].control),
            final(self).channels[channel as int] == (SpuChannel {
                control: final(self).channels[channel as int].control,
                volume: final(self).channels[channel as int].volume,
                volume_shift: final(self).channels[channel as int].volume_shift,
                pan: final(self).channels[channel as int].pan,
                key_on: true,
                ..old(self).channels[channel as int]
            }),
            *final(self) == (Spu { channels: final(self).channels, ..*old(self) }),
    {
        let c0 = self.channels[channel].control;
        let m = c0 & 0x00FF_FFFF;
        {
            let ch = &mut self.channels[channel];
            ch.set_control(m);
        }
        let high: u32 = if is_repeating { 200 } else { 208 };
        let c1 = self.channels[channel].control;
        let m2 = (c1 & 0x00FF_FFFF) | high << 24;
        proof {
            assert(c1 & 0x8000_0000 == 0 && m2 & 0x8000_0000 != 0
                && m2 & 0xFF7F_837F
                    == (((c0 & 0x00FF_FFFF) & 0x00FF_FFFF) | high << 24) & 0xFF7F_837F)
                by (bit_vector)
                requires
                    c1 == (c0 & 0x00FF_FFFF) & 0xFF7F_837F,
                    m2 == (c1 & 0x00FF_FFFF) | high << 24,
                    high == 200 || high == 208;
            assert((m2 & 0xFF7F_837F) >> 24 == high
                && m2 & 0xFF7F_837F & 0x7F == c0 & 0x7F
                && ((m2 & 0xFF7F_837F) >> 8) & 0x3 == (c0 >> 8) & 0x3
                && ((m2 & 0xFF7F_837F) >> 16) & 0x7F == (c0 >> 16) & 0x7F) by (bit_vector)
                requires
                    c1 == (c0 & 0x00FF_FFFF) & 0xFF7F_837F,
                    m2 == (c1 & 0x00FF_FFFF) | high << 24,
                    high == 200 || high == 208;
        }
        let ch = &mut self.channels[channel];
        ch.set_control(m2);
    }

    /// Keys the lane on in programmable-tone mode with the given waveform
    /// table index.
    pub fn channel_play_psg(&mut self, channel: usize, table_index: u8)
        requires
            old(self).wf(),
            channel < 16,
            table_index < 8,
        ensures
            final(self).wf(),
            forall|k: int| 0 <= k < 16 && k != channel
                ==> final(self).channels[k] == old(self).channels[k],
            final(self).channels[channel as int].key_on == true,
            (final(self).channels[channel as int].control >> 24) as int
                == 224 + table_index as int,
            final(self).channels[channel as int].volume
                == spec_ctrl_volume(final(self).channels[channel as int].control),
            final(self).channels[channel as int].volume_shift
                == spec_ctrl_shift(final(self).channels[channel as int].control),
            final(self).channels[channel as int].pan
                == spec_ctrl_pan(final(self).channels[channel as int].control),
            final(self).channels[channel as int].volume
                == spec_ctrl_volume(old(self).channels[channel as int].control),
            final(self).channels[channel as int].volume_shift
                == spec_ctrl_shift(old(self).channels[channel as int].control),
            final(self).channels[channel as int].pan
                == spec_ctrl_pan(old(self).channels[channel as int].control),
            final(self).channels[channel as int] == (SpuChannel {
                control: final(self).channels[channel as int].control,
                volume: final(self).channels[channel as int].volume,
                volume_shift: final(self).channels[channel as int].volume_shift,
                pan: final(self).channels[channel as int].pan,
                key_on: true,
                ..old(self).channels[channel as int]
            }),
            *final(self) == (Spu { channels: final(self).channels, ..*old(self) }),
    {
        let c0 = self.channels[channel].control;
        let m = c0 & 0x00FF_FFFF;
        {
            let ch = &mut self.channels[channel];
            ch.set_control(m);
        }
        let high: u32 = 224 + table_index as u32;
        let c1 = self.channels[channel].control;
        let m2 = (c1 & 0x00FF_FFFF) | high << 24;
        proof {
            assert(c1 & 0x8000_0000 == 0 && m2 & 0x8000_0000 != 0) by (bit_vector)
                requires
                    c1 == (c0 & 0x00FF_FFFF) & 0xFF7F_837F,
                    m2 == (c1 & 0x00FF_FFFF) | high << 24,
                    224 <= high < 232;
            assert((m2 & 0xFF7F_837F) >> 24 == high
                && m2 & 0xFF7F_837F & 0x7F == c0 & 0x7F
                && ((m2 & 0xFF7F_837F) >> 8) & 0x3 == (c0 >> 8) & 0x3
                && ((m2 & 0xFF7F_837F) >> 16) & 0x7F == (c0 >> 16) & 0x7F) by (bit_vector)
                requires
                    c1 == (c0 & 0x00FF_FFFF) & 0xFF7F_837F,
                    m2 == (c1 & 0x00FF_FFFF) | high << 24,
                    224 <= high < 232;
        }
        let ch = &mut self.channels[channel];
        ch.set_control(m2);
    }

    /// Keys the lane on in noise mode.
    pub fn channel_play_noise(&mut self, channel: usize)
        requires
            old(self).wf(),
            channel < 16,
        ensures
            final(self).wf(),
            forall|k: int| 0 <= k < 16 && k != channel
                ==> final(self).channels[k] == old(self).channels[k],
            final(self).channels[channel as int].key_on == true,
            final(self).channels[channel as int].control >> 24 == 224,
            final(self).channels[channel as int].volume
                == spec_ctrl_volume(final(self).channels[channel as int].control),
            final(self).channels[channel as int].volume_shift
                == spec_ctrl_shift(final(self).channels[channel as int].control),
            final(self).channels[channel as int].pan
                == spec_ctrl_pan(final(self).channels[channel as int].control),
            final(self).channels[channel as int].volume
                == spec_ctrl_volume(old(self).channels[channel as int].control),
            final(self).channels[channel as int].volume_shift
                == spec_ctrl_shift(old(self).channels[channel as int].control),
            final(self).channels[channel as int].pan
                == spec_ctrl_pan(old(self).channels[channel as int].control),
            final(self).channels[channel as int] == (SpuChannel {
                control: final(self).channels[channel as int].control,
                volume: final(self).channels[channel as int].volume,
                volume_shift: final(self).channels[channel as int].volume_shift,
                pan: final(self).channels[channel as int].pan,
                key_on: true,
                ..old(self).channels[channel as int]
            }),
            *final(self) == (Spu { channels: final(self).channels, ..*old(self) }),
    {
        let c0 = self.channels[channel].control;
        let m = c0 & 0x00FF_FFFF;
        {
            let ch = &mut self.channels[channel];
            ch.set_control(m);
        }
        let c1 = self.channels[channel].control;
        let m2 = (c1 & 0x00FF_FFFF) | 224u32 << 24;
        proof {
            assert(c1 & 0x8000_0000 == 0 && m2 & 0x8000_0000 != 0) by (bit_vector)
                requires
                    c1 == (c0 & 0x00FF_FFFF) & 0xFF7F_837F,
                    m2 == (c1 & 0x00FF_FFFF) | 224u32 << 24;
            assert((m2 & 0xFF7F_837F) >> 24 == 224
                && m2 & 0xFF7F_837F & 0x7F == c0 & 0x7F
                && ((m2 & 0xFF7F_837F) >> 8) & 0x3 == (c0 >> 8) & 0x3
                && ((m2 & 0xFF7F_837F) >> 16) & 0x7F == (c0 >> 16) & 0x7F) by (bit_vector)
                requires
                    c1 == (c0 & 0x00FF_FFFF) & 0xFF7F_837F,
                    m2 == (c1 & 0x00FF_FFFF) | 224u32 << 24;
        }
        let ch = &mut self.channels[channel];
        ch.set_control(m2);
    }
}

/// Saturates a mixer accumulator, downshifted for capture, to the signed
/// 16-bit range.
pub fn capture_clamp(acc: i32) -> (r: i32)
    requires
        -0x880_0000 <= acc <= 0x880_0000,
    ensures
        r == spec_capture_clamp(acc as int),
        -0x8000 <= r <= 0x7FFF,
{
    let mut val = floor_div_i64(acc as i64, 256) as i32;
    if val < -0x8000 {
        val = -0x8000;
    } else if val > 0x7FFF {
        val = 0x7FFF;
    }
    val
}

/// Applies the final output stage to one accumulator: master volume,
/// downshift, optional bias, saturation, optional 10-bit degradation and
/// the half-scale store.
pub fn finalize_sample(acc: i32, master_volume: u8, bias: u16, apply_bias: bool,
    degrade: bool) -> (r: i16)
    requires
        -0x1100_0000 <= acc <= 0x1100_0000,
        master_volume <= 128,
        bias <= 0x3FF,
    ensures
        r == spec_finalize(acc as int, master_volume, bias, apply_bias, degrade),
{
    proof {
        assert(-0x1100_0000 * 128 <= (acc as int) * (master_volume as int) <= 0x1100_0000 * 128)
            by (nonlinear_arith)
            requires -0x1100_0000 <= acc <= 0x1100_0000 && 0 <= master_volume <= 128;
        assert((acc as int) * (master_volume as int) / 128 <= 0x1100_0000 * 128 / 128
            && -0x1100_0000 * 128 / 128 <= (acc as int) * (master_volume as int) / 128)
            by (nonlinear_arith)
            requires -0x1100_0000 * 128 <= (acc as int) * (master_volume as int)
                <= 0x1100_0000 * 128;
    }
    let scaled: i64 = acc as i64 * master_volume as i64;
    let v0 = floor_div_i64(scaled, 128);
    let v1 = floor_div_i64(v0, 256);
    let v2: i64 = if apply_bias { v1 + bias as i64 * 64 - 0x8000 } else { v1 };
    let v3: i64 = if v2 < -0x8000 { -0x8000 } else if v2 > 0x7FFF { 0x7FFF } else { v2 };
    let v4: i64 = if degrade {
        // clearing the low six bits of a two's-complement value rounds it
        // down to the next multiple of 64
        let rem = v3 - floor_div_i64(v3, 64) * 64;
        proof {
            assert(v3 as int - (v3 as int) / 64 * 64 == (v3 as int) % 64) by (nonlinear_arith);
        }
        v3 - rem
    } else {
        v3
    };
    floor_div_i64(v4, 2) as i16
}

/// One lane's contribution to the left mix accumulator: its sample panned
/// left, with lanes 1 and 3 muted from the main mix when their bypass
/// bits are set.
pub open spec fn spec_left_contrib(sample: int, pan: int, control: u16, i: int) -> int {
    if i == 1 && control & 0x1000 != 0 {
        0
    } else if i == 3 && control & 0x2000 != 0 {
        0
    } else {
        sample * (128 - pan) / 1024
    }
}

/// One lane's contribution to the right mix accumulator.
pub open spec fn spec_right_contrib(sample: int, pan: int, control: u16, i: int) -> int {
    if i == 1 && control & 0x1000 != 0 {
        0
    } else if i == 3 && control & 0x2000 != 0 {
        0
    } else {
        sample * pan / 1024
    }
}

/// The left accumulator over the first `n` lanes.
pub open spec fn spec_mix_left_acc(samples: Seq<int>, chans: Seq<SpuChannel>,
    control: u16, n: int) -> int
    decreases n
{
    if n <= 0 {
        0
    } else {
        spec_mix_left_acc(samples, chans, control, n - 1)
            + spec_left_contrib(samples[n - 1], chans[n - 1].pan as int, control, n - 1)
    }
}

/// The right accumulator over the first `n` lanes.
pub open spec fn spec_mix_right_acc(samples: Seq<int>, chans: Seq<SpuChannel>,
    control: u16, n: int) -> int
    decreases n
{
    if n <= 0 {
        0
    } else {
        spec_mix_right_acc(samples, chans, control, n - 1)
            + spec_right_contrib(samples[n - 1], chans[n - 1].pan as int, control, n - 1)
    }
}

/// The mix accumulators over a prefix ignore samples appended past it.
proof fn lemma_mix_acc_push(samples: Seq<int>, x: int, chans: Seq<SpuChannel>,
    control: u16, n: int)
    requires
        0 <= n <= samples.len(),
    ensures
        spec_mix_left_acc(samples.push(x), chans, control, n)
            == spec_mix_left_acc(samples, chans, control, n),
        spec_mix_right_acc(samples.push(x), chans, control, n)
            == spec_mix_right_acc(samples, chans, control, n),
    decreases n,
{
    if n > 0 {
        lemma_mix_acc_push(samples, x, chans, control, n - 1);
        assert(samples.push(x)[n - 1] == samples[n - 1]);
    }
}

/// The mix accumulators over a prefix read only that prefix of the lanes.
proof fn lemma_mix_acc_chans(samples: Seq<int>, c1: Seq<SpuChannel>,
    c2: Seq<SpuChannel>, control: u16, n: int)
    requires
        forall|k: int| 0 <= k < n ==> c1[k] == c2[k],
    ensures
        spec_mix_left_acc(samples, c1, control, n)
            == spec_mix_left_acc(samples, c2, control, n),
        spec_mix_right_acc(samples, c1, control, n)
            == spec_mix_right_acc(samples, c2, control, n),
    decreases n,
{
    if n > 0 {
        lemma_mix_acc_chans(samples, c1, c2, control, n - 1);
    }
}

/// The surround routing of the left output: the main mix, lane 1 alone,
/// lane 3 alone, or both lanes, panned left.
pub open spec fn spec_left_routed(control: u16, left: int, s1: int, s3: int,
    pan1: int, pan3: int) -> int
{
    let m = control & 0x0300;
    if m == 0x0000 {
        left
    } else if m == 0x0100 {
        s1 * (128 - pan1) / 1024
    } else if m == 0x0200 {
        s3 * (128 - pan3) / 1024
    } else {
        s1 * (128 - pan1) / 1024 + s3 * (128 - pan3) / 1024
    }
}

/// The surround routing of the right output.
pub open spec fn spec_right_routed(control: u16, right: int, s1: int, s3: int,
    pan1: int, pan3: int) -> int
{
    let m = control & 0x0C00;
    if m == 0x0000 {
        right
    } else if m == 0x0400 {
        s1 * pan1 / 1024
    } else if m == 0x0800 {
        s3 * pan3 / 1024
    } else {
        s1 * pan1 / 1024 + s3 * pan3 / 1024
    }
}

impl Spu {
    /// One output sample: advances all sixteen lanes a hardware tick, pans
    /// them into the stereo accumulators, feeds the enabled capture units,
    /// applies the four surround routing modes and the final output stage.
    /// Returns the finished stereo pair.
    #[verifier::rlimit(100)]
    pub fn mix(&mut self, dummy: u32) -> (out: (i16, i16))
        requires
            old(self).wf(),
        ensures
            final(self).wf(),
            final(self).control == old(self).control,
            final(self).master_volume == old(self).master_volume,
            final(self).bias == old(self).bias,
            (old(self).control & 0x8000 == 0 || dummy == 0) ==> (
                out.0 == spec_finalize(0, old(self).master_volume, old(self).bias,
                    old(self).apply_bias, old(self).bit_depth is _10bit)
                && out.1 == out.0
                && *final(self) == *old(self)
            ),
            (old(self).control & 0x8000 != 0 && dummy != 0) ==> (
                forall|i: int| 0 <= i < 16 ==> crate::channel::spec_ticked(
                    old(self).channels[i],
                    #[trigger] final(self).channels[i],
                    old(self).nds,
                )
            ),
            // the active case in full: the sixteen lanes' samples are
            // panned into the stereo accumulators, each side routed by its
            // surround mode and pushed through the final output stage
            (old(self).control & 0x8000 != 0 && dummy != 0) ==> (
                exists|samples: Seq<int>| {
                    &&& samples.len() == 16
                    &&& (forall|i: int| 0 <= i < 16 ==> crate::channel::spec_do_run_rel(
                        old(self).channels[i], final(self).channels[i],
                        #[trigger] samples[i], old(self).nds))
                    &&& out.0 == spec_finalize(
                        spec_left_routed(old(self).control,
                            spec_mix_left_acc(samples, final(self).channels@,
                                old(self).control, 16),
                            samples[1], samples[3],
                            final(self).channels@[1].pan as int,
                            final(self).channels@[3].pan as int),
                        old(self).master_volume, old(self).bias, old(self).apply_bias,
                        old(self).bit_depth is _10bit)
                    &&& out.1 == spec_finalize(
                        spec_right_routed(old(self).control,
                            spec_mix_right_acc(samples, final(self).channels@,
                                old(self).control, 16),
                            samples[1], samples[3],
                            final(self).channels@[1].pan as int,
                            final(self).channels@[3].pan as int),
                        old(self).master_volume, old(self).bias, old(self).apply_bias,
                        old(self).bit_depth is _10bit)
                }
            ),
    {
        let mut left: i32 = 0;
        let mut right: i32 = 0;
        let mut left_output: i32 = 0;
        let mut right_output: i32 = 0;
        let ghost mut samples: Seq<int> = Seq::empty();

        if (self.control & 0x8000) != 0 && dummy != 0 {
            let ghost pre = *self;
            proof {
                assert(pre.wf());
            }
            let ch0 = { let c = &mut self.channels[0]; c.do_run(&self.nds) };
            proof {
                assert(crate::channel::spec_do_run_rel(
                    pre.channels[0], self.channels[0], ch0 as int, pre.nds));
                assert(crate::channel::spec_ticked(pre.channels[0], self.channels[0], pre.nds));
                samples = samples.push(ch0 as int);
            }
            let ch1 = { let c = &mut self.channels[1]; c.do_run(&self.nds) };
            proof {
                assert(crate::channel::spec_do_run_rel(
                    pre.channels[1], self.channels[1], ch1 as int, pre.nds));
                assert(crate::channel::spec_ticked(pre.channels[1], self.channels[1], pre.nds));
                samples = samples.push(ch1 as int);
            }
            let ch2 = { let c = &mut self.channels[2]; c.do_run(&self.nds) };
            proof {
                assert(crate::channel::spec_do_run_rel(
                    pre.channels[2], self.channels[2], ch2 as int, pre.nds));
                assert(crate::channel::spec_ticked(pre.channels[2], self.channels[2], pre.nds));
                samples = samples.push(ch2 as int);
            }
            let ch3 = { let c = &mut self.channels[3]; c.do_run(&self.nds) };
            proof {
                assert(crate::channel::spec_do_run_rel(
                    pre.channels[3], self.channels[3], ch3 as int, pre.nds));
                assert(crate::channel::spec_ticked(pre.channels[3], self.channels[3], pre.nds));
                samples = samples.push(ch3 as int);
            }

            self.channels[0].pan_output(ch0, &mut left, &mut right);
            self.channels[2].pan_output(ch2, &mut left, &mut right);

            if (self.control & 0x1000) == 0 {
                self.channels[1].pan_output(ch1, &mut left, &mut right);
            }
            if (self.control & 0x2000) == 0 {
                self.channels[3].pan_output(ch3, &mut left, &mut right);
            }

            proof {
                assert(samples[0] == ch0 as int && samples[1] == ch1 as int
                    && samples[2] == ch2 as int && samples[3] == ch3 as int);
                assert(spec_mix_left_acc(samples, self.channels@, pre.control, 0) == 0);
                assert(spec_mix_right_acc(samples, self.channels@, pre.control, 0) == 0);
                assert(spec_mix_left_acc(samples, self.channels@, pre.control, 1)
                    == spec_left_contrib(samples[0], self.channels@[0].pan as int,
                        pre.control, 0));
                assert(spec_mix_left_acc(samples, self.channels@, pre.control, 2)
                    == spec_mix_left_acc(samples, self.channels@, pre.control, 1)
                        + spec_left_contrib(samples[1], self.channels@[1].pan as int,
                            pre.control, 1));
                assert(spec_mix_left_acc(samples, self.channels@, pre.control, 3)
                    == spec_mix_left_acc(samples, self.channels@, pre.control, 2)
                        + spec_left_contrib(samples[2], self.channels@[2].pan as int,
                            pre.control, 2));
                assert(spec_mix_left_acc(samples, self.channels@, pre.control, 4)
                    == spec_mix_left_acc(samples, self.channels@, pre.control, 3)
                        + spec_left_contrib(samples[3], self.channels@[3].pan as int,
                            pre.control, 3));
                assert(spec_mix_right_acc(samples, self.channels@, pre.control, 1)
                    == spec_right_contrib(samples[0], self.channels@[0].pan as int,
                        pre.control, 0));
                assert(spec_mix_right_acc(samples, self.channels@, pre.control, 2)
                    == spec_mix_right_acc(samples, self.channels@, pre.control, 1)
                        + spec_right_contrib(samples[1], self.channels@[1].pan as int,
                            pre.control, 1));
                assert(spec_mix_right_acc(samples, self.channels@, pre.control, 3)
                    == spec_mix_right_acc(samples, self.channels@, pre.control, 2)
                        + spec_right_contrib(samples[2], self.channels@[2].pan as int,
                            pre.control, 2));
                assert(spec_mix_right_acc(samples, self.channels@, pre.control, 4)
                    == spec_mix_right_acc(samples, self.channels@, pre.control, 3)
                        + spec_right_contrib(samples[3], self.channels@[3].pan as int,
                            pre.control, 3));
                assert(left == spec_mix_left_acc(samples, self.channels@, pre.control, 4));
                assert(right == spec_mix_right_acc(samples, self.channels@,
                    pre.control, 4));
            }

            let mut i: usize = 4;
            while i < 16
                invariant
                    4 <= i <= 16,
                    self.wf(),
                    pre.wf(),
                    self.control == pre.control,
                    self.master_volume == pre.master_volume,
                    self.bias == pre.bias,
                    self.apply_bias == pre.apply_bias,
                    self.bit_depth == pre.bit_depth,
                    self.nds == pre.nds,
                    self.capture == pre.capture,
                    self.output_back_buffer == pre.output_back_buffer,
                    self.output_back_buffer_write_position
                        == pre.output_back_buffer_write_position,
                    self.output_front_buffer == pre.output_front_buffer,
                    self.output_front_buffer_write_position
                        == pre.output_front_buffer_write_position,
                    self.output_front_buffer_read_position
                        == pre.output_front_buffer_read_position,
                    forall|k: int| 0 <= k < i ==> #[trigger] crate::channel::spec_ticked(
                        pre.channels[k], self.channels[k], pre.nds),
                    forall|k: int| i <= k < 16
                        ==> #[trigger] self.channels[k] == pre.channels[k],
                    samples.len() == i,
                    samples[1] == ch1 as int,
                    samples[3] == ch3 as int,
                    forall|k: int| 0 <= k < i ==> crate::channel::spec_do_run_rel(
                        pre.channels[k], self.channels[k], #[trigger] samples[k],
                        pre.nds),
                    left == spec_mix_left_acc(samples, self.channels@, pre.control,
                        i as int),
                    right == spec_mix_right_acc(samples, self.channels@, pre.control,
                        i as int),
                    -0x800_0000 <= left <= 0x800_0000,
                    -0x800_0000 <= right <= 0x800_0000,
                    -0x80_0000 * (i as int) <= left <= 0x80_0000 * (i as int),
                    -0x80_0000 * (i as int) <= right <= 0x80_0000 * (i as int),
                decreases 16 - i,
            {
                let ghost chans0 = self.channels@;
                let channel = { let c = &mut self.channels[i]; c.do_run(&self.nds) };
                proof {
                    assert(crate::channel::spec_do_run_rel(
                        pre.channels[i as int], self.channels[i as int], channel as int, pre.nds));
                    assert(crate::channel::spec_ticked(
                        pre.channels[i as int], self.channels[i as int], pre.nds));
                    lemma_mix_acc_chans(samples, chans0, self.channels@, pre.control,
                        i as int);
                }
                self.channels[i].pan_output(channel, &mut left, &mut right);
                proof {
                    let ghost olds = samples;
                    samples = samples.push(channel as int);
                    lemma_mix_acc_push(olds, channel as int, self.channels@,
                        pre.control, i as int);
                    assert(samples[i as int] == channel as int);
                    assert(spec_mix_left_acc(samples, self.channels@, pre.control,
                        i + 1)
                        == spec_mix_left_acc(samples, self.channels@, pre.control,
                            i as int)
                            + spec_left_contrib(samples[i as int],
                                self.channels@[i as int].pan as int, pre.control,
                                i as int));
                    assert(spec_mix_right_acc(samples, self.channels@, pre.control,
                        i + 1)
                        == spec_mix_right_acc(samples, self.channels@, pre.control,
                            i as int)
                            + spec_right_contrib(samples[i as int],
                                self.channels@[i as int].pan as int, pre.control,
                                i as int));
                }
                proof {
                    assert(-0x80_0000 * (i as int) - 0x80_0000 >= -0x80_0000 * (i + 1 as int))
                        by (nonlinear_arith);
                    assert(0x80_0000 * (i as int) + 0x80_0000 <= 0x80_0000 * (i + 1 as int))
                        by (nonlinear_arith);
                    assert(0x80_0000 * (i + 1 as int) <= 0x800_0000) by (nonlinear_arith)
                        requires i + 1 <= 16;
                }
                i = i + 1;
            }

            // sound capture taps the accumulators before the final stage
            if self.capture[0].control & 0x80 != 0 {
                let val = capture_clamp(left);
                let c = &mut self.capture[0];
                c.run(&mut self.nds, val);
            }
            if self.capture[1].control & 0x80 != 0 {
                let val = capture_clamp(right);
                let c = &mut self.capture[1];
                c.run(&mut self.nds, val);
            }

            // surround routing: each side is the mixer, one lane, or both
            let routing_left = self.control & 0x0300;
            if routing_left == 0x0000 {
                left_output = left;
            } else if routing_left == 0x0100 {
                let pan: i64 = 128 - self.channels[1].pan as i64;
                left_output = floor_div_i64(mul_pan(ch1, pan), 1024) as i32;
            } else if routing_left == 0x0200 {
                let pan: i64 = 128 - self.channels[3].pan as i64;
                left_output = floor_div_i64(mul_pan(ch3, pan), 1024) as i32;
            } else {
                let pan1: i64 = 128 - self.channels[1].pan as i64;
                let pan3: i64 = 128 - self.channels[3].pan as i64;
                left_output = floor_div_i64(mul_pan(ch1, pan1), 1024) as i32
                    + floor_div_i64(mul_pan(ch3, pan3), 1024) as i32;
            }

            let routing_right = self.control & 0x0C00;
            if routing_right == 0x0000 {
                right_output = right;
            } else if routing_right == 0x0400 {
                let pan: i64 = self.channels[1].pan as i64;
                right_output = floor_div_i64(mul_pan(ch1, pan), 1024) as i32;
            } else if routing_right == 0x0800 {
                let pan: i64 = self.channels[3].pan as i64;
                right_output = floor_div_i64(mul_pan(ch3, pan), 1024) as i32;
            } else {
                let pan1: i64 = self.channels[1].pan as i64;
                let pan3: i64 = self.channels[3].pan as i64;
                right_output = floor_div_i64(mul_pan(ch1, pan1), 1024) as i32
                    + floor_div_i64(mul_pan(ch3, pan3), 1024) as i32;
            }

            proof {
                assert(left_output == spec_left_routed(pre.control, left as int,
                    samples[1], samples[3], self.channels@[1].pan as int,
                    self.channels@[3].pan as int));
                assert(right_output == spec_right_routed(pre.control, right as int,
                    samples[1], samples[3], self.channels@[1].pan as int,
                    self.channels@[3].pan as int));
                assert(left == spec_mix_left_acc(samples, self.channels@,
                    pre.control, 16));
                assert(right == spec_mix_right_acc(samples, self.channels@,
                    pre.control, 16));
            }
        }

        let degrade = match self.bit_depth {
            AudioBitDepth::_10bit => true,
            AudioBitDepth::_16bit => false,
        };
        let lw = finalize_sample(left_output, self.master_volume, self.bias,
            self.apply_bias, degrade);
        let rw = finalize_sample(right_output, self.master_volume, self.bias,
            self.apply_bias, degrade);
        (lw, rw)
    }
}

/// A lane sample scaled by a pan weight, widened for the shift.
fn mul_pan(sample: i32, pan: i64) -> (r: i64)
    requires
        -0x400_0000 <= sample <= 0x400_0000,
        0 <= pan <= 128,
    ensures
        r == sample * pan,
        -0x2_0000_0000 <= r <= 0x2_0000_0000,
{
    proof {
        assert(-0x2_0000_0000 <= (sample as int) * pan <= 0x2_0000_0000) by (nonlinear_arith)
            requires -0x400_0000 <= sample <= 0x400_0000 && 0 <= pan <= 128;
    }
    sample as i64 * pan
}

impl Spu {
    /// Lane addressed by a channel-register address.
    pub open spec fn spec_reg_channel(address: u32) -> int {
        ((address >> 4) & 0xF) as int
    }

    /// Byte-wide register write: channel control bytes below the global
    /// area; master control and the capture control bytes above it.
    pub fn write8(&mut self, address: u32, val: u8)
        requires
            old(self).wf(),
        ensures
            final(self).wf(),
            (address < 0x0400_0500 && address & 0xF <= 3) ==> ({
                let ci = Self::spec_reg_channel(address);
                let oldc = old(self).channels[ci].control;
                let sel = address & 0xF;
                let merged = if sel == 0 { (oldc & 0xFFFF_FF00) | val as u32 }
                    else if sel == 1 { (oldc & 0xFFFF_00FF) | (val as u32) << 8 }
                    else if sel == 2 { (oldc & 0xFF00_FFFF) | (val as u32) << 16 }
                    else { (oldc & 0x00FF_FFFF) | (val as u32) << 24 };
                let c = final(self).channels[ci];
                &&& c.control == merged & 0xFF7F_837F
                &&& c.volume == spec_ctrl_volume(c.control)
                &&& c.pan == spec_ctrl_pan(c.control)
            }),
            address == 0x0400_0500 ==> (
                final(self).control == (old(self).control & 0xBF00) | (val & 0x7F) as u16
                && final(self).master_volume
                    == (if final(self).control & 0x7F == 127 { 128int }
                        else { (final(self).control & 0x7F) as int })
            ),
    {
        if address < 0x0400_0500 {
            let ci = ((address >> 4) & 0xF) as usize;
            proof {
                assert((address >> 4) & 0xF < 16) by (bit_vector);
            }
            let c = self.channels[ci].control;
            let sel = address & 0xF;
            let ch = &mut self.channels[ci];
            if sel == 0x0 {
                ch.set_control((c & 0xFFFF_FF00) | val as u32);
            } else if sel == 0x1 {
                ch.set_control((c & 0xFFFF_00FF) | (val as u32) << 8);
            } else if sel == 0x2 {
                ch.set_control((c & 0xFF00_FFFF) | (val as u32) << 16);
            } else if sel == 0x3 {
                ch.set_control((c & 0x00FF_FFFF) | (val as u32) << 24);
            }
        } else {
            if address == 0x0400_0500 {
                let c0 = self.control;
                self.control = (c0 & 0xBF00) | (val & 0x7F) as u16;
                let mv = (self.control & 0x7F) as u8;
                proof {
                    assert(((c0 & 0xBF00) | (val & 0x7F) as u16) & 0x7F <= 127)
                        by (bit_vector);
                }
                self.master_volume = if mv == 127 { 128 } else { mv };
            } else if address == 0x0400_0501 {
                self.control = (self.control & 0x007F) | ((val & 0xBF) as u16) << 8;
            } else if address == 0x0400_0508 {
                let c = &mut self.capture[0];
                c.set_control(val);
            } else if address == 0x0400_0509 {
                let c = &mut self.capture[1];
                c.set_control(val);
            }
        }
    }

    /// Whether a byte write at this address lands in a lane's control word.
    pub fn has_updated_channel_control8(&mut self, address: u32) -> (r: bool)
        ensures
            r == (address < 0x0400_0500 && address & 0xF < 4),
            *final(self) == *old(self),
    {
        if address < 0x0400_0500 {
            let sel = address & 0xF;
            sel < 4
        } else {
            false
        }
    }

    /// Half-word register write.
    pub fn write16(&mut self, address: u32, val: u16)
        requires
            old(self).wf(),
        ensures
            final(self).wf(),
            address == 0x0400_0500 ==> (
                final(self).control == val & 0xBF7F
                && final(self).master_volume
                    == (if final(self).control & 0x7F == 127 { 128int }
                        else { (final(self).control & 0x7F) as int })
            ),
            address == 0x0400_0504 ==> final(self).bias == val & 0x3FF,
            (address < 0x0400_0500 && address & 0xF == 0x8) ==> (
                final(self).channels[Self::spec_reg_channel(address)].timer_reload == val
            ),
            (address < 0x0400_0500 && address & 0xF == 0xA) ==> (
                final(self).channels[Self::spec_reg_channel(address)].loop_pos == val * 4
            ),
            // the low and high control half-words merge into the lane's
            // masked control word
            (address < 0x0400_0500 && address & 0xF == 0x0) ==> (
                final(self).channels[Self::spec_reg_channel(address)].control
                    == ((old(self).channels[Self::spec_reg_channel(address)].control
                        & 0xFFFF_0000) | val as u32) & 0xFF7F_837F
            ),
            (address < 0x0400_0500 && address & 0xF == 0x2) ==> (
                final(self).channels[Self::spec_reg_channel(address)].control
                    == ((old(self).channels[Self::spec_reg_channel(address)].control
                        & 0x0000_FFFF) | (val as u32) << 16) & 0xFF7F_837F
            ),
            // the length halves merge over the stored word count
            (address < 0x0400_0500 && address & 0xF == 0xC) ==> (
                final(self).channels[Self::spec_reg_channel(address)].length
                    == (((((old(self).channels[Self::spec_reg_channel(address)].length
                        / 4) as u32) & 0xFFFF_0000) | val as u32) & 0x001F_FFFF) * 4
            ),
            (address < 0x0400_0500 && address & 0xF == 0xE) ==> (
                final(self).channels[Self::spec_reg_channel(address)].length
                    == (((((old(self).channels[Self::spec_reg_channel(address)].length
                        / 4) as u32) & 0x0000_FFFF) | (val as u32) << 16)
                        & 0x001F_FFFF) * 4
            ),
            // a timer write to a capture-source lane mirrors into the
            // capture unit's own timer reload
            (address < 0x0400_0500 && address & 0xF == 0x8 && address & 0xF0 == 0x10)
                ==> final(self).capture[0].timer_reload == val,
            (address < 0x0400_0500 && address & 0xF == 0x8 && address & 0xF0 == 0x30)
                ==> final(self).capture[1].timer_reload == val,
            // the capture control and length registers
            address == 0x0400_0508 ==> (
                final(self).capture[0].control
                    == SpuCaptureUnit::spec_control_after((val % 0x100) as u8)
                && final(self).capture[1].control
                    == SpuCaptureUnit::spec_control_after((val / 0x100) as u8)
            ),
            address == 0x0400_0514 ==> (
                final(self).capture[0].length == (if val == 0 { 4int } else { val * 4 })
            ),
            address == 0x0400_051C ==> (
                final(self).capture[1].length == (if val == 0 { 4int } else { val * 4 })
            ),
    {
        if address < 0x0400_0500 {
            let ci = ((address >> 4) & 0xF) as usize;
            proof {
                assert((address >> 4) & 0xF < 16) by (bit_vector);
                assert(val as u32 & 0xFFFF == val) by (bit_vector);
            }
            let c = self.channels[ci].control;
            let clen = self.channels[ci].length;
            let sel = address & 0xF;
            if sel == 0x0 {
                let ch = &mut self.channels[ci];
                ch.set_control((c & 0xFFFF_0000) | val as u32);
            } else if sel == 0x2 {
                let ch = &mut self.channels[ci];
                ch.set_control((c & 0x0000_FFFF) | (val as u32) << 16);
            } else if sel == 0x8 {
                {
                    let ch = &mut self.channels[ci];
                    ch.set_timer_reload(val as u32);
                }
                if (address & 0xF0) == 0x10 {
                    let cap = &mut self.capture[0];
                    cap.set_timer_reload(val as u32);
                } else if (address & 0xF0) == 0x30 {
                    let cap = &mut self.capture[1];
                    cap.set_timer_reload(val as u32);
                }
            } else if sel == 0xA {
                let ch = &mut self.channels[ci];
                ch.set_loop_pos(val as u32);
            } else if sel == 0xC {
                let merged = (((clen / 4) as u32) & 0xFFFF_0000) | val as u32;
                let ch = &mut self.channels[ci];
                ch.set_length(merged);
            } else if sel == 0xE {
                let merged = (((clen / 4) as u32) & 0x0000_FFFF) | (val as u32) << 16;
                let ch = &mut self.channels[ci];
                ch.set_length(merged);
            }
        } else {
            if address == 0x0400_0500 {
                self.control = val & 0xBF7F;
                let mv = (self.control & 0x7F) as u8;
                proof {
                    assert((val & 0xBF7F) & 0x7F <= 127) by (bit_vector);
                }
                self.master_volume = if mv == 127 { 128 } else { mv };
            } else if address == 0x0400_0504 {
                proof {
                    assert(val & 0x3FF <= 0x3FF) by (bit_vector);
                }
                self.bias = val & 0x3FF;
            } else if address == 0x0400_0508 {
                {
                    let c = &mut self.capture[0];
                    c.set_control((val % 0x100) as u8);
                }
                let c = &mut self.capture[1];
                c.set_control((val / 0x100) as u8);
            } else if address == 0x0400_0514 {
                let c = &mut self.capture[0];
                c.set_length(val as u32);
            } else if address == 0x0400_051C {
                let c = &mut self.capture[1];
                c.set_length(val as u32);
            }
        }
    }

    /// The lane whose control word a half-word write at this address lands
    /// in, if any.
    pub fn has_updated_channel_control16(&mut self, address: u32) -> (r: Option<usize>)
        ensures
            r == (if address < 0x0400_0500 && (address & 0xF == 0 || address & 0xF == 2) {
                Some(Self::spec_reg_channel(address) as usize)
            } else {
                None::<usize>
            }),
            *final(self) == *old(self),
    {
        if address < 0x0400_0500 {
            let sel = address & 0xF;
            if sel == 0x0 || sel == 0x2 {
                proof {
                    assert((address >> 4) & 0xF < 16) by (bit_vector);
                }
                Some(((address >> 4) & 0xF) as usize)
            } else {
                None
            }
        } else {
            None
        }
    }

    /// Word-wide register write.
    pub fn write32(&mut self, address: u32, val: u32)
        requires
            old(self).wf(),
        ensures
            final(self).wf(),
            (address < 0x0400_0500 && address & 0xF == 0x0) ==> ({
                let c = final(self).channels[Self::spec_reg_channel(address)];
                &&& c.control == val & 0xFF7F_837F
                &&& c.volume == spec_ctrl_volume(c.control)
                &&& c.volume_shift == spec_ctrl_shift(c.control)
                &&& c.pan == spec_ctrl_pan(c.control)
                &&& c.key_on == (if val & 0x8000_0000 != 0
                    && old(self).channels[Self::spec_reg_channel(address)].control
                        & 0x8000_0000 == 0 {
                    true
                } else {
                    old(self).channels[Self::spec_reg_channel(address)].key_on
                })
            }),
            address == 0x0400_0500 ==> final(self).control == (val & 0xBF7F) as u16,
            address == 0x0400_0504 ==> final(self).bias == val & 0x3FF,
            (address < 0x0400_0500 && address & 0xF == 0x4) ==> (
                final(self).channels[Self::spec_reg_channel(address)].src_address
                    == val & 0x07FF_FFFC
            ),
            (address < 0x0400_0500 && address & 0xF == 0x8) ==> (
                final(self).channels[Self::spec_reg_channel(address)].timer_reload == val & 0xFFFF
                && final(self).channels[Self::spec_reg_channel(address)].loop_pos
                    == ((val >> 16) & 0xFFFF) * 4
            ),
            (address < 0x0400_0500 && address & 0xF == 0xC) ==> (
                final(self).channels[Self::spec_reg_channel(address)].length
                    == (val & 0x001F_FFFF) * 4
            ),
    {
        if address < 0x0400_0500 {
            let ci = ((address >> 4) & 0xF) as usize;
            proof {
                assert((address >> 4) & 0xF < 16) by (bit_vector);
                assert((val & 0xFFFF) & 0xFFFF == val & 0xFFFF) by (bit_vector);
            }
            let sel = address & 0xF;
            if sel == 0x0 {
                let ch = &mut self.channels[ci];
                ch.set_control(val);
            } else if sel == 0x4 {
                let ch = &mut self.channels[ci];
                ch.set_src_address(val);
            } else if sel == 0x8 {
                {
                    let ch = &mut self.channels[ci];
                    ch.set_loop_pos(val >> 16);
                }
                let masked = val & 0xFFFF;
                {
                    let ch = &mut self.channels[ci];
                    ch.set_timer_reload(masked);
                }
                proof {
                    assert((val >> 16) & 0xFFFF == ((val >> 16) & 0xFFFF)) by (bit_vector);
                }
                if (address & 0xF0) == 0x10 {
                    let cap = &mut self.capture[0];
                    cap.set_timer_reload(masked);
                } else if (address & 0xF0) == 0x30 {
                    let cap = &mut self.capture[1];
                    cap.set_timer_reload(masked);
                }
            } else if sel == 0xC {
                let ch = &mut self.channels[ci];
                ch.set_length(val);
            }
        } else {
            if address == 0x0400_0500 {
                proof {
                    assert(val & 0xBF7F <= 0xFFFF) by (bit_vector);
                    assert((val & 0xBF7F) & 0x7F <= 127) by (bit_vector);
                }
                self.control = (val & 0xBF7F) as u16;
                let mv = (self.control & 0x7F) as u8;
                proof {
                    assert(((val & 0xBF7F) as u16) & 0x7F <= 127) by (bit_vector);
                }
                self.master_volume = if mv == 127 { 128 } else { mv };
            } else if address == 0x0400_0504 {
                proof {
                    assert(val & 0x3FF <= 0x3FF) by (bit_vector);
                }
                self.bias = (val & 0x3FF) as u16;
            } else if address == 0x0400_0508 {
                {
                    let c = &mut self.capture[0];
                    c.set_control((val % 0x100) as u8);
                }
                let c = &mut self.capture[1];
                c.set_control(((val / 0x100) % 0x100) as u8);
            } else if address == 0x0400_0510 {
                let c = &mut self.capture[0];
                c.set_dest_address(val);
            } else if address == 0x0400_0514 {
                proof {
                    assert(val & 0xFFFF <= 0xFFFF) by (bit_vector);
                }
                let c = &mut self.capture[0];
                c.set_length(val & 0xFFFF);
            } else if address == 0x0400_0518 {
                let c = &mut self.capture[1];
                c.set_dest_address(val);
            } else if address == 0x0400_051C {
                proof {
                    assert(val & 0xFFFF <= 0xFFFF) by (bit_vector);
                }
                let c = &mut self.capture[1];
                c.set_length(val & 0xFFFF);
            }
        }
    }

    /// Whether a word write at this address lands in a lane's control word.
    pub fn has_updated_channel_control32(&mut self, address: u32) -> (r: bool)
        ensures
            r == (address < 0x0400_0500 && address & 0xF == 0),
            *final(self) == *old(self),
    {
        if address < 0x0400_0500 {
            let sel = address & 0xF;
            sel == 0x0
        } else {
            false
        }
    }
}

} // verus!
