use vstd::prelude::*;

use crate::bits::{lemma_shr_le_u8, lemma_u8_fields};

use super::{bit, bit8, set_byte, with_byte, LengthAndEnvelope, LengthAndEnvelopeModel};

verus! {

/// The model of a noise channel.
pub struct NoiseModel {
    pub length_and_envelope: LengthAndEnvelopeModel,
    pub lfsr: u16,
    pub half_width: bool,
    pub period: u8,
    pub period_shift: u8,
    pub clocks: u8,
    pub cached_bits: u64,
}

/// A noise channel: a 15-bit (or, in half-width mode, 7-bit) linear feedback shift register,
/// shifted every `divisor >> period_shift` clocks; the channel is silent while its low bit is
/// set.
#[derive(Debug)]
pub struct Noise {
    pub length_and_envelope: LengthAndEnvelope,
    lfsr: u16,
    half_width: bool,
    period: u8,
    period_shift: u8,
    clocks: u8,
    cached_bits: u64,
}

impl View for Noise {
    type V = NoiseModel;

    closed spec fn view(&self) -> NoiseModel {
        NoiseModel {
            length_and_envelope: self.length_and_envelope@,
            lfsr: self.lfsr,
            half_width: self.half_width,
            period: self.period,
            period_shift: self.period_shift,
            clocks: self.clocks,
            cached_bits: self.cached_bits,
        }
    }
}

/// The clock divisor selected by the 3-bit `period`.
pub open spec fn noise_divisor(period: u8) -> u8 {
    if period == 0 {
        8
    } else {
        (16 * period) as u8
    }
}

/// `value` with bit `i` set to `b`.
pub open spec fn with_bit16(value: u16, i: u16, b: bool) -> u16 {
    (value & !(1u16 << i)) | ((if b {
        1u16
    } else {
        0u16
    }) << i)
}

impl NoiseModel {
    pub open spec fn wf(self) -> bool {
        &&& self.length_and_envelope.wf()
        &&& self.period < 8
        &&& self.period_shift < 16
        &&& self.clocks < 112
    }

    /// The shift register after one shift: the xor of its two low bits is shifted in at bit 14
    /// (and also at bit 6 in half-width mode).
    pub open spec fn shifted_lfsr(self) -> u16 {
        let xor = ((self.lfsr & 1) ^ ((self.lfsr >> 1u16) & 1)) == 1;
        let l = with_bit16(self.lfsr >> 1u16, 14, xor);
        if self.half_width {
            with_bit16(l, 6, xor)
        } else {
            l
        }
    }

    /// One clock of the noise timer.
    pub open spec fn noise_stepped(self) -> NoiseModel {
        let clocks = self.clocks + 1;
        if clocks < noise_divisor(self.period) >> (self.period_shift % 8) {
            NoiseModel { clocks: clocks as u8, ..self }
        } else {
            NoiseModel { clocks: 0, lfsr: self.shifted_lfsr(), ..self }
        }
    }

    /// The output: silent while the shift register's low bit is set, else the envelope's
    /// volume.
    pub open spec fn volume(self) -> u8 {
        if self.lfsr & 1 == 1 {
            0
        } else {
            self.length_and_envelope.volume()
        }
    }

    /// Writing byte `idx` of the control registers (SOUND4CNT_L and _H): bytes 0 and 1 hold
    /// the length and envelope, byte 4 the divisor (bits 0-2), width (bit 3) and shift (bits
    /// 4-7), and byte 5 restarts the channel. Every byte reads back as written.
    pub open spec fn with_ctrl_byte(self, idx: int, value: u8) -> NoiseModel {
        let s = NoiseModel { cached_bits: with_byte(self.cached_bits, idx as u64, value), ..self };
        if idx == 0 {
            NoiseModel {
                length_and_envelope: self.length_and_envelope.with_ctrl_byte(0, value),
                ..s
            }
        } else if idx == 1 {
            NoiseModel {
                length_and_envelope: self.length_and_envelope.with_ctrl_byte(1, value),
                ..s
            }
        } else if idx == 4 {
            NoiseModel {
                period: value & 7,
                half_width: bit8(value, 3),
                period_shift: value >> 4u8,
                ..s
            }
        } else if idx == 5 {
            NoiseModel {
                length_and_envelope: self.length_and_envelope.with_ctrl_byte(2, value),
                ..s
            }
        } else {
            s
        }
    }
}

impl Default for Noise {
    fn default() -> (r: Self)
        ensures
            r@.length_and_envelope == LengthAndEnvelopeModel::zeroed(),
            r@.lfsr == 0x7fff,
            !r@.half_width,
            r@.period == 0,
            r@.period_shift == 0,
            r@.clocks == 0,
            r@.cached_bits == 0,
    {
        Self {
            length_and_envelope: LengthAndEnvelope::default(),
            lfsr: 0x7fff,
            half_width: false,
            period: 0,
            period_shift: 0,
            clocks: 0,
            cached_bits: 0,
        }
    }
}

impl Noise {
    /// Whether the channel is playing.
    pub fn is_channel_enabled(&self) -> (r: bool)
        ensures
            r == self@.length_and_envelope.length.channel_enabled,
    {
        self.length_and_envelope.is_channel_enabled()
    }

    pub fn length_and_envelope(&mut self) -> (r: &mut LengthAndEnvelope)
        ensures
            r@ == old(self)@.length_and_envelope,
            final(self)@ == (NoiseModel { length_and_envelope: final(r)@, ..old(self)@ }),
    {
        &mut self.length_and_envelope
    }

    /// Clocks the noise timer. The divisor is shifted by the shift setting modulo 8, so the
    /// prohibited settings of 8 and more act as their low three bits.
    pub fn step_noise(&mut self)
        requires
            old(self)@.wf(),
        ensures
            final(self)@ == old(self)@.noise_stepped(),
            final(self)@.wf(),
    {
        self.clocks = self.clocks + 1;
        let period: u8 = if self.period == 0 {
            8
        } else {
            16 * self.period
        };
        proof {
            let p = period;
            let sh = (self.period_shift % 8) as u8;
            lemma_shr_le_u8(p, sh);
        }
        if self.clocks < period >> (self.period_shift % 8) {
            return;
        }
        self.clocks = 0;
        let xor = ((self.lfsr & 1) ^ ((self.lfsr >> 1u16) & 1)) == 1;
        let b: u16 = if xor {
            1
        } else {
            0
        };
        self.lfsr = self.lfsr >> 1u16;
        self.lfsr = (self.lfsr & !(1u16 << 14u16)) | (b << 14u16);
        if self.half_width {
            self.lfsr = (self.lfsr & !(1u16 << 6u16)) | (b << 6u16);
        }
    }

    pub fn volume(&self) -> (r: u8)
        ensures
            r == self@.volume(),
    {
        if self.lfsr & 1 == 1 {
            0
        } else {
            self.length_and_envelope.volume()
        }
    }

    pub fn set_ctrl_byte(&mut self, idx: usize, value: u8)
        requires
            idx < 8,
            old(self)@.wf(),
        ensures
            final(self)@ == old(self)@.with_ctrl_byte(idx as int, value),
            final(self)@.wf(),
    {
        self.cached_bits = set_byte(self.cached_bits, idx as u64, value);
        if idx == 0 {
            self.length_and_envelope.set_ctrl_byte(0, value);
        } else if idx == 1 {
            self.length_and_envelope.set_ctrl_byte(1, value);
        } else if idx == 4 {
            proof {
                lemma_u8_fields(value);
            }
            self.period = value & 7;
            self.half_width = bit(value, 3);
            self.period_shift = value >> 4u8;
        } else if idx == 5 {
            self.length_and_envelope.set_ctrl_byte(2, value);
        }
    }

    pub fn ctrl_bits(&self) -> (r: u64)
        ensures
            r == self@.cached_bits,
    {
        self.cached_bits
    }
}

} // verus!
