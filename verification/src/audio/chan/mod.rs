pub mod noise;
pub mod tone;
pub mod wave;

use vstd::prelude::*;

use crate::bits::lemma_u8_fields;

verus! {

/// The loudest volume an envelope reaches.
pub const MAX_VOLUME: u8 = 15;

/// Bit `i` of `value`.
pub open spec fn bit8(value: u8, i: u8) -> bool {
    (value >> i) & 1 == 1
}

fn bit(value: u8, i: u8) -> (r: bool)
    requires
        i < 8,
    ensures
        r == bit8(value, i),
{
    (value >> i) & 1 == 1
}

/// `bits` with byte `i` (0 is the least significant) replaced by `value`.
pub open spec fn with_byte(bits: u64, i: u64, value: u8) -> u64 {
    (bits & !(0xffu64 << (8 * i))) | ((value as u64) << (8 * i))
}

/// Byte `i` of `bits`.
pub open spec fn byte_of(bits: u64, i: u64) -> u8 {
    ((bits >> (8 * i)) & 0xff) as u8
}

/// Replacing byte `i` of a control word, as the channels' `set_ctrl_byte` do.
pub fn set_byte(bits: u64, i: u64, value: u8) -> (r: u64)
    requires
        i < 8,
    ensures
        r == with_byte(bits, i, value),
{
    (bits & !(0xffu64 << (8 * i))) | ((value as u64) << (8 * i))
}

/// Writing byte `i` of a control word gives that byte back and leaves the other bytes as they
/// were.
pub proof fn lemma_with_byte(bits: u64, i: u64, j: u64, value: u8)
    requires
        i < 8,
        j < 8,
    ensures
        byte_of(with_byte(bits, i, value), i) == value,
        i != j ==> byte_of(with_byte(bits, i, value), j) == byte_of(bits, j),
{
    let s = (8 * i) as u64;
    let t = (8 * j) as u64;
    assert(s <= 56 && t <= 56 && (s == t || s + 8 <= t || t + 8 <= s) ==> {
        &&& ((((bits & !(0xffu64 << s)) | ((value as u64) << s)) >> s) & 0xff) as u8 == value
        &&& (s != t ==> (((bits & !(0xffu64 << s)) | ((value as u64) << s)) >> t) & 0xff == (bits
            >> t) & 0xff)
    }) by (bit_vector);
}

/// The model of a length counter: whether the channel plays, whether the counter runs, the
/// counter and the length it was loaded from.
pub struct LengthModel {
    pub channel_enabled: bool,
    pub length_enabled: bool,
    pub counter: u16,
    pub initial: u16,
}

/// A channel's length counter, which silences the channel when it runs out. The counter
/// counts down from `MAX_COUNTER` less the length written.
#[derive(Debug)]
pub struct Length<const MAX_COUNTER: u16> {
    channel_enabled: bool,
    length_enabled: bool,
    counter: u16,
    initial: u16,
}

impl<const MAX_COUNTER: u16> View for Length<MAX_COUNTER> {
    type V = LengthModel;

    closed spec fn view(&self) -> LengthModel {
        LengthModel {
            channel_enabled: self.channel_enabled,
            length_enabled: self.length_enabled,
            counter: self.counter,
            initial: self.initial,
        }
    }
}

impl LengthModel {
    /// The loaded length is a valid length.
    pub open spec fn wf(self, max_counter: u16) -> bool {
        self.initial < max_counter
    }

    /// One clock of the counter: while it runs it counts down (wrapping around below zero),
    /// and reaching zero silences the channel.
    pub open spec fn stepped(self) -> LengthModel {
        if !self.length_enabled {
            self
        } else {
            let counter = vstd::wrapping::u16_specs::wrapping_sub(self.counter, 1);
            LengthModel {
                counter,
                channel_enabled: if counter == 0 {
                    false
                } else {
                    self.channel_enabled
                },
                ..self
            }
        }
    }

    /// Writing control byte `idx`: byte 0 loads the length; byte 1 starts or stops the counter
    /// (bit 6) and, with bit 7, restarts the channel with a full count less the length.
    pub open spec fn with_ctrl_byte(self, max_counter: u16, idx: int, value: u8) -> LengthModel {
        if idx == 0 {
            LengthModel { initial: ((value as u16) % max_counter) as u16, ..self }
        } else if bit8(value, 7) {
            LengthModel {
                length_enabled: bit8(value, 6),
                channel_enabled: true,
                counter: if self.initial == 0 {
                    max_counter
                } else {
                    (max_counter - self.initial) as u16
                },
                ..self
            }
        } else {
            LengthModel { length_enabled: bit8(value, 6), ..self }
        }
    }
}

impl LengthModel {
    /// A stopped counter of a silent channel, with nothing loaded.
    pub open spec fn zeroed() -> LengthModel {
        LengthModel { channel_enabled: false, length_enabled: false, counter: 0, initial: 0 }
    }
}

impl<const MAX_COUNTER: u16> Default for Length<MAX_COUNTER> {
    fn default() -> (r: Self)
        ensures
            r@ == LengthModel::zeroed(),
    {
        Length { channel_enabled: false, length_enabled: false, counter: 0, initial: 0 }
    }
}

impl<const MAX_COUNTER: u16> Length<MAX_COUNTER> {
    /// Clocks the counter.
    pub fn step(&mut self)
        ensures
            final(self)@ == old(self)@.stepped(),
    {
        if !self.length_enabled {
            return;
        }
        self.counter = self.counter.wrapping_sub(1);
        if self.counter == 0 {
            self.channel_enabled = false;
        }
    }

    pub fn is_channel_enabled(&self) -> (r: bool)
        ensures
            r == self@.channel_enabled,
    {
        self.channel_enabled
    }

    fn set_ctrl_byte(&mut self, idx: usize, value: u8)
        requires
            idx < 2,
            MAX_COUNTER > 0,
            old(self)@.wf(MAX_COUNTER),
        ensures
            final(self)@ == old(self)@.with_ctrl_byte(MAX_COUNTER, idx as int, value),
            final(self)@.wf(MAX_COUNTER),
    {
        if idx == 0 {
            self.initial = (value as u16) % MAX_COUNTER;
        } else {
            self.length_enabled = bit(value, 6);
            if bit(value, 7) {
                self.channel_enabled = true;
                self.counter = if self.initial == 0 {
                    MAX_COUNTER
                } else {
                    MAX_COUNTER - self.initial
                };
            }
        }
    }
}

/// The model of a length counter with a volume envelope.
pub struct LengthAndEnvelopeModel {
    pub length: LengthModel,
    pub envelope_enabled: bool,
    pub envelope_volume: u8,
    pub envelope_initial_volume: u8,
    pub envelope_increase: bool,
    pub envelope_period: u8,
    pub envelope_clocks: u8,
}

/// A 64-step length counter and a volume envelope, which every `envelope_period` clocks moves
/// the volume one step up or down until it reaches 15 or 0.
#[derive(Debug)]
pub struct LengthAndEnvelope {
    pub length: Length<64>,
    envelope_enabled: bool,
    envelope_volume: u8,
    envelope_initial_volume: u8,
    envelope_increase: bool,
    envelope_period: u8,
    envelope_clocks: u8,
}

impl View for LengthAndEnvelope {
    type V = LengthAndEnvelopeModel;

    closed spec fn view(&self) -> LengthAndEnvelopeModel {
        LengthAndEnvelopeModel {
            length: self.length@,
            envelope_enabled: self.envelope_enabled,
            envelope_volume: self.envelope_volume,
            envelope_initial_volume: self.envelope_initial_volume,
            envelope_increase: self.envelope_increase,
            envelope_period: self.envelope_period,
            envelope_clocks: self.envelope_clocks,
        }
    }
}

impl LengthAndEnvelopeModel {
    /// The volumes are at most 15, the period fits its 3 bits and the clock count is below 8.
    pub open spec fn wf(self) -> bool {
        &&& self.length.wf(64)
        &&& self.envelope_volume <= MAX_VOLUME
        &&& self.envelope_initial_volume <= MAX_VOLUME
        &&& self.envelope_period < 8
        &&& self.envelope_clocks < 8
    }

    /// One clock of the envelope: every `envelope_period` clocks the volume moves one step;
    /// trying to move past 15 or 0 stops the envelope instead. A period of 0 stops the clock.
    pub open spec fn envelope_stepped(self) -> LengthAndEnvelopeModel {
        if !self.envelope_enabled || self.envelope_period == 0 {
            self
        } else if self.envelope_clocks + 1 < self.envelope_period {
            LengthAndEnvelopeModel { envelope_clocks: (self.envelope_clocks + 1) as u8, ..self }
        } else {
            let s = LengthAndEnvelopeModel { envelope_clocks: 0, ..self };
            if self.envelope_increase {
                if self.envelope_volume == MAX_VOLUME {
                    LengthAndEnvelopeModel { envelope_enabled: false, ..s }
                } else {
                    LengthAndEnvelopeModel { envelope_volume: (self.envelope_volume + 1) as u8, ..s }
                }
            } else {
                if self.envelope_volume == 0 {
                    LengthAndEnvelopeModel { envelope_enabled: false, ..s }
                } else {
                    LengthAndEnvelopeModel { envelope_volume: (self.envelope_volume - 1) as u8, ..s }
                }
            }
        }
    }

    /// The volume: the envelope's while the channel plays, else 0.
    pub open spec fn volume(self) -> u8 {
        if self.length.channel_enabled {
            self.envelope_volume
        } else {
            0
        }
    }

    /// Writing control byte `idx`: byte 0 loads the length; byte 1 sets the envelope's period
    /// (bits 0-2), direction (bit 3) and initial volume (bits 4-7); byte 2 controls the length
    /// counter and, with bit 7, restarts the envelope from its initial volume.
    pub open spec fn with_ctrl_byte(self, idx: int, value: u8) -> LengthAndEnvelopeModel {
        if idx == 0 {
            LengthAndEnvelopeModel { length: self.length.with_ctrl_byte(64, 0, value), ..self }
        } else if idx == 1 {
            LengthAndEnvelopeModel {
                envelope_period: value & 7,
                envelope_increase: bit8(value, 3),
                envelope_initial_volume: value >> 4u8,
                ..self
            }
        } else {
            let s = LengthAndEnvelopeModel {
                length: self.length.with_ctrl_byte(64, 1, value),
                ..self
            };
            if bit8(value, 7) {
                LengthAndEnvelopeModel {
                    envelope_enabled: true,
                    envelope_clocks: 0,
                    envelope_volume: self.envelope_initial_volume,
                    ..s
                }
            } else {
                s
            }
        }
    }
}

impl LengthAndEnvelopeModel {
    /// A silent channel with its envelope stopped at volume 0.
    pub open spec fn zeroed() -> LengthAndEnvelopeModel {
        LengthAndEnvelopeModel {
            length: LengthModel::zeroed(),
            envelope_enabled: false,
            envelope_volume: 0,
            envelope_initial_volume: 0,
            envelope_increase: false,
            envelope_period: 0,
            envelope_clocks: 0,
        }
    }
}

impl Default for LengthAndEnvelope {
    fn default() -> (r: Self)
        ensures
            r@ == LengthAndEnvelopeModel::zeroed(),
    {
        LengthAndEnvelope {
            length: Length::default(),
            envelope_enabled: false,
            envelope_volume: 0,
            envelope_initial_volume: 0,
            envelope_increase: false,
            envelope_period: 0,
            envelope_clocks: 0,
        }
    }
}

impl LengthAndEnvelope {
    /// Clocks the volume envelope.
    pub fn step_envelope(&mut self)
        requires
            old(self)@.wf(),
        ensures
            final(self)@ == old(self)@.envelope_stepped(),
            final(self)@.wf(),
    {
        if !self.envelope_enabled || self.envelope_period == 0 {
            return;
        }
        self.envelope_clocks = self.envelope_clocks + 1;
        if self.envelope_clocks < self.envelope_period {
            return;
        }
        self.envelope_clocks = 0;
        if self.envelope_increase {
            if self.envelope_volume == MAX_VOLUME {
                self.envelope_enabled = false;
                return;
            }
            self.envelope_volume = self.envelope_volume + 1;
        } else {
            if self.envelope_volume == 0 {
                self.envelope_enabled = false;
                return;
            }
            self.envelope_volume = self.envelope_volume - 1;
        }
    }

    pub fn is_channel_enabled(&self) -> (r: bool)
        ensures
            r == self@.length.channel_enabled,
    {
        self.length.is_channel_enabled()
    }

    /// Clocks the length counter.
    pub fn step_length(&mut self)
        ensures
            final(self)@ == (LengthAndEnvelopeModel { length: old(self)@.length.stepped(), ..old(self)@ }),
    {
        self.length.step();
    }

    fn volume(&self) -> (r: u8)
        ensures
            r == self@.volume(),
    {
        if self.length.is_channel_enabled() {
            self.envelope_volume
        } else {
            0
        }
    }

    fn set_ctrl_byte(&mut self, idx: usize, value: u8)
        requires
            idx < 3,
            old(self)@.wf(),
        ensures
            final(self)@ == old(self)@.with_ctrl_byte(idx as int, value),
            final(self)@.wf(),
    {
        if idx == 0 {
            self.length.set_ctrl_byte(0, value);
        } else if idx == 1 {
            proof {
                lemma_u8_fields(value);
            }
            self.envelope_period = value & 7;
            self.envelope_increase = bit(value, 3);
            self.envelope_initial_volume = value >> 4u8;
        } else {
            self.length.set_ctrl_byte(1, value);
            if bit(value, 7) {
                self.envelope_enabled = true;
                self.envelope_clocks = 0;
                self.envelope_volume = self.envelope_initial_volume;
            }
        }
    }
}

} // verus!
