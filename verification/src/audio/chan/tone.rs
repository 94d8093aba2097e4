use vstd::prelude::*;

use crate::bits::{lemma_shr_le_u16, lemma_u8_fields};

use super::{
    bit, bit8, set_byte, with_byte, LengthAndEnvelope, LengthAndEnvelopeModel, LengthModel,
};

verus! {

/// The highest frequency register value.
pub const MAX_FREQUENCY: u16 = 2047;

/// The model of a square-wave channel.
pub struct ToneModel {
    pub length_and_envelope: LengthAndEnvelopeModel,
    pub frequency: u16,
    pub duty_mode: u8,
    pub duty_step: u8,
    pub duty_step_clocks: u16,
    pub cached_bits: u64,
}

/// A square-wave channel: a duty cycle of 8 steps, high for the first 1, 2, 4 or 6 of them,
/// advanced every `2 * (2048 - frequency)` clocks.
#[derive(Debug)]
pub struct Tone {
    pub length_and_envelope: LengthAndEnvelope,
    frequency: u16,
    duty_mode: u8,
    duty_step: u8,
    duty_step_clocks: u16,
    cached_bits: u64,
}

impl View for Tone {
    type V = ToneModel;

    closed spec fn view(&self) -> ToneModel {
        ToneModel {
            length_and_envelope: self.length_and_envelope@,
            frequency: self.frequency,
            duty_mode: self.duty_mode,
            duty_step: self.duty_step,
            duty_step_clocks: self.duty_step_clocks,
            cached_bits: self.cached_bits,
        }
    }
}

/// The number of the 8 steps of a duty cycle during which the wave is high.
pub open spec fn duty_high_steps(duty_mode: u8) -> u8 {
    if duty_mode == 0 {
        1
    } else if duty_mode == 1 {
        2
    } else if duty_mode == 2 {
        4
    } else {
        6
    }
}

impl ToneModel {
    pub open spec fn wf(self) -> bool {
        &&& self.length_and_envelope.wf()
        &&& self.frequency <= MAX_FREQUENCY
        &&& self.duty_mode < 4
        &&& self.duty_step < 8
        &&& self.duty_step_clocks < 4096
    }

    /// One clock of the duty cycle timer.
    pub open spec fn duty_stepped(self) -> ToneModel {
        let clocks = self.duty_step_clocks + 1;
        if clocks < 2 * (MAX_FREQUENCY + 1 - self.frequency) {
            ToneModel { duty_step_clocks: clocks as u16, ..self }
        } else {
            ToneModel { duty_step_clocks: 0, duty_step: ((self.duty_step + 1) % 8) as u8, ..self }
        }
    }

    /// The output: the envelope's volume while the duty cycle is high, else 0.
    pub open spec fn volume(self) -> u8 {
        if self.duty_step < duty_high_steps(self.duty_mode) {
            self.length_and_envelope.volume()
        } else {
            0
        }
    }

    /// Writing byte `idx` of the control registers (SOUNDxCNT_L and _H): byte 0 holds the
    /// length and the duty mode (bits 6-7), byte 1 the envelope, bytes 4 and 5 the 11-bit
    /// frequency, and bit 7 of byte 5 restarts the channel. Every byte reads back as written.
    pub open spec fn with_ctrl_byte(self, idx: int, value: u8) -> ToneModel {
        let s = ToneModel { cached_bits: with_byte(self.cached_bits, idx as u64, value), ..self };
        if idx == 0 {
            ToneModel {
                length_and_envelope: self.length_and_envelope.with_ctrl_byte(0, value),
                duty_mode: value >> 6u8,
                ..s
            }
        } else if idx == 1 {
            ToneModel {
                length_and_envelope: self.length_and_envelope.with_ctrl_byte(1, value),
                ..s
            }
        } else if idx == 4 {
            ToneModel { frequency: (self.frequency & 0xff00) | (value as u16), ..s }
        } else if idx == 5 {
            ToneModel {
                length_and_envelope: self.length_and_envelope.with_ctrl_byte(2, value),
                frequency: (self.frequency & 0xff) | (((value & 7) as u16) << 8u16),
                duty_step_clocks: if bit8(value, 7) {
                    0
                } else {
                    self.duty_step_clocks
                },
                ..s
            }
        } else {
            s
        }
    }
}

impl Tone {
    /// Whether the channel is playing.
    pub fn is_channel_enabled(&self) -> (r: bool)
        ensures
            r == self@.length_and_envelope.length.channel_enabled,
    {
        self.length_and_envelope.is_channel_enabled()
    }

    pub fn length_and_envelope(&mut self) -> (r: &mut LengthAndEnvelope)
        ensures
            r@ == old(self)@.length_and_envelope,
            final(self)@ == (ToneModel { length_and_envelope: final(r)@, ..old(self)@ }),
    {
        &mut self.length_and_envelope
    }

    /// Clocks the duty cycle timer.
    pub fn step_duty(&mut self)
        requires
            old(self)@.wf(),
        ensures
            final(self)@ == old(self)@.duty_stepped(),
            final(self)@.wf(),
    {
        self.duty_step_clocks = self.duty_step_clocks + 1;
        if self.duty_step_clocks < 2 * (MAX_FREQUENCY + 1 - self.frequency) {
            return;
        }
        self.duty_step_clocks = 0;
        self.duty_step = self.duty_step + 1;
        self.duty_step = self.duty_step % 8;
    }

    pub fn volume(&self) -> (r: u8)
        ensures
            r == self@.volume(),
    {
        let high_steps: u8 = if self.duty_mode == 0 {
            1
        } else if self.duty_mode == 1 {
            2
        } else if self.duty_mode == 2 {
            4
        } else {
            6
        };
        if self.duty_step < high_steps {
            self.length_and_envelope.volume()
        } else {
            0
        }
    }

    pub fn set_ctrl_byte(&mut self, idx: usize, value: u8)
        requires
            idx < 8,
            old(self)@.wf(),
        ensures
            final(self)@ == old(self)@.with_ctrl_byte(idx as int, value),
            final(self)@.wf(),
    {
        self.cached_bits = set_byte(self.cached_bits, idx as u64, value);
        if idx == 0 {
            self.length_and_envelope.set_ctrl_byte(0, value);
            proof {
                lemma_u8_fields(value);
            }
            self.duty_mode = value >> 6u8;
        } else if idx == 1 {
            self.length_and_envelope.set_ctrl_byte(1, value);
        } else if idx == 4 {
            proof {
                let f = self.frequency;
                assert(f <= 2047 ==> (f & 0xff00) | (value as u16) <= 2047) by (bit_vector);
            }
            self.frequency = (self.frequency & 0xff00) | (value as u16);
        } else if idx == 5 {
            self.length_and_envelope.set_ctrl_byte(2, value);
            proof {
                let f = self.frequency;
                assert((f & 0xff) | (((value & 7) as u16) << 8u16) <= 2047) by (bit_vector);
            }
            self.frequency = (self.frequency & 0xff) | (((value & 7) as u16) << 8u16);
            if bit(value, 7) {
                self.duty_step_clocks = 0;
            }
        }
    }

    pub fn ctrl_bits(&self) -> (r: u64)
        ensures
            r == self@.cached_bits,
    {
        self.cached_bits
    }
}

/// The model of a square-wave channel with a frequency sweep.
pub struct ToneAndSweepModel {
    pub tone: ToneModel,
    pub sweep_enabled: bool,
    pub sweep_shadow_frequency: u16,
    pub sweep_shift: u8,
    pub sweep_decrease: bool,
    pub sweep_period: u8,
    pub sweep_clocks: u8,
    pub cached_bits: u64,
}

/// A square-wave channel whose frequency a sweep moves up or down by a fraction of itself
/// every `sweep_period` clocks; sweeping past the highest frequency silences the channel.
#[derive(Debug)]
pub struct ToneAndSweep {
    tone: Tone,
    sweep_enabled: bool,
    sweep_shadow_frequency: u16,
    sweep_shift: u8,
    sweep_decrease: bool,
    sweep_period: u8,
    sweep_clocks: u8,
    cached_bits: u64,
}

impl View for ToneAndSweep {
    type V = ToneAndSweepModel;

    closed spec fn view(&self) -> ToneAndSweepModel {
        ToneAndSweepModel {
            tone: self.tone@,
            sweep_enabled: self.sweep_enabled,
            sweep_shadow_frequency: self.sweep_shadow_frequency,
            sweep_shift: self.sweep_shift,
            sweep_decrease: self.sweep_decrease,
            sweep_period: self.sweep_period,
            sweep_clocks: self.sweep_clocks,
            cached_bits: self.cached_bits,
        }
    }
}

impl Default for Tone {
    fn default() -> (r: Self)
        ensures
            r@ == (ToneModel {
                length_and_envelope: LengthAndEnvelopeModel::zeroed(),
                frequency: 0,
                duty_mode: 0,
                duty_step: 0,
                duty_step_clocks: 0,
                cached_bits: 0,
            }),
    {
        Tone {
            length_and_envelope: LengthAndEnvelope::default(),
            frequency: 0,
            duty_mode: 0,
            duty_step: 0,
            duty_step_clocks: 0,
            cached_bits: 0,
        }
    }
}

impl Default for ToneAndSweep {
    fn default() -> (r: Self)
        ensures
            r@ == (ToneAndSweepModel {
                tone: ToneModel {
                    length_and_envelope: LengthAndEnvelopeModel::zeroed(),
                    frequency: 0,
                    duty_mode: 0,
                    duty_step: 0,
                    duty_step_clocks: 0,
                    cached_bits: 0,
                },
                sweep_enabled: false,
                sweep_shadow_frequency: 0,
                sweep_shift: 0,
                sweep_decrease: false,
                sweep_period: 0,
                sweep_clocks: 0,
                cached_bits: 0,
            }),
    {
        ToneAndSweep {
            tone: Tone::default(),
            sweep_enabled: false,
            sweep_shadow_frequency: 0,
            sweep_shift: 0,
            sweep_decrease: false,
            sweep_period: 0,
            sweep_clocks: 0,
            cached_bits: 0,
        }
    }
}

impl ToneAndSweepModel {
    pub open spec fn wf(self) -> bool {
        &&& self.tone.wf()
        &&& self.sweep_shadow_frequency <= MAX_FREQUENCY
        &&& self.sweep_shift < 8
        &&& self.sweep_period < 8
        &&& self.sweep_clocks < 8
    }

    /// The channel with its length counter's channel flag set to `enabled`.
    pub open spec fn with_channel_enabled(self, enabled: bool) -> ToneAndSweepModel {
        let lae = self.tone.length_and_envelope;
        ToneAndSweepModel {
            tone: ToneModel {
                length_and_envelope: LengthAndEnvelopeModel {
                    length: LengthModel { channel_enabled: enabled, ..lae.length },
                    ..lae
                },
                ..self.tone
            },
            ..self
        }
    }

    /// One sweep calculation on the shadow frequency: it moves by itself shifted right by
    /// `sweep_shift`; an increase past the highest frequency silences the channel instead.
    pub open spec fn shadow_updated(self) -> ToneAndSweepModel {
        let offset = self.sweep_shadow_frequency >> self.sweep_shift;
        if self.sweep_decrease {
            if offset <= self.sweep_shadow_frequency {
                ToneAndSweepModel {
                    sweep_shadow_frequency: (self.sweep_shadow_frequency - offset) as u16,
                    ..self
                }
            } else {
                self
            }
        } else if self.sweep_shadow_frequency + offset > MAX_FREQUENCY {
            self.with_channel_enabled(false)
        } else {
            ToneAndSweepModel {
                sweep_shadow_frequency: (self.sweep_shadow_frequency + offset) as u16,
                ..self
            }
        }
    }

    /// One clock of the sweep: every `sweep_period` clocks the shadow frequency is updated and,
    /// if the channel still plays, becomes the frequency, after which it is updated once more
    /// (only to check for overflow).
    pub open spec fn sweep_stepped(self) -> ToneAndSweepModel {
        if !self.sweep_enabled || self.sweep_period == 0 {
            self
        } else if self.sweep_clocks + 1 < self.sweep_period {
            ToneAndSweepModel { sweep_clocks: (self.sweep_clocks + 1) as u8, ..self }
        } else {
            let m1 = ToneAndSweepModel { sweep_clocks: 0, ..self }.shadow_updated();
            if !m1.tone.length_and_envelope.length.channel_enabled {
                m1
            } else {
                ToneAndSweepModel {
                    tone: ToneModel { frequency: m1.sweep_shadow_frequency, ..m1.tone },
                    ..m1
                }.shadow_updated()
            }
        }
    }

    /// Writing byte `idx` of the control registers (SOUND1CNT_L, _H and _X): byte 0 sets the
    /// sweep's shift (bits 0-2), direction (bit 3) and period (bits 4-6); bytes 2 to 5 go to the
    /// square wave. Restarting the channel (bit 7 of byte 5) also restarts the sweep from the
    /// current frequency, and with a non-zero shift makes one sweep calculation at once.
    pub open spec fn with_ctrl_byte(self, idx: int, value: u8) -> ToneAndSweepModel {
        let s = ToneAndSweepModel {
            cached_bits: with_byte(self.cached_bits, idx as u64, value),
            ..self
        };
        if idx == 0 {
            ToneAndSweepModel {
                sweep_shift: value & 7,
                sweep_decrease: bit8(value, 3),
                sweep_period: (value >> 4u8) & 7,
                ..s
            }
        } else if idx == 2 {
            ToneAndSweepModel { tone: self.tone.with_ctrl_byte(0, value), ..s }
        } else if idx == 3 {
            ToneAndSweepModel { tone: self.tone.with_ctrl_byte(1, value), ..s }
        } else if idx == 4 {
            ToneAndSweepModel { tone: self.tone.with_ctrl_byte(4, value), ..s }
        } else if idx == 5 {
            let t = ToneAndSweepModel { tone: self.tone.with_ctrl_byte(5, value), ..s };
            if bit8(value, 7) {
                let r = ToneAndSweepModel {
                    sweep_enabled: t.sweep_period > 0 || t.sweep_shift > 0,
                    sweep_shadow_frequency: t.tone.frequency,
                    sweep_clocks: 0,
                    ..t
                };
                if r.sweep_shift > 0 {
                    r.sweep_stepped()
                } else {
                    r
                }
            } else {
                t
            }
        } else {
            s
        }
    }
}

impl ToneAndSweep {
    fn update_shadow_freq(&mut self)
        requires
            old(self)@.wf(),
        ensures
            final(self)@ == old(self)@.shadow_updated(),
            final(self)@.wf(),
    {
        let offset = self.sweep_shadow_frequency >> self.sweep_shift;
        proof {
            let f = self.sweep_shadow_frequency;
            let sh = self.sweep_shift;
            lemma_shr_le_u16(f, sh);
        }
        if self.sweep_decrease {
            if offset <= self.sweep_shadow_frequency {
                self.sweep_shadow_frequency = self.sweep_shadow_frequency - offset;
            }
        } else {
            if self.sweep_shadow_frequency + offset > MAX_FREQUENCY {
                self.tone.length_and_envelope.length.channel_enabled = false;
                return;
            }
            self.sweep_shadow_frequency = self.sweep_shadow_frequency + offset;
        }
    }

    /// Clocks the frequency sweep.
    pub fn step_sweep(&mut self)
        requires
            old(self)@.wf(),
        ensures
            final(self)@ == old(self)@.sweep_stepped(),
            final(self)@.wf(),
    {
        if !self.sweep_enabled || self.sweep_period == 0 {
            return;
        }
        self.sweep_clocks = self.sweep_clocks + 1;
        if self.sweep_clocks < self.sweep_period {
            return;
        }
        self.sweep_clocks = 0;
        self.update_shadow_freq();
        if !self.tone.length_and_envelope.length.channel_enabled {
            return;
        }
        self.tone.frequency = self.sweep_shadow_frequency;
        // Update again to mimic GB behaviour, but don't update the current frequency.
        self.update_shadow_freq();
    }

    pub fn step_duty(&mut self)
        requires
            old(self)@.wf(),
        ensures
            final(self)@ == (ToneAndSweepModel { tone: old(self)@.tone.duty_stepped(), ..old(self)@ }),
            final(self)@.wf(),
    {
        self.tone.step_duty();
    }

    pub fn volume(&self) -> (r: u8)
        ensures
            r == self@.tone.volume(),
    {
        self.tone.volume()
    }

    /// Whether the channel is playing.
    pub fn is_channel_enabled(&self) -> (r: bool)
        ensures
            r == self@.tone.length_and_envelope.length.channel_enabled,
    {
        self.tone.is_channel_enabled()
    }

    pub fn length_and_envelope(&mut self) -> (r: &mut LengthAndEnvelope)
        ensures
            r@ == old(self)@.tone.length_and_envelope,
            final(self)@ == (ToneAndSweepModel {
                tone: ToneModel { length_and_envelope: final(r)@, ..old(self)@.tone },
                ..old(self)@
            }),
    {
        &mut self.tone.length_and_envelope
    }

    pub fn set_ctrl_byte(&mut self, idx: usize, value: u8)
        requires
            idx < 8,
            old(self)@.wf(),
        ensures
            final(self)@ == old(self)@.with_ctrl_byte(idx as int, value),
            final(self)@.wf(),
    {
        self.cached_bits = set_byte(self.cached_bits, idx as u64, value);
        if idx == 0 {
            proof {
                lemma_u8_fields(value);
            }
            self.sweep_shift = value & 7;
            self.sweep_decrease = bit(value, 3);
            self.sweep_period = (value >> 4u8) & 7;
        } else if idx == 2 {
            self.tone.set_ctrl_byte(0, value);
        } else if idx == 3 {
            self.tone.set_ctrl_byte(1, value);
        } else if idx == 4 {
            self.tone.set_ctrl_byte(4, value);
        } else if idx == 5 {
            self.tone.set_ctrl_byte(5, value);
            if bit(value, 7) {
                self.sweep_enabled = self.sweep_period > 0 || self.sweep_shift > 0;
                self.sweep_shadow_frequency = self.tone.frequency;
                self.sweep_clocks = 0;
                if self.sweep_shift > 0 {
                    self.step_sweep();
                }
            }
        }
    }

    pub fn ctrl_bits(&self) -> (r: u64)
        ensures
            r == self@.cached_bits,
    {
        self.cached_bits
    }
}

} // verus!

verus! {

/// The channel after `n` clocks of its duty cycle timer.
pub open spec fn duty_stepped_times(t: ToneModel, n: nat) -> ToneModel
    decreases n,
{
    if n == 0 {
        t
    } else {
        duty_stepped_times(t, (n - 1) as nat).duty_stepped()
    }
}

proof fn lemma_duty_clocks_count(t: ToneModel, n: nat)
    requires
        t.wf(),
        t.duty_step_clocks == 0,
        n < 2 * (2048 - t.frequency),
    ensures
        duty_stepped_times(t, n) == (ToneModel { duty_step_clocks: n as u16, ..t }),
    decreases n,
{
    if n > 0 {
        lemma_duty_clocks_count(t, (n - 1) as nat);
    }
}

/// A square wave of frequency register `f` holds each of its 8 duty steps for
/// 2 * (2048 - `f`) clocks of the timer: from the start of a step, the first
/// 2 * (2048 - `f`) - 1 clocks keep it, and the next one moves to the following step.
pub proof fn lemma_duty_step_period(t: ToneModel, n: nat)
    requires
        t.wf(),
        t.duty_step_clocks == 0,
        n <= 2 * (2048 - t.frequency),
    ensures
        n < 2 * (2048 - t.frequency) ==> duty_stepped_times(t, n).duty_step == t.duty_step,
        n == 2 * (2048 - t.frequency) ==> duty_stepped_times(t, n).duty_step == (t.duty_step + 1)
            % 8 && duty_stepped_times(t, n).duty_step_clocks == 0,
{
    if n < 2 * (2048 - t.frequency) {
        lemma_duty_clocks_count(t, n);
    } else {
        lemma_duty_clocks_count(t, (n - 1) as nat);
    }
}

} // verus!
