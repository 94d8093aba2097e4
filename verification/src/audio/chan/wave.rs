use vstd::prelude::*;

use crate::bits::lemma_u8_fields;

use crate::bus::Bus;
use crate::dma::Event;

use super::{bit, bit8, set_byte, with_byte, Length, LengthModel};

verus! {

/// The number of bytes in one bank of wave RAM (two 4-bit samples each).
pub const WAVE_RAM_BANK_LEN: usize = 16;

/// The model of a wave channel.
pub struct WaveModel {
    pub length: LengthModel,
    pub banks: Seq<Seq<u8>>,
    pub two_banks: bool,
    pub bank_idx: usize,
    pub bank_initial_idx: usize,
    pub play: bool,
    pub sample_rate: u16,
    pub sample_idx: usize,
    pub volume: u8,
    pub force_75_volume: bool,
    pub clocks: u16,
    pub cached_bits: u64,
}

/// A wave channel: plays the 4-bit samples held in the first half of a bank of wave RAM, one
/// every `2048 - sample_rate` clocks, at full, half, quarter or no volume (or three quarters).
#[derive(Debug)]
pub struct Wave {
    pub length: Length<256>,
    wave_ram_banks: [[u8; 16]; 2],
    two_banks: bool,
    bank_idx: usize,
    bank_initial_idx: usize,
    play: bool,
    sample_rate: u16,
    sample_idx: usize,
    volume: u8,
    force_75_volume: bool,
    clocks: u16,
    cached_bits: u64,
}

impl View for Wave {
    type V = WaveModel;

    closed spec fn view(&self) -> WaveModel {
        WaveModel {
            length: self.length@,
            banks: self.wave_ram_banks@.map_values(|b: [u8; 16]| b@),
            two_banks: self.two_banks,
            bank_idx: self.bank_idx,
            bank_initial_idx: self.bank_initial_idx,
            play: self.play,
            sample_rate: self.sample_rate,
            sample_idx: self.sample_idx,
            volume: self.volume,
            force_75_volume: self.force_75_volume,
            clocks: self.clocks,
            cached_bits: self.cached_bits,
        }
    }
}

impl Default for Wave {
    fn default() -> (r: Self)
        ensures
            r@ == (WaveModel {
                length: LengthModel::zeroed(),
                banks: seq![Seq::new(16, |i: int| 0u8), Seq::new(16, |i: int| 0u8)],
                two_banks: false,
                bank_idx: 0,
                bank_initial_idx: 0,
                play: false,
                sample_rate: 0,
                sample_idx: 0,
                volume: 0,
                force_75_volume: false,
                clocks: 0,
                cached_bits: 0,
            }),
    {
        let r = Wave {
            length: Length::default(),
            wave_ram_banks: [[0; 16]; 2],
            two_banks: false,
            bank_idx: 0,
            bank_initial_idx: 0,
            play: false,
            sample_rate: 0,
            sample_idx: 0,
            volume: 0,
            force_75_volume: false,
            clocks: 0,
            cached_bits: 0,
        };
        assert(r@.banks[0] =~= Seq::new(16, |i: int| 0u8));
        assert(r@.banks[1] =~= Seq::new(16, |i: int| 0u8));
        assert(r@.banks =~= seq![Seq::new(16, |i: int| 0u8), Seq::new(16, |i: int| 0u8)]);
        r
    }
}

impl WaveModel {
    pub open spec fn wf(self) -> bool {
        &&& self.length.wf(256)
        &&& self.banks.len() == 2
        &&& self.banks[0].len() == WAVE_RAM_BANK_LEN
        &&& self.banks[1].len() == WAVE_RAM_BANK_LEN
        &&& self.bank_idx < 2
        &&& self.bank_initial_idx < 2
        &&& self.sample_rate <= 0x7ff
        &&& self.sample_idx < WAVE_RAM_BANK_LEN
        &&& self.volume < 4
        &&& self.clocks < 2048
    }

    /// One clock of the sample timer (while the channel plays): every `2048 - sample_rate`
    /// clocks the next sample is taken; after sample 15 the bank is swapped (unless both banks
    /// form one long wave) and playback restarts at sample 0.
    pub open spec fn wave_stepped(self) -> WaveModel {
        if !self.length.channel_enabled || !self.play {
            self
        } else if self.clocks + 1 < 2048 - self.sample_rate {
            WaveModel { clocks: (self.clocks + 1) as u16, ..self }
        } else if self.sample_idx + 1 >= WAVE_RAM_BANK_LEN {
            WaveModel {
                clocks: 0,
                sample_idx: 0,
                bank_idx: if !self.two_banks {
                    ((self.bank_idx + 1) % 2) as usize
                } else {
                    self.bank_idx
                },
                ..self
            }
        } else {
            WaveModel { clocks: 0, sample_idx: (self.sample_idx + 1) as usize, ..self }
        }
    }

    /// The current 4-bit sample: the low nibble of its byte for even samples, the high nibble
    /// for odd ones.
    pub open spec fn current_sample(self) -> u8 {
        (self.banks[self.bank_idx as int][(self.sample_idx / 2) as int] >> (4 * (self.sample_idx
            % 2)) as u8) & 0xf
    }

    /// The output: the current sample scaled by the volume setting, or 0 when not playing.
    pub open spec fn output(self) -> u8 {
        if self.length.channel_enabled && self.play {
            let sample = self.current_sample();
            if self.force_75_volume {
                (sample - sample / 4) as u8
            } else if self.volume == 0 {
                0
            } else {
                sample >> (self.volume - 1) as u8
            }
        } else {
            0
        }
    }

    /// Writing byte `idx` of the control registers (SOUND3CNT_L, _H and _X): byte 0 selects
    /// one or two banks (bit 5), the bank to play (bit 6) and playback (bit 7), restarting at
    /// that bank; byte 2 loads the length; byte 3 sets the volume (bits 5-6) and the 75% volume
    /// (bit 7); bytes 4 and 5 hold the 11-bit sample rate, and bit 7 of byte 5 restarts the
    /// channel. Every byte reads back as written.
    pub open spec fn with_ctrl_byte(self, idx: int, value: u8) -> WaveModel {
        let s = WaveModel { cached_bits: with_byte(self.cached_bits, idx as u64, value), ..self };
        if idx == 0 {
            let initial = ((value >> 6u8) & 1) as usize;
            WaveModel {
                two_banks: bit8(value, 5),
                bank_initial_idx: initial,
                play: bit8(value, 7),
                bank_idx: initial,
                sample_idx: 0,
                ..s
            }
        } else if idx == 2 {
            WaveModel { length: self.length.with_ctrl_byte(256, 0, value), ..s }
        } else if idx == 3 {
            WaveModel { volume: (value >> 5u8) & 3, force_75_volume: bit8(value, 7), ..s }
        } else if idx == 4 {
            WaveModel { sample_rate: (self.sample_rate & 0xff00) | (value as u16), ..s }
        } else if idx == 5 {
            let t = WaveModel {
                length: self.length.with_ctrl_byte(256, 1, value),
                sample_rate: (self.sample_rate & !0x700u16) | (((value & 7) as u16) << 8u16),
                ..s
            };
            if bit8(value, 7) {
                WaveModel { bank_idx: t.bank_initial_idx, sample_idx: 0, ..t }
            } else {
                t
            }
        } else {
            s
        }
    }

    /// The bank that wave RAM accesses reach: the one not being played.
    pub open spec fn ram_bank(self) -> int {
        (self.bank_idx + 1) % 2
    }

    /// The channel after writing `value` to byte `addr` of the bank not being played.
    pub open spec fn with_ram_byte(self, addr: int, value: u8) -> WaveModel {
        WaveModel {
            banks: self.banks.update(self.ram_bank(), self.banks[self.ram_bank()].update(addr, value)),
            ..self
        }
    }
}

/// Access to the wave RAM bank that is not being played.
pub struct WaveRam<'a>(&'a mut Wave);

impl Wave {
    /// Whether the channel is playing.
    pub fn is_channel_enabled(&self) -> (r: bool)
        ensures
            r == self@.length.channel_enabled,
    {
        self.length.is_channel_enabled()
    }

    /// Reads byte `addr` of the wave RAM bank that is not being played.
    pub fn read_ram_byte(&self, addr: u32) -> (r: u8)
        requires
            addr < 16,
            self@.wf(),
        ensures
            r == self@.banks[self@.ram_bank()][addr as int],
    {
        let bank = self.wave_ram_banks[(self.bank_idx + 1) % 2];
        bank[addr as usize]
    }

    /// Writes byte `addr` of the wave RAM bank that is not being played.
    pub fn write_ram_byte(&mut self, addr: u32, value: u8)
        requires
            addr < 16,
            old(self)@.wf(),
        ensures
            final(self)@ == old(self)@.with_ram_byte(addr as int, value),
            final(self)@.wf(),
    {
        let b = (self.bank_idx + 1) % 2;
        let mut bank = self.wave_ram_banks[b];
        bank[addr as usize] = value;
        self.wave_ram_banks[b] = bank;
        proof {
            assert(self@.banks =~= old(self)@.with_ram_byte(addr as int, value).banks);
        }
    }

    pub fn length(&mut self) -> (r: &mut Length<256>)
        ensures
            r@ == old(self)@.length,
            final(self)@ == (WaveModel { length: final(r)@, ..old(self)@ }),
    {
        &mut self.length
    }

    /// Clocks the sample timer.
    pub fn step_wave(&mut self)
        requires
            old(self)@.wf(),
        ensures
            final(self)@ == old(self)@.wave_stepped(),
            final(self)@.wf(),
    {
        if !self.length.is_channel_enabled() || !self.play {
            return;
        }
        self.clocks = self.clocks + 1;
        if self.clocks < 2048 - self.sample_rate {
            return;
        }
        self.clocks = 0;
        self.sample_idx = self.sample_idx + 1;
        if self.sample_idx >= WAVE_RAM_BANK_LEN {
            if !self.two_banks {
                self.bank_idx = self.bank_idx + 1;
                self.bank_idx = self.bank_idx % 2;
            }
            self.sample_idx = 0;
        }
    }

    pub fn volume(&self) -> (r: u8)
        requires
            self@.wf(),
        ensures
            r == self@.output(),
    {
        if self.length.is_channel_enabled() && self.play {
            let bit_idx = (4 * (self.sample_idx % 2)) as u8;
            let bank = self.wave_ram_banks[self.bank_idx];
            let sample = (bank[self.sample_idx / 2] >> bit_idx) & 0xf;
            proof {
                assert(bank@ == self@.banks[self.bank_idx as int]);
            }
            if self.force_75_volume {
                sample - (sample / 4)
            } else if self.volume == 0 {
                0
            } else {
                sample >> (self.volume - 1)
            }
        } else {
            0
        }
    }

    pub fn set_ctrl_byte(&mut self, idx: usize, value: u8)
        requires
            idx < 8,
            old(self)@.wf(),
        ensures
            final(self)@ == old(self)@.with_ctrl_byte(idx as int, value),
            final(self)@.wf(),
    {
        self.cached_bits = set_byte(self.cached_bits, idx as u64, value);
        if idx == 0 {
            self.two_banks = bit(value, 5);
            proof {
                lemma_u8_fields(value);
            }
            self.bank_initial_idx = ((value >> 6u8) & 1) as usize;
            self.play = bit(value, 7);
            self.bank_idx = self.bank_initial_idx;
            self.sample_idx = 0;
        } else if idx == 2 {
            self.length.set_ctrl_byte(0, value);
        } else if idx == 3 {
            proof {
                lemma_u8_fields(value);
            }
            self.volume = (value >> 5u8) & 3;
            self.force_75_volume = bit(value, 7);
        } else if idx == 4 {
            proof {
                let r = self.sample_rate;
                assert(r <= 0x7ff ==> (r & 0xff00) | (value as u16) <= 0x7ff) by (bit_vector);
            }
            self.sample_rate = (self.sample_rate & 0xff00) | (value as u16);
        } else if idx == 5 {
            self.length.set_ctrl_byte(1, value);
            proof {
                let r = self.sample_rate;
                assert(r <= 0x7ff ==> (r & !0x700u16) | (((value & 7) as u16) << 8u16) <= 0x7ff)
                    by (bit_vector);
            }
            self.sample_rate = (self.sample_rate & !0x700u16) | (((value & 7) as u16) << 8u16);
            if bit(value, 7) {
                self.bank_idx = self.bank_initial_idx;
                self.sample_idx = 0;
            }
        }
    }

    pub fn ctrl_bits(&self) -> (r: u64)
        ensures
            r == self@.cached_bits,
    {
        self.cached_bits
    }

    /// Access to the wave RAM bank that is not being played.
    pub fn wave_ram(&mut self) -> (r: WaveRam)
        ensures
            r.wave()@ == old(self)@,
            final(self)@ == final(r.wave())@,
    {
        WaveRam(self)
    }
}

impl<'a> WaveRam<'a> {
    /// The wave channel whose RAM this is.
    pub closed spec fn wave(self) -> &'a mut Wave {
        self.0
    }

    /// Reads byte `addr` of the bank not being played.
    pub fn read_byte(&self, addr: u32) -> (r: u8)
        requires
            addr < 16,
            self.wave()@.wf(),
        ensures
            r == self.wave()@.banks[self.wave()@.ram_bank()][addr as int],
    {
        let bank = self.0.wave_ram_banks[(self.0.bank_idx + 1) % 2];
        bank[addr as usize]
    }

    /// Writes byte `addr` of the bank not being played.
    pub fn write_byte(&mut self, addr: u32, value: u8)
        requires
            addr < 16,
            old(self).wave()@.wf(),
        ensures
            final(self).wave()@ == old(self).wave()@.with_ram_byte(addr as int, value),
            *final(final(self).wave()) == *final(old(self).wave()),
    {
        let b = (self.0.bank_idx + 1) % 2;
        let mut bank = self.0.wave_ram_banks[b];
        bank[addr as usize] = value;
        self.0.wave_ram_banks[b] = bank;
        proof {
            assert(self.wave()@.banks =~= old(self).wave()@.with_ram_byte(addr as int, value).banks);
        }
    }
}

/// The number of samples a FIFO holds.
pub const FIFO_LEN: usize = 32;

/// The model of a sample FIFO: the sample being played and the queue of samples waiting.
pub struct FifoModel {
    pub sample: i8,
    pub samples: Seq<i8>,
    pub start_idx: usize,
    pub len: usize,
}

/// One of the two direct-sound FIFOs (A when `FIFO_A`): a ring of 32 signed 8-bit samples
/// that the CPU or DMA fills and the timers drain.
#[derive(Debug)]
pub struct Fifo<const FIFO_A: bool> {
    sample: i8,
    samples: [i8; 32],
    start_idx: usize,
    len: usize,
}

impl<const FIFO_A: bool> View for Fifo<FIFO_A> {
    type V = FifoModel;

    closed spec fn view(&self) -> FifoModel {
        FifoModel {
            sample: self.sample,
            samples: self.samples@,
            start_idx: self.start_idx,
            len: self.len,
        }
    }
}

/// The sum of the `count` samples of the ring `samples` starting at `start`.
pub open spec fn ring_sum(samples: Seq<i8>, start: int, count: nat) -> int
    decreases count,
{
    if count == 0 {
        0
    } else {
        ring_sum(samples, start, (count - 1) as nat) + samples[(start + count - 1) % (FIFO_LEN as int)]
    }
}

/// Integer division rounding toward zero.
pub open spec fn div_toward_zero(a: int, b: int) -> int {
    if a >= 0 {
        a / b
    } else {
        -((-a) / b)
    }
}

impl FifoModel {
    pub open spec fn wf(self) -> bool {
        &&& self.samples.len() == FIFO_LEN
        &&& self.start_idx < FIFO_LEN
        &&& self.len <= FIFO_LEN
    }

    /// The queued samples, oldest first.
    pub open spec fn queue(self) -> Seq<i8> {
        Seq::new(self.len as nat, |i: int| self.samples[(self.start_idx + i) % (FIFO_LEN as int)])
    }

    /// Draining `steps` timer overflows' worth of samples: up to `steps` of the queued samples
    /// are taken, and the new sample is their sum divided by `steps` (0 when the queue was
    /// empty). Nothing changes when `steps` is 0.
    pub open spec fn stepped(self, steps: u8) -> FifoModel {
        if steps == 0 {
            self
        } else if self.len > 0 {
            let count: usize = if (steps as usize) < self.len {
                steps as usize
            } else {
                self.len
            };
            FifoModel {
                sample: div_toward_zero(
                    ring_sum(self.samples, self.start_idx as int, count as nat),
                    steps as int,
                ) as i8,
                start_idx: ((self.start_idx + count) % (FIFO_LEN as int)) as usize,
                len: (self.len - count) as usize,
                ..self
            }
        } else {
            FifoModel { sample: 0, ..self }
        }
    }

    /// Queueing `value` as a signed sample; a full FIFO drops its oldest sample to make room.
    pub open spec fn pushed(self, value: u8) -> FifoModel {
        let sample = value as i8;
        if self.len < FIFO_LEN {
            FifoModel {
                samples: self.samples.update(
                    (self.start_idx + self.len) % (FIFO_LEN as int),
                    sample,
                ),
                len: (self.len + 1) as usize,
                ..self
            }
        } else {
            FifoModel {
                samples: self.samples.update(self.start_idx as int, sample),
                start_idx: ((self.start_idx + 1) % (FIFO_LEN as int)) as usize,
                ..self
            }
        }
    }
}

/// A sum of `count` samples lies between `-128 * count` and `127 * count`.
proof fn lemma_ring_sum_bounds(samples: Seq<i8>, start: int, count: nat)
    ensures
        -128 * count <= ring_sum(samples, start, count) <= 127 * count,
    decreases count,
{
    if count > 0 {
        lemma_ring_sum_bounds(samples, start, (count - 1) as nat);
    }
}

/// An average of at most `b` samples over `b` fits in a sample.
proof fn lemma_average_fits(a: int, count: int, b: int)
    requires
        0 < b,
        0 <= count <= b,
        -128 * count <= a <= 127 * count,
    ensures
        -128 <= div_toward_zero(a, b) <= 127,
{
    if a >= 0 {
        assert(a / b <= 127) by (nonlinear_arith)
            requires
                0 <= a <= 127 * count,
                0 <= count <= b,
                0 < b,
        ;
        assert(a / b >= 0) by (nonlinear_arith)
            requires
                0 <= a,
                0 < b,
        ;
    } else {
        assert((-a) / b <= 128) by (nonlinear_arith)
            requires
                0 < -a <= 128 * count,
                0 <= count <= b,
                0 < b,
        ;
        assert((-a) / b >= 0) by (nonlinear_arith)
            requires
                0 < -a,
                0 < b,
        ;
    }
}

impl<const FIFO_A: bool> Default for Fifo<FIFO_A> {
    fn default() -> (r: Self)
        ensures
            r@ == (FifoModel {
                sample: 0,
                samples: Seq::new(FIFO_LEN as nat, |i: int| 0i8),
                start_idx: 0,
                len: 0,
            }),
    {
        let r = Fifo { sample: 0, samples: [0; 32], start_idx: 0, len: 0 };
        assert(r@.samples =~= Seq::new(FIFO_LEN as nat, |i: int| 0i8));
        r
    }
}

impl<const FIFO_A: bool> Fifo<FIFO_A> {
    /// Drains `steps` timer overflows' worth of samples. The result asks for a DMA refill
    /// (FIFO A's or B's) when at most 16 samples remain, unless `steps` is 0.
    pub fn step(&mut self, steps: u8) -> (r: Option<Event>)
        requires
            old(self)@.wf(),
        ensures
            final(self)@ == old(self)@.stepped(steps),
            final(self)@.wf(),
            r == (if steps != 0 && final(self)@.len <= 16 {
                Some(
                    if FIFO_A {
                        Event::AudioFifoA
                    } else {
                        Event::AudioFifoB
                    },
                )
            } else {
                None
            }),
    {
        if steps == 0 {
            return None;
        }
        let new_sample: i8 = if self.len > 0 {
            let mut sample_accum: i32 = 0;
            let count: usize = if (steps as usize) < self.len {
                steps as usize
            } else {
                self.len
            };
            let ghost start = self.start_idx;
            let mut i: usize = 0;
            while i < count
                invariant
                    i <= count,
                    count <= self.len,
                    self.len == old(self)@.len,
                    self.len <= FIFO_LEN,
                    self.samples@.len() == FIFO_LEN,
                    self.samples@ == old(self)@.samples,
                    start == old(self)@.start_idx,
                    start < FIFO_LEN,
                    self.start_idx == (start + i) % (FIFO_LEN as int),
                    sample_accum == ring_sum(self.samples@, start as int, i as nat),
                    -128 * i <= sample_accum <= 127 * i,
                decreases count - i,
            {
                proof {
                    lemma_ring_sum_bounds(self.samples@, start as int, (i + 1) as nat);
                }
                sample_accum = sample_accum + self.samples[self.start_idx] as i32;
                self.start_idx = (self.start_idx + 1) % FIFO_LEN;
                i = i + 1;
            }
            self.len = self.len - count;
            proof {
                lemma_average_fits(sample_accum as int, count as int, steps as int);
            }
            let steps32 = steps as i32;
            let avg: i32 = if sample_accum >= 0 {
                sample_accum / steps32
            } else {
                -((-sample_accum) / steps32)
            };
            assert(avg == div_toward_zero(
                ring_sum(old(self)@.samples, old(self)@.start_idx as int, count as nat),
                steps as int,
            ));
            avg as i8
        } else {
            0
        };
        self.sample = new_sample;
        if self.len <= 16 {
            Some(
                if FIFO_A {
                    Event::AudioFifoA
                } else {
                    Event::AudioFifoB
                },
            )
        } else {
            None
        }
    }

    pub fn sample(&self) -> (r: i8)
        ensures
            r == self@.sample,
    {
        self.sample
    }

    /// Empties the FIFO and silences it.
    pub fn reset(&mut self)
        ensures
            final(self)@ == (FifoModel { sample: 0, start_idx: 0, len: 0, ..old(self)@ }),
    {
        self.sample = 0;
        self.start_idx = 0;
        self.len = 0;
    }
}

impl<const FIFO_A: bool> Bus for Fifo<FIFO_A> {
    open spec fn ready(&self) -> bool {
        true
    }

    /// The FIFO cannot be read.
    open spec fn read_value(bus: FifoModel, addr: u32) -> u8 {
        0xff
    }

    open spec fn after_read(bus: FifoModel, addr: u32) -> FifoModel {
        bus
    }

    /// Any byte written is queued as a sample.
    open spec fn after_write(bus: FifoModel, addr: u32, value: u8) -> FifoModel {
        if bus.wf() {
            bus.pushed(value)
        } else {
            bus
        }
    }

    open spec fn after_prefetch(bus: FifoModel, addr: u32) -> FifoModel {
        bus
    }

    open spec fn after_write_hword(bus: FifoModel, addr: u32, value: u16) -> FifoModel {
        Self::after_write(
            Self::after_write(bus, addr, (value & 0xff) as u8),
            addr.wrapping_add(1),
            (value >> 8u16) as u8,
        )
    }

    fn read_byte(&mut self, addr: u32) -> (r: u8) {
        0xff
    }

    fn write_byte(&mut self, addr: u32, value: u8) {
        if !(self.len <= FIFO_LEN && self.start_idx < FIFO_LEN) {
            return;
        }
        let sample = value as i8;
        if self.len < FIFO_LEN {
            self.samples[(self.start_idx + self.len) % FIFO_LEN] = sample;
            self.len = self.len + 1;
        } else {
            // Overwrite the oldest sample.
            self.samples[self.start_idx] = sample;
            self.start_idx = self.start_idx + 1;
            self.start_idx = self.start_idx % FIFO_LEN;
        }
    }

    fn prefetch_instr(&mut self, addr: u32) {
    }

    fn write_hword(&mut self, addr: u32, value: u16) {
        self.write_byte(addr, (value & 0xff) as u8);
        self.write_byte(addr.wrapping_add(1), (value >> 8u16) as u8);
    }
}

} // verus!
