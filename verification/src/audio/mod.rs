pub mod cache;
pub mod chan;

use vstd::prelude::*;

use crate::bus::Bus;
use crate::dma::{notified, Dma, Event};

use self::cache::{Mix, MixModel};
use self::chan::noise::{Noise, NoiseModel};
use self::chan::tone::{Tone, ToneAndSweep, ToneAndSweepModel, ToneModel};
use self::chan::wave::{Fifo, FifoModel, Wave, WaveModel};
use self::chan::{byte_of, lemma_with_byte, set_byte, with_byte, LengthAndEnvelopeModel, LengthModel};
use crate::bits::{lemma_shr_le_u8, lemma_u8_fields};

verus! {

/// What the sound unit hands its samples to.
///
/// An implementation may describe itself through `sample_taken`; one that does not leaves it
/// unknown, and nothing is then known of what a call does to it.
pub trait Callback: Sized {
    /// Whether `after` is what `before` becomes when handed `sample` (left, right).
    open spec fn sample_taken(before: Self, after: Self, sample: (i16, i16)) -> bool {
        arbitrary()
    }

    fn push_sample(&mut self, sample: (i16, i16))
        ensures
            Self::sample_taken(*old(self), *final(self), sample),
    ;
}

/// Whether callback state `cbs[i + 1]` is what `cbs[i]` becomes when handed `samples[i]`.
pub open spec fn sample_step_taken<C: Callback>(cbs: Seq<C>, samples: Seq<(i16, i16)>, i: int) -> bool {
    C::sample_taken(cbs[i], cbs[i + 1], samples[i])
}

/// Whether `cbs` is the succession of a callback's states as it is handed `samples` in order.
pub open spec fn samples_taken<C: Callback>(cbs: Seq<C>, samples: Seq<(i16, i16)>) -> bool {
    &&& cbs.len() == samples.len() + 1
    &&& forall|i: int| 0 <= i < samples.len() ==> #[trigger] sample_step_taken(cbs, samples, i)
}

/// CPU cycles per clock of the channels' frequency timers, which run at 2,097,152 Hz; one
/// sample is mixed per clock.
pub const CYCLES_PER_SAMPLE: u16 = 8;

/// The rate at which samples are produced (very slightly slower than the hardware's timers).
pub const SAMPLE_FREQUENCY: u32 = 2_097_485;

/// CPU cycles per clock of the frame sequencer, which runs at 512 Hz.
pub const CYCLES_PER_FRAME_SEQ_CLOCK: u16 = 32773;

/// The model of the sound unit.
pub struct AudioModel {
    pub tone_sweep: ToneAndSweepModel,
    pub tone: ToneModel,
    pub wave: WaveModel,
    pub noise: NoiseModel,
    pub fifo_a: FifoModel,
    pub fifo_b: FifoModel,
    pub frame_seq_step: u8,
    pub frame_seq_cycle_accum: u16,
    pub freq_timer_cycles_accum: u16,
    /// Timer overflows not yet handed to each FIFO.
    pub fifo_pending_steps: Seq<u8>,
    pub enabled: bool,
    /// For each half of the mixed sample, which of the six channels (four tone/wave/noise
    /// channels, then FIFO A and B) it includes.
    pub out_channels: Seq<Seq<bool>>,
    /// For each half of the mixed sample, the master volume (0 to 7) of the first four
    /// channels.
    pub out_dmg_volume: Seq<u8>,
    /// The first four channels play at a quarter (0), half (1) or full (2) volume.
    pub dmg_volume_ratio: u8,
    /// Whether each FIFO plays at full volume, else half.
    pub fifo_full_volume: Seq<bool>,
    /// The timer (0 or 1) whose overflows drain each FIFO.
    pub fifo_timer_idx: Seq<usize>,
    /// The DC offset added before clipping to the DAC's 10-bit range.
    pub bias: i16,
    pub sampling_cycle: u8,
    pub cached_soundcnt_bits: u64,
    pub cached_soundbias_bits: u64,
}

/// The sound unit: four tone/wave/noise channels, two direct-sound FIFOs, and the mixer.
#[derive(Debug)]
pub struct Audio {
    tone_sweep: ToneAndSweep,
    tone: Tone,
    wave: Wave,
    noise: Noise,
    fifo_a: Fifo<true>,
    fifo_b: Fifo<false>,
    frame_seq_step: u8,
    frame_seq_cycle_accum: u16,
    freq_timer_cycles_accum: u16,
    fifo_pending_steps: [u8; 2],
    enabled: bool,
    out_channels: [[bool; 6]; 2],
    out_dmg_volume: [u8; 2],
    dmg_volume_ratio: u8,
    fifo_full_volume: [bool; 2],
    fifo_timer_idx: [usize; 2],
    bias: i16,
    sampling_cycle: u8,
    mix_cache: Mix,
    cached_soundcnt_bits: u64,
    cached_soundbias_bits: u64,
}

impl View for Audio {
    type V = AudioModel;

    closed spec fn view(&self) -> AudioModel {
        AudioModel {
            tone_sweep: self.tone_sweep@,
            tone: self.tone@,
            wave: self.wave@,
            noise: self.noise@,
            fifo_a: self.fifo_a@,
            fifo_b: self.fifo_b@,
            frame_seq_step: self.frame_seq_step,
            frame_seq_cycle_accum: self.frame_seq_cycle_accum,
            freq_timer_cycles_accum: self.freq_timer_cycles_accum,
            fifo_pending_steps: self.fifo_pending_steps@,
            enabled: self.enabled,
            out_channels: self.out_channels@.map_values(|o: [bool; 6]| o@),
            out_dmg_volume: self.out_dmg_volume@,
            dmg_volume_ratio: self.dmg_volume_ratio,
            fifo_full_volume: self.fifo_full_volume@,
            fifo_timer_idx: self.fifo_timer_idx@,
            bias: self.bias,
            sampling_cycle: self.sampling_cycle,
            cached_soundcnt_bits: self.cached_soundcnt_bits,
            cached_soundbias_bits: self.cached_soundbias_bits,
        }
    }
}

/// The outputs of the four tone/wave/noise channels.
pub open spec fn dmg_volumes(m: AudioModel) -> Seq<u8> {
    seq![m.tone_sweep.tone.volume(), m.tone.volume(), m.wave.output(), m.noise.volume()]
}

/// The samples of the two FIFOs.
pub open spec fn fifo_samples(m: AudioModel) -> Seq<i8> {
    seq![m.fifo_a.sample, m.fifo_b.sample]
}

/// The sum of the outputs of the first four channels that `out` includes.
pub open spec fn dmg_sum(volumes: Seq<u8>, out: Seq<bool>) -> int {
    (if out[0] {
        volumes[0] as int
    } else {
        0
    }) + (if out[1] {
        volumes[1] as int
    } else {
        0
    }) + (if out[2] {
        volumes[2] as int
    } else {
        0
    }) + (if out[3] {
        volumes[3] as int
    } else {
        0
    })
}

/// The divisor that the volume ratio setting applies: quarter, half or full volume.
pub open spec fn ratio_divisor(ratio: u8) -> int {
    if ratio == 0 {
        4
    } else if ratio == 1 {
        2
    } else {
        1
    }
}

/// One half of the first four channels' mix: their sum, times the master volume plus one,
/// scaled by the volume ratio.
pub open spec fn mix_dmg(volumes: Seq<u8>, out: Seq<bool>, out_volume: u8, ratio: u8) -> int {
    dmg_sum(volumes, out) * (out_volume + 1) / ratio_divisor(ratio)
}

/// One half of the FIFOs' mix: each included FIFO's sample, times 4 at full volume, else 2.
pub open spec fn mix_fifo(samples: Seq<i8>, out: Seq<bool>, full: Seq<bool>) -> int {
    (if out[4] {
        samples[0] * (if full[0] {
            4int
        } else {
            2int
        })
    } else {
        0
    }) + (if out[5] {
        samples[1] * (if full[1] {
            4int
        } else {
            2int
        })
    } else {
        0
    })
}

/// Both halves of the first four channels' mix for outputs `volumes`.
pub open spec fn dmg_pair(volumes: Seq<u8>, m: AudioModel) -> (i16, i16) {
    (
        mix_dmg(volumes, m.out_channels[0], m.out_dmg_volume[0], m.dmg_volume_ratio) as i16,
        mix_dmg(volumes, m.out_channels[1], m.out_dmg_volume[1], m.dmg_volume_ratio) as i16,
    )
}

/// Both halves of the FIFOs' mix for samples `samples`.
pub open spec fn fifo_pair(samples: Seq<i8>, m: AudioModel) -> (i16, i16) {
    (
        mix_fifo(samples, m.out_channels[0], m.fifo_full_volume) as i16,
        mix_fifo(samples, m.out_channels[1], m.fifo_full_volume) as i16,
    )
}

pub open spec fn clamp(x: int, lo: int, hi: int) -> int {
    if x < lo {
        lo
    } else if x > hi {
        hi
    } else {
        x
    }
}

/// The DAC's output for a mixed value: offset by the bias, clipped to 10 bits, the bias taken
/// off again, and scaled (saturating) to the 16-bit range.
pub open spec fn output_sample(mixed: int, bias: i16) -> i16 {
    clamp((clamp(mixed + bias, 0, 0x3ff) - bias) * 63, -0x8000, 0x7fff) as i16
}

/// The sample made of the two mixes.
pub open spec fn combined(dmg: (i16, i16), fifo: (i16, i16), bias: i16) -> (i16, i16) {
    (output_sample(dmg.0 + fifo.0, bias), output_sample(dmg.1 + fifo.1, bias))
}

/// The sample that the sound unit outputs in state `m`.
pub open spec fn mixed(m: AudioModel) -> (i16, i16) {
    combined(dmg_pair(dmg_volumes(m), m), fifo_pair(fifo_samples(m), m), m.bias)
}

/// The cache holds only what mixing would compute again: a cached part is the mix of the
/// outputs it was cached for, and a cached sample combines the two cached parts.
pub open spec fn cache_valid(m: AudioModel, c: MixModel) -> bool {
    &&& (c.dmg matches Some((v, s)) ==> s == dmg_pair(v@, m))
    &&& (c.fifo matches Some((f, s)) ==> s == fifo_pair(f@, m))
    &&& (c.mixed_sample matches Some(x) ==> {
        &&& c.dmg matches Some((v, s1))
        &&& c.fifo matches Some((f, s2))
        &&& x == combined(s1, s2, m.bias)
    })
}

impl AudioModel {
    pub open spec fn wf(self) -> bool {
        &&& self.tone_sweep.wf()
        &&& self.tone.wf()
        &&& self.wave.wf()
        &&& self.noise.wf()
        &&& self.fifo_a.wf()
        &&& self.fifo_b.wf()
        &&& self.frame_seq_step < 8
        &&& self.frame_seq_cycle_accum < CYCLES_PER_FRAME_SEQ_CLOCK
        &&& self.freq_timer_cycles_accum < CYCLES_PER_SAMPLE
        &&& self.fifo_pending_steps.len() == 2
        &&& self.out_channels.len() == 2
        &&& self.out_channels[0].len() == 6
        &&& self.out_channels[1].len() == 6
        &&& self.out_dmg_volume.len() == 2
        &&& self.fifo_full_volume.len() == 2
        &&& self.fifo_timer_idx.len() == 2
        &&& self.out_dmg_volume[0] < 8
        &&& self.out_dmg_volume[1] < 8
        &&& self.dmg_volume_ratio <= 2
        &&& self.fifo_timer_idx[0] < 2
        &&& self.fifo_timer_idx[1] < 2
        &&& 0 <= self.bias < 0x200
        &&& self.sampling_cycle < 4
    }
}

/// Each channel's output is at most 15.
proof fn lemma_volumes_bounded(m: AudioModel)
    requires
        m.wf(),
    ensures
        forall|i: int| 0 <= i < 4 ==> #[trigger] dmg_volumes(m)[i] <= 15,
{
    let w = m.wave;
    let byte = w.banks[w.bank_idx as int][(w.sample_idx / 2) as int];
    let shifted = byte >> (4 * (w.sample_idx % 2)) as u8;
    lemma_u8_fields(shifted);
    let sample = w.current_sample();
    if w.volume > 0 {
        lemma_shr_le_u8(sample, (w.volume - 1) as u8);
    }
    assert(w.output() <= 15);
}

/// Bounds of the two parts of the mix.
proof fn lemma_mix_bounds(m: AudioModel)
    requires
        m.wf(),
    ensures
        0 <= mix_dmg(dmg_volumes(m), m.out_channels[0], m.out_dmg_volume[0], m.dmg_volume_ratio)
            <= 480,
        0 <= mix_dmg(dmg_volumes(m), m.out_channels[1], m.out_dmg_volume[1], m.dmg_volume_ratio)
            <= 480,
        -1024 <= mix_fifo(fifo_samples(m), m.out_channels[0], m.fifo_full_volume) <= 1016,
        -1024 <= mix_fifo(fifo_samples(m), m.out_channels[1], m.fifo_full_volume) <= 1016,
{
    lemma_volumes_bounded(m);
    let v = dmg_volumes(m);
    assert(v[0] <= 15 && v[1] <= 15 && v[2] <= 15 && v[3] <= 15);
    let d = ratio_divisor(m.dmg_volume_ratio);
    let s0 = dmg_sum(v, m.out_channels[0]);
    let s1 = dmg_sum(v, m.out_channels[1]);
    let w0 = m.out_dmg_volume[0] + 1;
    let w1 = m.out_dmg_volume[1] + 1;
    assert(0 <= s0 * w0 / d <= 480) by (nonlinear_arith)
        requires
            0 <= s0 <= 60,
            1 <= w0 <= 8,
            1 <= d <= 4,
    ;
    assert(0 <= s1 * w1 / d <= 480) by (nonlinear_arith)
        requires
            0 <= s1 <= 60,
            1 <= w1 <= 8,
            1 <= d <= 4,
    ;
}

/// Bits 0-3 of SOUNDCNT_X: which of the four tone/wave/noise channels are playing.
pub open spec fn channel_flags(m: AudioModel) -> u8 {
    ((if m.tone_sweep.tone.length_and_envelope.length.channel_enabled {
        1int
    } else {
        0
    }) + (if m.tone.length_and_envelope.length.channel_enabled {
        2int
    } else {
        0
    }) + (if m.wave.length.channel_enabled {
        4int
    } else {
        0
    }) + (if m.noise.length_and_envelope.length.channel_enabled {
        8int
    } else {
        0
    })) as u8
}

/// The byte read at `addr` (0x60 to 0xa7): the channels' control registers and SOUNDCNT and
/// SOUNDBIAS read back as written, except that bits 0-3 of SOUNDCNT_X tell which channels
/// play; wave RAM reads the bank not being played, and the FIFOs read as 0.
pub open spec fn audio_read_value(m: AudioModel, addr: u32) -> u8 {
    let i = (addr % 8) as u64;
    if addr < 0x68 {
        byte_of(m.tone_sweep.cached_bits, i)
    } else if addr < 0x70 {
        byte_of(m.tone.cached_bits, i)
    } else if addr < 0x78 {
        byte_of(m.wave.cached_bits, i)
    } else if addr < 0x80 {
        byte_of(m.noise.cached_bits, i)
    } else if addr < 0x88 {
        let b = byte_of(m.cached_soundcnt_bits, i);
        if addr == 0x84 {
            (b & 0xf0) | channel_flags(m)
        } else {
            b
        }
    } else if addr < 0x90 {
        byte_of(m.cached_soundbias_bits, i)
    } else if addr < 0xa0 {
        m.wave.banks[m.wave.ram_bank()][(addr % 16) as int]
    } else {
        0
    }
}

pub open spec fn flag(value: u8, i: u8) -> bool {
    (value >> i) & 1 == 1
}

/// The FIFO emptied and silenced.
pub open spec fn fifo_reset(f: FifoModel) -> FifoModel {
    FifoModel { sample: 0, start_idx: 0, len: 0, ..f }
}

/// Writing byte `i` of SOUNDCNT (whose cached bits are already updated). Byte 0 sets the
/// master volumes of the first four channels, byte 1 which of them each half includes, byte 2
/// the volume ratio (3 meaning 2) and the FIFOs' full volume, byte 3 which half includes each
/// FIFO, the timer draining it, and resets it; bit 7 of byte 4 enables the sound unit.
pub open spec fn soundcnt_written(m: AudioModel, i: int, value: u8) -> AudioModel {
    if i == 0 {
        AudioModel { out_dmg_volume: seq![value & 7, (value >> 4u8) & 7], ..m }
    } else if i == 1 {
        AudioModel {
            out_channels: seq![
                m.out_channels[0].update(0, flag(value, 0)).update(1, flag(value, 1)).update(
                    2,
                    flag(value, 2),
                ).update(3, flag(value, 3)),
                m.out_channels[1].update(0, flag(value, 4)).update(1, flag(value, 5)).update(
                    2,
                    flag(value, 6),
                ).update(3, flag(value, 7)),
            ],
            ..m
        }
    } else if i == 2 {
        AudioModel {
            dmg_volume_ratio: if value & 3 > 2 {
                2
            } else {
                value & 3
            },
            fifo_full_volume: seq![flag(value, 2), flag(value, 3)],
            ..m
        }
    } else if i == 3 {
        AudioModel {
            out_channels: seq![
                m.out_channels[0].update(4, flag(value, 1)).update(5, flag(value, 5)),
                m.out_channels[1].update(4, flag(value, 0)).update(5, flag(value, 4)),
            ],
            fifo_timer_idx: seq![
                if flag(value, 2) {
                    1usize
                } else {
                    0usize
                },
                if flag(value, 6) {
                    1usize
                } else {
                    0usize
                },
            ],
            fifo_a: if flag(value, 3) {
                fifo_reset(m.fifo_a)
            } else {
                m.fifo_a
            },
            fifo_b: if flag(value, 7) {
                fifo_reset(m.fifo_b)
            } else {
                m.fifo_b
            },
            ..m
        }
    } else if i == 4 {
        // Turning the sound unit off leaves the channels' registers as they are. Hardware
        // clears them (every register from 0x60 to 0x81), and clearing was evidently meant
        // here, but the clearing writes are themselves ignored once the unit is off, so they
        // have no effect: this model keeps that behaviour.
        AudioModel { enabled: flag(value, 7), ..m }
    } else {
        m
    }
}

/// Writing byte `i` of SOUNDBIAS (whose cached bits are already updated): bits 1-7 of byte 0
/// and bits 0-1 of byte 1 form the 9-bit bias, and bits 6-7 of byte 1 the sampling cycle.
pub open spec fn soundbias_written(m: AudioModel, i: int, value: u8) -> AudioModel {
    if i == 0 {
        AudioModel { bias: ((m.bias / 128) * 128 + value / 2) as i16, ..m }
    } else if i == 1 {
        AudioModel { bias: (m.bias % 128 + (value % 4) * 128) as i16, sampling_cycle: value >> 6u8, ..m }
    } else {
        m
    }
}

/// The model after `value` is written to `addr` (0x60 to 0xa7). While the sound unit is
/// disabled, writes to the channels' registers and to SOUNDCNT_L are ignored.
pub open spec fn audio_written(m: AudioModel, addr: u32, value: u8) -> AudioModel {
    let i = (addr % 8) as int;
    if !m.enabled && 0x60 <= addr <= 0x81 {
        m
    } else if addr < 0x68 {
        AudioModel { tone_sweep: m.tone_sweep.with_ctrl_byte(i, value), ..m }
    } else if addr < 0x70 {
        AudioModel { tone: m.tone.with_ctrl_byte(i, value), ..m }
    } else if addr < 0x78 {
        AudioModel { wave: m.wave.with_ctrl_byte(i, value), ..m }
    } else if addr < 0x80 {
        AudioModel { noise: m.noise.with_ctrl_byte(i, value), ..m }
    } else if addr < 0x88 {
        soundcnt_written(
            AudioModel {
                cached_soundcnt_bits: with_byte(m.cached_soundcnt_bits, i as u64, value),
                ..m
            },
            i,
            value,
        )
    } else if addr < 0x90 {
        soundbias_written(
            AudioModel {
                cached_soundbias_bits: with_byte(m.cached_soundbias_bits, i as u64, value),
                ..m
            },
            i,
            value,
        )
    } else if addr < 0xa0 {
        AudioModel { wave: m.wave.with_ram_byte((addr % 16) as int, value), ..m }
    } else if addr < 0xa4 {
        AudioModel { fifo_a: m.fifo_a.pushed(value), ..m }
    } else {
        AudioModel { fifo_b: m.fifo_b.pushed(value), ..m }
    }
}

/// Only the channels and FIFOs differ between `a` and `b`: the mixer's settings are equal.
pub open spec fn same_mixer_settings(a: AudioModel, b: AudioModel) -> bool {
    &&& a.out_channels == b.out_channels
    &&& a.out_dmg_volume == b.out_dmg_volume
    &&& a.dmg_volume_ratio == b.dmg_volume_ratio
    &&& a.fifo_full_volume == b.fifo_full_volume
    &&& a.bias == b.bias
}

/// Mixer settings that stay the same keep a valid cache valid.
proof fn lemma_cache_kept(a: AudioModel, b: AudioModel, c: MixModel)
    requires
        cache_valid(a, c),
        same_mixer_settings(a, b),
    ensures
        cache_valid(b, c),
{
}

fn flag_of(value: u8, i: u8) -> (r: bool)
    requires
        i < 8,
    ensures
        r == flag(value, i),
{
    (value >> i) & 1 == 1
}

/// The length counter of a channel with a length counter and an envelope, clocked.
pub open spec fn lae_length_stepped(lae: LengthAndEnvelopeModel) -> LengthAndEnvelopeModel {
    LengthAndEnvelopeModel { length: lae.length.stepped(), ..lae }
}


/// The sound unit after `count` overflows of timer `timer_idx`: the pending step count of each
/// FIFO that the timer drains grows by `count`, wrapping around.
pub open spec fn timer_overflow_notified(m: AudioModel, timer_idx: usize, count: u8) -> AudioModel {
    AudioModel {
        fifo_pending_steps: seq![
            if m.fifo_timer_idx[0] == timer_idx {
                vstd::wrapping::u8_specs::wrapping_add(m.fifo_pending_steps[0], count)
            } else {
                m.fifo_pending_steps[0]
            },
            if m.fifo_timer_idx[1] == timer_idx {
                vstd::wrapping::u8_specs::wrapping_add(m.fifo_pending_steps[1], count)
            } else {
                m.fifo_pending_steps[1]
            },
        ],
        ..m
    }
}

/// One clock of the frame sequencer, which cycles through 8 steps: the length counters are
/// clocked on even steps, the sweep on steps 2 and 6 and the envelopes on step 7.
pub open spec fn frame_seq_clocked(m: AudioModel) -> AudioModel {
    let step = m.frame_seq_step;
    let m1 = if step % 2 == 0 {
        AudioModel {
            tone_sweep: ToneAndSweepModel {
                tone: ToneModel {
                    length_and_envelope: lae_length_stepped(m.tone_sweep.tone.length_and_envelope),
                    ..m.tone_sweep.tone
                },
                ..m.tone_sweep
            },
            tone: ToneModel {
                length_and_envelope: lae_length_stepped(m.tone.length_and_envelope),
                ..m.tone
            },
            wave: WaveModel { length: m.wave.length.stepped(), ..m.wave },
            noise: NoiseModel {
                length_and_envelope: lae_length_stepped(m.noise.length_and_envelope),
                ..m.noise
            },
            ..m
        }
    } else {
        m
    };
    let m2 = if step == 2 || step == 6 {
        AudioModel { tone_sweep: m1.tone_sweep.sweep_stepped(), ..m1 }
    } else if step == 7 {
        AudioModel {
            tone_sweep: ToneAndSweepModel {
                tone: ToneModel {
                    length_and_envelope: m1.tone_sweep.tone.length_and_envelope.envelope_stepped(),
                    ..m1.tone_sweep.tone
                },
                ..m1.tone_sweep
            },
            tone: ToneModel {
                length_and_envelope: m1.tone.length_and_envelope.envelope_stepped(),
                ..m1.tone
            },
            noise: NoiseModel {
                length_and_envelope: m1.noise.length_and_envelope.envelope_stepped(),
                ..m1.noise
            },
            ..m1
        }
    } else {
        m1
    };
    AudioModel { frame_seq_step: ((step + 1) % 8) as u8, ..m2 }
}

/// `cycles` more cycles for the frame sequencer, which clocks once the cycles add up to a
/// clock's worth.
pub open spec fn after_frame_seq(m: AudioModel, cycles: u8) -> AudioModel {
    let accum = m.frame_seq_cycle_accum + cycles;
    if accum >= CYCLES_PER_FRAME_SEQ_CLOCK {
        AudioModel {
            frame_seq_cycle_accum: (accum - CYCLES_PER_FRAME_SEQ_CLOCK) as u16,
            ..frame_seq_clocked(m)
        }
    } else {
        AudioModel { frame_seq_cycle_accum: accum as u16, ..m }
    }
}

/// The DMA request that a FIFO drained by `steps` makes (`after` being its new state).
pub open spec fn fifo_event(after: FifoModel, steps: u8, fifo_a: bool) -> Option<Event> {
    if steps != 0 && after.len <= 16 {
        Some(
            if fifo_a {
                Event::AudioFifoA
            } else {
                Event::AudioFifoB
            },
        )
    } else {
        None
    }
}

/// The FIFOs drained by the timer overflows handed to them.
pub open spec fn after_fifos(m: AudioModel) -> AudioModel {
    AudioModel {
        fifo_a: m.fifo_a.stepped(m.fifo_pending_steps[0]),
        fifo_b: m.fifo_b.stepped(m.fifo_pending_steps[1]),
        fifo_pending_steps: seq![0u8, 0u8],
        ..m
    }
}

/// The DMA channels after the FIFOs' requests: FIFO A's first, then FIFO B's.
pub open spec fn dma_after_fifos(m: AudioModel, dma: Seq<crate::dma::Channel>) -> Seq<
    crate::dma::Channel,
> {
    let d1 = match fifo_event(m.fifo_a.stepped(m.fifo_pending_steps[0]), m.fifo_pending_steps[0], true) {
        Some(e) => notified(dma, e),
        None => dma,
    };
    match fifo_event(m.fifo_b.stepped(m.fifo_pending_steps[1]), m.fifo_pending_steps[1], false) {
        Some(e) => notified(d1, e),
        None => d1,
    }
}

/// One clock of the channels' frequency timers.
pub open spec fn channels_clocked(m: AudioModel) -> AudioModel {
    AudioModel {
        tone_sweep: ToneAndSweepModel { tone: m.tone_sweep.tone.duty_stepped(), ..m.tone_sweep },
        tone: m.tone.duty_stepped(),
        wave: m.wave.wave_stepped(),
        noise: m.noise.noise_stepped(),
        ..m
    }
}

/// `n` clocks of the frequency timers, each followed by mixing a sample.
pub open spec fn freq_clocked(m: AudioModel, n: nat) -> (AudioModel, Seq<(i16, i16)>)
    decreases n,
{
    if n == 0 {
        (m, seq![])
    } else {
        let (m1, samples) = freq_clocked(m, (n - 1) as nat);
        let m2 = channels_clocked(m1);
        (m2, samples.push(mixed(m2)))
    }
}

/// `cycles` cycles of the sound unit: the frame sequencer, the FIFOs, then as many clocks of
/// the frequency timers (and samples) as the cycles add up to. A disabled unit does nothing.
pub open spec fn audio_stepped(m: AudioModel, cycles: u8) -> (AudioModel, Seq<(i16, i16)>) {
    if !m.enabled {
        (m, seq![])
    } else {
        let m1 = after_fifos(after_frame_seq(m, cycles));
        let accum = m1.freq_timer_cycles_accum + cycles;
        freq_clocked(
            AudioModel { freq_timer_cycles_accum: (accum % CYCLES_PER_SAMPLE as int) as u16, ..m1 },
            (accum / CYCLES_PER_SAMPLE as int) as nat,
        )
    }
}

/// The DMA channels after `cycles` cycles of the sound unit in state `m`.
pub open spec fn audio_step_dma(m: AudioModel, cycles: u8, dma: Seq<crate::dma::Channel>) -> Seq<
    crate::dma::Channel,
> {
    if !m.enabled {
        dma
    } else {
        dma_after_fifos(after_frame_seq(m, cycles), dma)
    }
}


/// Clocking the frequency timers changes only the channels.
proof fn lemma_freq_clocked(m: AudioModel, n: nat)
    ensures
        freq_clocked(m, n).0.noise.period_shift == m.noise.period_shift,
        freq_clocked(m, n).1.len() == n,
        same_mixer_settings(m, freq_clocked(m, n).0),
        freq_clocked(m, n).0 == (AudioModel {
            tone_sweep: freq_clocked(m, n).0.tone_sweep,
            tone: freq_clocked(m, n).0.tone,
            wave: freq_clocked(m, n).0.wave,
            noise: freq_clocked(m, n).0.noise,
            ..m
        }),
    decreases n,
{
    if n > 0 {
        lemma_freq_clocked(m, (n - 1) as nat);
    }
}

/// The sound unit's control registers read back as written: SOUNDBIAS always, SOUNDCNT_H and
/// the SOUNDCNT_X bytes past the channel flags always, and the channels' control registers
/// and SOUNDCNT_L while the unit is enabled (bits 0-3 of SOUNDCNT_X tell which channels play
/// instead).
pub proof fn lemma_audio_ctrl_read_back(m: AudioModel, addr: u32, value: u8)
    requires
        0x60 <= addr < 0x90,
        addr != 0x84,
        m.enabled || addr > 0x81,
    ensures
        audio_read_value(audio_written(m, addr, value), addr) == value,
{
    let i = (addr % 8) as u64;
    if addr < 0x68 {
        lemma_with_byte(m.tone_sweep.cached_bits, i, i, value);
    } else if addr < 0x70 {
        lemma_with_byte(m.tone.cached_bits, i, i, value);
    } else if addr < 0x78 {
        lemma_with_byte(m.wave.cached_bits, i, i, value);
    } else if addr < 0x80 {
        lemma_with_byte(m.noise.cached_bits, i, i, value);
    } else if addr < 0x88 {
        lemma_with_byte(m.cached_soundcnt_bits, i, i, value);
    } else {
        lemma_with_byte(m.cached_soundbias_bits, i, i, value);
    }
}

/// The state of a sound unit just made: everything silent, disabled and 0.
pub open spec fn initial_audio() -> AudioModel {
    let tone = ToneModel {
        length_and_envelope: LengthAndEnvelopeModel::zeroed(),
        frequency: 0,
        duty_mode: 0,
        duty_step: 0,
        duty_step_clocks: 0,
        cached_bits: 0,
    };
    AudioModel {
        tone_sweep: ToneAndSweepModel {
            tone,
            sweep_enabled: false,
            sweep_shadow_frequency: 0,
            sweep_shift: 0,
            sweep_decrease: false,
            sweep_period: 0,
            sweep_clocks: 0,
            cached_bits: 0,
        },
        tone,
        wave: WaveModel {
            length: LengthModel::zeroed(),
            banks: seq![Seq::new(16, |i: int| 0u8), Seq::new(16, |i: int| 0u8)],
            two_banks: false,
            bank_idx: 0,
            bank_initial_idx: 0,
            play: false,
            sample_rate: 0,
            sample_idx: 0,
            volume: 0,
            force_75_volume: false,
            clocks: 0,
            cached_bits: 0,
        },
        noise: NoiseModel {
            length_and_envelope: LengthAndEnvelopeModel::zeroed(),
            lfsr: 0x7fff,
            half_width: false,
            period: 0,
            period_shift: 0,
            clocks: 0,
            cached_bits: 0,
        },
        fifo_a: FifoModel { sample: 0, samples: Seq::new(32, |i: int| 0i8), start_idx: 0, len: 0 },
        fifo_b: FifoModel { sample: 0, samples: Seq::new(32, |i: int| 0i8), start_idx: 0, len: 0 },
        frame_seq_step: 0,
        frame_seq_cycle_accum: 0,
        freq_timer_cycles_accum: 0,
        fifo_pending_steps: seq![0u8, 0u8],
        enabled: false,
        out_channels: seq![Seq::new(6, |i: int| false), Seq::new(6, |i: int| false)],
        out_dmg_volume: seq![0u8, 0u8],
        dmg_volume_ratio: 0,
        fifo_full_volume: seq![false, false],
        fifo_timer_idx: seq![0usize, 0usize],
        bias: 0,
        sampling_cycle: 0,
        cached_soundcnt_bits: 0,
        cached_soundbias_bits: 0,
    }
}

impl Audio {
    /// The model is well formed and the mixing cache agrees with it.
    pub closed spec fn wf(&self) -> bool {
        &&& self@.wf()
        &&& cache_valid(self@, self.mix_cache@)
    }

    /// Mixes the current outputs of the channels into one sample, reusing what the cache
    /// holds for outputs that did not change.
    fn mix_sample(&mut self) -> (r: (i16, i16))
        requires
            old(self).wf(),
        ensures
            final(self).wf(),
            final(self)@ == old(self)@,
            r == mixed(old(self)@),
    {
        let volumes: [u8; 4] = [
            self.tone_sweep.volume(),
            self.tone.volume(),
            self.wave.volume(),
            self.noise.volume(),
        ];
        let samples: [i8; 2] = [self.fifo_a.sample(), self.fifo_b.sample()];
        assert(volumes@ =~= dmg_volumes(self@));
        proof {
            lemma_volumes_bounded(self@);
            lemma_mix_bounds(self@);
        }
        assert(samples@ =~= fifo_samples(self@));

        // The cached parts must be dropped when the channels' outputs changed.
        let dmg_cached = match self.mix_cache.dmg() {
            Some((v, _)) => v[0] == volumes[0] && v[1] == volumes[1] && v[2] == volumes[2]
                && v[3] == volumes[3],
            None => false,
        };
        if !dmg_cached {
            self.mix_cache.set_dmg(None);
        }
        let fifo_cached = match self.mix_cache.fifo() {
            Some((f, _)) => f[0] == samples[0] && f[1] == samples[1],
            None => false,
        };
        if !fifo_cached {
            self.mix_cache.set_fifo(None);
        }
        proof {
            if let Some((v, _)) = self.mix_cache@.dmg {
                assert(v@ =~= volumes@);
            }
            if let Some((f, _)) = self.mix_cache@.fifo {
                assert(f@ =~= samples@);
            }
        }
        if let Some(mixed_sample) = self.mix_cache.mixed_sample() {
            return mixed_sample;
        }
        let dmg_sample = match self.mix_cache.dmg() {
            Some((_, sample)) => sample,
            None => {
                let sample = (
                    self.mix_dmg(&volumes, 0),
                    self.mix_dmg(&volumes, 1),
                );
                self.mix_cache.set_dmg(Some((volumes, sample)));
                sample
            },
        };
        let fifo_sample = match self.mix_cache.fifo() {
            Some((_, sample)) => sample,
            None => {
                let sample = (self.mix_fifo(&samples, 0), self.mix_fifo(&samples, 1));
                self.mix_cache.set_fifo(Some((samples, sample)));
                sample
            },
        };
        let mixed_sample = (
            self.output_sample(dmg_sample.0 + fifo_sample.0),
            self.output_sample(dmg_sample.1 + fifo_sample.1),
        );
        self.mix_cache.set_mixed_sample(Some(mixed_sample));
        mixed_sample
    }

    /// Reads the I/O register byte at `addr` (0x60 to 0xa7).
    pub fn read_byte(&mut self, addr: u32) -> (r: u8)
        requires
            old(self).wf(),
            0x60 <= addr < 0xa8,
        ensures
            final(self).wf(),
            final(self)@ == old(self)@,
            r == audio_read_value(old(self)@, addr),
    {
        let i = (addr % 8) as u64;
        if addr < 0x68 {
            ((self.tone_sweep.ctrl_bits() >> (8 * i)) & 0xff) as u8
        } else if addr < 0x70 {
            ((self.tone.ctrl_bits() >> (8 * i)) & 0xff) as u8
        } else if addr < 0x78 {
            ((self.wave.ctrl_bits() >> (8 * i)) & 0xff) as u8
        } else if addr < 0x80 {
            ((self.noise.ctrl_bits() >> (8 * i)) & 0xff) as u8
        } else if addr < 0x88 {
            let b = ((self.cached_soundcnt_bits >> (8 * i)) & 0xff) as u8;
            if addr == 0x84 {
                let mut flags: u8 = 0;
                if self.tone_sweep.is_channel_enabled() {
                    flags = flags + 1;
                }
                if self.tone.is_channel_enabled() {
                    flags = flags + 2;
                }
                if self.wave.is_channel_enabled() {
                    flags = flags + 4;
                }
                if self.noise.is_channel_enabled() {
                    flags = flags + 8;
                }
                (b & 0xf0) | flags
            } else {
                b
            }
        } else if addr < 0x90 {
            ((self.cached_soundbias_bits >> (8 * i)) & 0xff) as u8
        } else if addr < 0xa0 {
            self.wave.read_ram_byte(addr % 16)
        } else {
            0
        }
    }

    /// Writes the I/O register byte at `addr` (0x60 to 0xa7). Changing a mixer setting drops
    /// the parts of the mixing cache that depend on it.
    pub fn write_byte(&mut self, addr: u32, value: u8)
        requires
            old(self).wf(),
            0x60 <= addr < 0xa8,
        ensures
            final(self).wf(),
            final(self)@ == audio_written(old(self)@, addr, value),
    {
        if !self.enabled && 0x60 <= addr && addr <= 0x81 {
            return;
        }
        let i = (addr % 8) as usize;
        if addr < 0x68 {
            self.tone_sweep.set_ctrl_byte(i, value);
        } else if addr < 0x70 {
            self.tone.set_ctrl_byte(i, value);
        } else if addr < 0x78 {
            self.wave.set_ctrl_byte(i, value);
        } else if addr < 0x80 {
            self.noise.set_ctrl_byte(i, value);
        } else if addr < 0x88 {
            self.write_soundcnt_byte(i, value);
        } else if addr < 0x90 {
            self.write_soundbias_byte(i, value);
        } else if addr < 0xa0 {
            self.wave.write_ram_byte(addr % 16, value);
        } else if addr < 0xa4 {
            self.fifo_a.write_byte(addr % 4, value);
        } else {
            self.fifo_b.write_byte(addr % 4, value);
        }
    }

    #[verifier::spinoff_prover]
    #[verifier::rlimit(60)]
    fn write_soundcnt_byte(&mut self, i: usize, value: u8)
        requires
            old(self).wf(),
            i < 8,
        ensures
            final(self).wf(),
            final(self)@ == soundcnt_written(
                AudioModel {
                    cached_soundcnt_bits: with_byte(old(self)@.cached_soundcnt_bits, i as u64, value),
                    ..old(self)@
                },
                i as int,
                value,
            ),
    {
        self.cached_soundcnt_bits = set_byte(self.cached_soundcnt_bits, i as u64, value);
        proof {
            lemma_u8_fields(value);
        }
        if i == 0 {
            self.out_dmg_volume = [value & 7, (value >> 4u8) & 7];
            assert(self.out_dmg_volume@ =~= seq![value & 7, (value >> 4u8) & 7]);
            self.mix_cache.set_dmg(None);
        } else if i == 1 {
            let mut first = self.out_channels[0];
            first[0] = flag_of(value, 0);
            first[1] = flag_of(value, 1);
            first[2] = flag_of(value, 2);
            first[3] = flag_of(value, 3);
            let mut second = self.out_channels[1];
            second[0] = flag_of(value, 4);
            second[1] = flag_of(value, 5);
            second[2] = flag_of(value, 6);
            second[3] = flag_of(value, 7);
            self.out_channels = [first, second];
            self.mix_cache.set_dmg(None);
            assert(self@.out_channels =~= soundcnt_written(old(self)@, 1, value).out_channels);
        } else if i == 2 {
            let ratio = value & 3;
            self.dmg_volume_ratio = if ratio > 2 {
                2
            } else {
                ratio
            };
            self.fifo_full_volume = [flag_of(value, 2), flag_of(value, 3)];
            assert(self.fifo_full_volume@ =~= seq![flag(value, 2), flag(value, 3)]);
            self.mix_cache.set_dmg(None);
            self.mix_cache.set_fifo(None);
        } else if i == 3 {
            let mut first = self.out_channels[0];
            first[4] = flag_of(value, 1);
            first[5] = flag_of(value, 5);
            let mut second = self.out_channels[1];
            second[4] = flag_of(value, 0);
            second[5] = flag_of(value, 4);
            self.out_channels = [first, second];
            let idx_a: usize = if flag_of(value, 2) {
                1
            } else {
                0
            };
            let idx_b: usize = if flag_of(value, 6) {
                1
            } else {
                0
            };
            self.fifo_timer_idx = [idx_a, idx_b];
            if flag_of(value, 3) {
                self.fifo_a.reset();
            }
            if flag_of(value, 7) {
                self.fifo_b.reset();
            }
            self.mix_cache.set_fifo(None);
            assert(self@.out_channels =~= soundcnt_written(old(self)@, 3, value).out_channels);
            assert(self.fifo_timer_idx@ =~= soundcnt_written(old(self)@, 3, value).fifo_timer_idx);
        } else if i == 4 {
            self.enabled = flag_of(value, 7);
        }
    }

    fn write_soundbias_byte(&mut self, i: usize, value: u8)
        requires
            old(self).wf(),
            i < 8,
        ensures
            final(self).wf(),
            final(self)@ == soundbias_written(
                AudioModel {
                    cached_soundbias_bits: with_byte(old(self)@.cached_soundbias_bits, i as u64, value),
                    ..old(self)@
                },
                i as int,
                value,
            ),
    {
        self.cached_soundbias_bits = set_byte(self.cached_soundbias_bits, i as u64, value);
        if i == 0 {
            self.bias = (self.bias / 128) * 128 + (value / 2) as i16;
        } else if i == 1 {
            self.bias = self.bias % 128 + ((value % 4) as i16) * 128;
            self.sampling_cycle = value >> 6u8;
            proof {
                lemma_u8_fields(value);
            }
        }
        self.mix_cache.set_mixed_sample(None);
    }

    /// A silent, disabled sound unit with every register 0 and an empty mixing cache.
    pub fn new() -> (r: Audio)
        ensures
            r.wf(),
            r@ == initial_audio(),
    {
        let r = Audio {
            tone_sweep: ToneAndSweep::default(),
            tone: Tone::default(),
            wave: Wave::default(),
            noise: Noise::default(),
            fifo_a: Fifo::default(),
            fifo_b: Fifo::default(),
            frame_seq_step: 0,
            frame_seq_cycle_accum: 0,
            freq_timer_cycles_accum: 0,
            fifo_pending_steps: [0; 2],
            enabled: false,
            out_channels: [[false; 6]; 2],
            out_dmg_volume: [0; 2],
            dmg_volume_ratio: 0,
            fifo_full_volume: [false; 2],
            fifo_timer_idx: [0; 2],
            bias: 0,
            sampling_cycle: 0,
            mix_cache: Mix::new(),
            cached_soundcnt_bits: 0,
            cached_soundbias_bits: 0,
        };
        assert(r@.out_channels[0] =~= Seq::new(6, |i: int| false));
        assert(r@.out_channels[1] =~= Seq::new(6, |i: int| false));
        assert(r@.out_channels =~= initial_audio().out_channels);
        assert(r@.fifo_pending_steps =~= initial_audio().fifo_pending_steps);
        assert(r@.out_dmg_volume =~= initial_audio().out_dmg_volume);
        assert(r@.fifo_full_volume =~= initial_audio().fifo_full_volume);
        assert(r@.fifo_timer_idx =~= initial_audio().fifo_timer_idx);
        r
    }

    /// Empties the mixing cache; with `skip_bios`, SOUNDBIAS is also set as the BIOS would
    /// leave it (a bias of 0x100).
    pub fn reset(&mut self, skip_bios: bool)
        requires
            old(self).wf(),
        ensures
            final(self).wf(),
            final(self)@ == (if skip_bios {
                audio_written(
                    audio_written(
                        audio_written(audio_written(old(self)@, 0x88, 0x00), 0x89, 0x02),
                        0x8a,
                        0x00,
                    ),
                    0x8b,
                    0x00,
                )
            } else {
                old(self)@
            }),
    {
        self.mix_cache = Mix::new();
        if skip_bios {
            self.write_byte(0x88, 0x00);
            self.write_byte(0x89, 0x02);
            self.write_byte(0x8a, 0x00);
            self.write_byte(0x8b, 0x00);
        }
    }

    /// Hands `count` overflows of timer `timer_idx` to the FIFOs that it drains (their pending
    /// step counts wrap around).
    pub fn notify_timer_overflow(&mut self, timer_idx: usize, count: u8)
        requires
            old(self).wf(),
        ensures
            final(self).wf(),
            final(self)@ == timer_overflow_notified(old(self)@, timer_idx, count),
    {
        if self.fifo_timer_idx[0] == timer_idx {
            self.fifo_pending_steps[0] = self.fifo_pending_steps[0].wrapping_add(count);
        }
        if self.fifo_timer_idx[1] == timer_idx {
            self.fifo_pending_steps[1] = self.fifo_pending_steps[1].wrapping_add(count);
        }
        assert(self@.fifo_pending_steps =~= timer_overflow_notified(old(self)@, timer_idx, count).fifo_pending_steps);
    }

    #[verifier::spinoff_prover]
    #[verifier::rlimit(60)]
    fn clock_lengths(&mut self)
        requires
            old(self).wf(),
        ensures
            final(self).wf(),
            final(self)@ == (AudioModel {
                tone_sweep: ToneAndSweepModel {
                    tone: ToneModel {
                        length_and_envelope: lae_length_stepped(
                            old(self)@.tone_sweep.tone.length_and_envelope,
                        ),
                        ..old(self)@.tone_sweep.tone
                    },
                    ..old(self)@.tone_sweep
                },
                tone: ToneModel {
                    length_and_envelope: lae_length_stepped(old(self)@.tone.length_and_envelope),
                    ..old(self)@.tone
                },
                wave: WaveModel { length: old(self)@.wave.length.stepped(), ..old(self)@.wave },
                noise: NoiseModel {
                    length_and_envelope: lae_length_stepped(old(self)@.noise.length_and_envelope),
                    ..old(self)@.noise
                },
                ..old(self)@
            }),
    {
        self.tone_sweep.length_and_envelope().step_length();
        self.tone.length_and_envelope().step_length();
        self.wave.length().step();
        self.noise.length_and_envelope().step_length();
        proof {
            lemma_cache_kept(old(self)@, self@, self.mix_cache@);
        }
    }

    fn clock_envelopes(&mut self)
        requires
            old(self).wf(),
        ensures
            final(self).wf(),
            final(self)@ == (AudioModel {
                tone_sweep: ToneAndSweepModel {
                    tone: ToneModel {
                        length_and_envelope: old(
                            self,
                        )@.tone_sweep.tone.length_and_envelope.envelope_stepped(),
                        ..old(self)@.tone_sweep.tone
                    },
                    ..old(self)@.tone_sweep
                },
                tone: ToneModel {
                    length_and_envelope: old(self)@.tone.length_and_envelope.envelope_stepped(),
                    ..old(self)@.tone
                },
                noise: NoiseModel {
                    length_and_envelope: old(self)@.noise.length_and_envelope.envelope_stepped(),
                    ..old(self)@.noise
                },
                ..old(self)@
            }),
    {
        self.tone_sweep.length_and_envelope().step_envelope();
        self.tone.length_and_envelope().step_envelope();
        self.noise.length_and_envelope().step_envelope();
        proof {
            lemma_cache_kept(old(self)@, self@, self.mix_cache@);
        }
    }

    fn clock_frame_seq(&mut self)
        requires
            old(self).wf(),
        ensures
            final(self).wf(),
            final(self)@ == frame_seq_clocked(old(self)@),
    {
        let step = self.frame_seq_step;
        if step % 2 == 0 {
            self.clock_lengths();
        }
        if step == 2 || step == 6 {
            self.tone_sweep.step_sweep();
            proof {
                lemma_cache_kept(old(self)@, self@, self.mix_cache@);
            }
        } else if step == 7 {
            self.clock_envelopes();
        }
        self.frame_seq_step = (step + 1) % 8;
    }

    /// The frame sequencer's share of `cycles` cycles, then the FIFOs drained.
    fn step_frame_seq_and_fifos(&mut self, dma: &mut Dma, cycles: u8)
        requires
            old(self).wf(),
            old(self)@.enabled,
        ensures
            final(self).wf(),
            final(self)@ == after_fifos(after_frame_seq(old(self)@, cycles)),
            final(dma)@ == audio_step_dma(old(self)@, cycles, old(dma)@),
    {
        self.frame_seq_cycle_accum = self.frame_seq_cycle_accum + cycles as u16;
        if self.frame_seq_cycle_accum >= CYCLES_PER_FRAME_SEQ_CLOCK {
            self.frame_seq_cycle_accum = self.frame_seq_cycle_accum - CYCLES_PER_FRAME_SEQ_CLOCK;
            self.clock_frame_seq();
        }
        let ghost framed = self@;
        assert(framed == after_frame_seq(old(self)@, cycles));
        let steps_a = self.fifo_pending_steps[0];
        self.fifo_pending_steps[0] = 0;
        if let Some(event) = self.fifo_a.step(steps_a) {
            dma.notify(event);
        }
        let steps_b = self.fifo_pending_steps[1];
        self.fifo_pending_steps[1] = 0;
        if let Some(event) = self.fifo_b.step(steps_b) {
            dma.notify(event);
        }
        assert(self@.fifo_pending_steps =~= seq![0u8, 0u8]);
        proof {
            lemma_cache_kept(framed, self@, self.mix_cache@);
        }
    }

    /// Clocks the frequency timers as many times as the accumulated cycles and `cycles` add up
    /// to, mixing a sample after each clock.
    fn clock_freq_timers(&mut self, cycles: u8) -> (r: Vec<(i16, i16)>)
        requires
            old(self).wf(),
        ensures
            final(self).wf(),
            (final(self)@, r@) == freq_clocked(
                AudioModel {
                    freq_timer_cycles_accum: ((old(self)@.freq_timer_cycles_accum + cycles)
                        % CYCLES_PER_SAMPLE as int) as u16,
                    ..old(self)@
                },
                ((old(self)@.freq_timer_cycles_accum + cycles) / CYCLES_PER_SAMPLE as int) as nat,
            ),
    {
        let ghost start = self@;
        let ghost accum0: int = start.freq_timer_cycles_accum + cycles;
        let ghost base = AudioModel {
            freq_timer_cycles_accum: (accum0 % CYCLES_PER_SAMPLE as int) as u16,
            ..start
        };
        let mut samples: Vec<(i16, i16)> = Vec::new();
        let mut accum: u16 = self.freq_timer_cycles_accum + cycles as u16;
        let ghost mut n: nat = 0;
        proof {
            lemma_freq_clocked(base, 0);
        }
        while accum >= CYCLES_PER_SAMPLE
            invariant
                self.wf(),
                base == (AudioModel {
                    freq_timer_cycles_accum: (accum0 % CYCLES_PER_SAMPLE as int) as u16,
                    ..start
                }),
                accum == accum0 - CYCLES_PER_SAMPLE * n,
                n <= accum0 / CYCLES_PER_SAMPLE as int,
                self@ == (AudioModel {
                    freq_timer_cycles_accum: start.freq_timer_cycles_accum,
                    ..freq_clocked(base, n).0
                }),
                samples@ == freq_clocked(base, n).1,
            decreases accum,
        {
            proof {
                lemma_freq_clocked(base, n);
                lemma_freq_clocked(base, n + 1);
            }
            accum = accum - CYCLES_PER_SAMPLE;
            assert(self@.noise.period_shift == start.noise.period_shift);
            let ghost before = self@;
            self.tone_sweep.step_duty();
            self.tone.step_duty();
            self.wave.step_wave();
            self.noise.step_noise();
            proof {
                lemma_cache_kept(before, self@, self.mix_cache@);
                n = n + 1;
            }
            let sample = self.mix_sample();
            samples.push(sample);
        }
        self.freq_timer_cycles_accum = accum;
        proof {
            lemma_freq_clocked(base, n);
        }
        samples
    }

    /// Runs the sound unit for `cycles` cycles and returns the samples it mixed, in order. The
    /// FIFOs' requests for more samples go to `dma`.
    pub fn step_samples(&mut self, dma: &mut Dma, cycles: u8) -> (r: Vec<(i16, i16)>)
        requires
            old(self).wf(),
        ensures
            final(self).wf(),
            (final(self)@, r@) == audio_stepped(old(self)@, cycles),
            final(dma)@ == audio_step_dma(old(self)@, cycles, old(dma)@),
    {
        if !self.enabled {
            return Vec::new();
        }
        self.step_frame_seq_and_fifos(dma, cycles);
        self.clock_freq_timers(cycles)
    }

    /// Runs the sound unit for `cycles` cycles, handing each sample it mixes to `cb`, and the
    /// FIFOs' requests for more samples to `dma`.
    pub fn step<C: Callback>(&mut self, cb: &mut C, dma: &mut Dma, cycles: u8)
        requires
            old(self).wf(),
        ensures
            final(self).wf(),
            final(self)@ == audio_stepped(old(self)@, cycles).0,
            final(dma)@ == audio_step_dma(old(self)@, cycles, old(dma)@),
            exists|cbs: Seq<C>|
                #[trigger] samples_taken(cbs, audio_stepped(old(self)@, cycles).1) && cbs[0]
                    == *old(cb) && cbs.last() == *final(cb),
    {
        let ghost m0 = self@;
        let samples = self.step_samples(dma, cycles);
        let ghost mut cbs: Seq<C> = seq![*cb];
        let mut i: usize = 0;
        while i < samples.len()
            invariant
                i <= samples.len(),
                cbs.len() == i + 1,
                cbs[0] == *old(cb),
                cbs.last() == *cb,
                forall|j: int| 0 <= j < i ==> #[trigger] sample_step_taken(cbs, samples@, j),
            decreases samples.len() - i,
        {
            cb.push_sample(samples[i]);
            proof {
                let old_cbs = cbs;
                cbs = cbs.push(*cb);
                assert forall|j: int| 0 <= j < i + 1 implies #[trigger] sample_step_taken(
                    cbs,
                    samples@,
                    j,
                ) by {
                    if j < i {
                        assert(sample_step_taken(old_cbs, samples@, j));
                    }
                }
            }
            i = i + 1;
        }
        proof {
            assert(samples@ == audio_stepped(m0, cycles).1);
            assert(samples_taken(cbs, audio_stepped(m0, cycles).1));
        }
    }

    fn mix_dmg(&self, volumes: &[u8; 4], side: usize) -> (r: i16)
        requires
            self@.wf(),
            side < 2,
            forall|i: int| 0 <= i < 4 ==> volumes@[i] <= 15,
        ensures
            r == mix_dmg(
                volumes@,
                self@.out_channels[side as int],
                self@.out_dmg_volume[side as int],
                self@.dmg_volume_ratio,
            ),
            0 <= r <= 480,
    {
        let out = self.out_channels[side];
        let mut sum: i16 = 0;
        if out[0] {
            sum = sum + volumes[0] as i16;
        }
        if out[1] {
            sum = sum + volumes[1] as i16;
        }
        if out[2] {
            sum = sum + volumes[2] as i16;
        }
        if out[3] {
            sum = sum + volumes[3] as i16;
        }
        let divisor: i16 = if self.dmg_volume_ratio == 0 {
            4
        } else if self.dmg_volume_ratio == 1 {
            2
        } else {
            1
        };
        let volume = self.out_dmg_volume[side] as i16 + 1;
        assert(0 <= sum * volume <= 480) by (nonlinear_arith)
            requires
                0 <= sum <= 60,
                1 <= volume <= 8,
        ;
        (sum * volume) / divisor
    }

    fn mix_fifo(&self, samples: &[i8; 2], side: usize) -> (r: i16)
        requires
            self@.wf(),
            side < 2,
        ensures
            r == mix_fifo(samples@, self@.out_channels[side as int], self@.fifo_full_volume),
            -1024 <= r <= 1016,
    {
        let out = self.out_channels[side];
        let mut sum: i16 = 0;
        if out[4] {
            let scale: i16 = if self.fifo_full_volume[0] {
                4
            } else {
                2
            };
            sum = sum + samples[0] as i16 * scale;
        }
        if out[5] {
            let scale: i16 = if self.fifo_full_volume[1] {
                4
            } else {
                2
            };
            sum = sum + samples[1] as i16 * scale;
        }
        sum
    }

    fn output_sample(&self, mixed: i16) -> (r: i16)
        requires
            self@.wf(),
            -1024 <= mixed <= 1496,
        ensures
            r == output_sample(mixed as int, self@.bias),
    {
        let mut sample = mixed + self.bias;
        if sample < 0 {
            sample = 0;
        } else if sample > 0x3ff {
            sample = 0x3ff;
        }
        sample = sample - self.bias;
        let scaled = sample as i32 * 63;
        if scaled > 0x7fff {
            0x7fff
        } else if scaled < -0x8000 {
            -0x8000
        } else {
            scaled as i16
        }
    }
}

} // verus!
