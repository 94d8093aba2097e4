use vstd::prelude::*;

use crate::audio::{Callback, SAMPLE_FREQUENCY};

verus! {

/// An audio callback that drops every sample.
pub struct NullCallback;

impl Callback for NullCallback {
    open spec fn sample_taken(before: Self, after: Self, sample: (i16, i16)) -> bool {
        true
    }

    fn push_sample(&mut self, sample: (i16, i16)) {
    }
}

/// `a / b`, rounding toward zero.
pub open spec fn trunc_div(a: int, b: int) -> int {
    if a >= 0 {
        a / b
    } else {
        -((-a) / b)
    }
}

fn trunc_div_i32(a: i32, b: u32) -> (r: i32)
    requires
        b > 0,
        a > i32::MIN,
    ensures
        r == trunc_div(a as int, b as int),
{
    if a >= 0 {
        (a as u32 / b) as i32
    } else {
        -(((-a) as u32 / b) as i32)
    }
}

/// The largest queue a resampler keeps: a ring position plus a length must fit in a `usize`.
pub const MAX_RESAMPLER_CAPACITY: usize = usize::MAX / 2;

/// There is at least one input sample per output sample, and at most 65534 at the lowest rate.
proof fn lemma_rate_ratio(out_freq: u32)
    requires
        33 <= out_freq <= SAMPLE_FREQUENCY,
    ensures
        1 <= SAMPLE_FREQUENCY / out_freq <= 65534,
{
    assert(1 <= SAMPLE_FREQUENCY / out_freq <= 65534) by (nonlinear_arith)
        requires
            33 <= out_freq <= SAMPLE_FREQUENCY,
    ;
}

/// Why an output format cannot be resampled to.
#[derive(Debug, Copy, Clone, PartialEq, Eq, Structural)]
pub enum ResamplerError {
    /// Only mono and stereo are supported.
    TooManyChannels,
    /// The output rate is above the sound unit's sample rate.
    FrequencyTooHigh,
}

/// The model of a resampler: the output rate and channel layout, the samples accumulated for
/// the next output sample, the running remainder of the rate ratio, and the queue of output
/// values (oldest first) with its capacity.
pub struct ResamplerModel {
    pub out_freq: u32,
    pub stereo: bool,
    pub counter: u32,
    pub counter_accum: u32,
    pub accum: (i32, i32),
    pub extra: bool,
    pub queue: Seq<i16>,
    pub capacity: nat,
}

/// Averages the sound unit's samples down to an output rate, queueing the output values
/// (interleaved for stereo, averaged for mono) in a ring buffer that drops its oldest value
/// when full.
pub struct Resampler {
    out_freq: u32,
    stereo: bool,
    counter: u32,
    counter_accum: u32,
    accum: (i32, i32),
    extra: bool,
    buf: Vec<i16>,
    start: usize,
    len: usize,
}

/// The position in a ring buffer of capacity `cap` of the value `k` after `start`.
pub open spec fn ring_index(start: int, k: int, cap: int) -> int {
    if start + k < cap {
        start + k
    } else {
        start + k - cap
    }
}

impl View for Resampler {
    type V = ResamplerModel;

    closed spec fn view(&self) -> ResamplerModel {
        ResamplerModel {
            out_freq: self.out_freq,
            stereo: self.stereo,
            counter: self.counter,
            counter_accum: self.counter_accum,
            accum: self.accum,
            extra: self.extra,
            queue: Seq::new(
                self.len as nat,
                |k: int| self.buf@[ring_index(self.start as int, k, self.buf@.len() as int)],
            ),
            capacity: self.buf@.len(),
        }
    }
}

/// How many input samples make the next output sample.
pub open spec fn samples_per_output(m: ResamplerModel) -> int {
    (SAMPLE_FREQUENCY / m.out_freq) as int + if m.extra {
        1int
    } else {
        0
    }
}

/// The queue after pushing `v`: the oldest value is dropped when it is full.
pub open spec fn queue_pushed(queue: Seq<i16>, cap: nat, v: i16) -> Seq<i16> {
    if queue.len() < cap {
        queue.push(v)
    } else {
        queue.drop_first().push(v)
    }
}

/// The resampler after taking in `sample`: once it has taken in enough samples, it queues
/// their average (each channel's sum divided by the count, rounding toward zero), both
/// channels for stereo or half of each summed for mono, and carries the remainder of the rate
/// ratio so that over time it takes one more sample where needed.
pub open spec fn resampled(m: ResamplerModel, sample: (i16, i16)) -> ResamplerModel {
    let accum = ((m.accum.0 + sample.0) as i32, (m.accum.1 + sample.1) as i32);
    let counter = (m.counter + 1) as u32;
    if counter < samples_per_output(m) {
        ResamplerModel { accum, counter, ..m }
    } else {
        let out = (
            trunc_div(accum.0 as int, counter as int) as i16,
            trunc_div(accum.1 as int, counter as int) as i16,
        );
        let ca = m.counter_accum + SAMPLE_FREQUENCY % m.out_freq;
        let extra = ca >= m.out_freq;
        let queue = if m.stereo {
            queue_pushed(queue_pushed(m.queue, m.capacity, out.0), m.capacity, out.1)
        } else {
            queue_pushed(
                m.queue,
                m.capacity,
                (trunc_div(out.0 as int, 2) + trunc_div(out.1 as int, 2)) as i16,
            )
        };
        ResamplerModel {
            counter: 0,
            accum: (0, 0),
            counter_accum: (if extra {
                ca - m.out_freq
            } else {
                ca
            }) as u32,
            extra,
            queue,
            ..m
        }
    }
}

impl ResamplerModel {
    /// The output rate keeps the sums within 32 bits, the counts are below their limits, and
    /// the queue fits its capacity.
    pub open spec fn wf(self) -> bool {
        &&& 33 <= self.out_freq <= SAMPLE_FREQUENCY
        &&& self.counter < samples_per_output(self)
        &&& -32768 * self.counter <= self.accum.0 <= 32767 * self.counter
        &&& -32768 * self.counter <= self.accum.1 <= 32767 * self.counter
        &&& self.counter_accum < self.out_freq
        &&& 0 < self.capacity <= MAX_RESAMPLER_CAPACITY
        &&& self.queue.len() <= self.capacity
    }
}

impl Resampler {
    pub closed spec fn wf(&self) -> bool {
        &&& self@.wf()
        &&& self.start < self.buf@.len()
        &&& self.len <= self.buf@.len()
    }

    /// A resampler to `out_freq` Hz with `channels` channels and room for `capacity` queued
    /// values; an error for more than two channels, or a rate above the sound unit's.
    pub fn new(out_freq: u32, channels: u8, capacity: usize) -> (r: Result<Resampler, ResamplerError>)
        requires
            out_freq >= 33,
            0 < capacity <= MAX_RESAMPLER_CAPACITY,
        ensures
            match r {
                Ok(res) => {
                    &&& channels <= 2 && out_freq <= SAMPLE_FREQUENCY
                    &&& res.wf()
                    &&& res@ == (ResamplerModel {
                        out_freq,
                        stereo: channels > 1,
                        counter: 0,
                        counter_accum: 0,
                        accum: (0, 0),
                        extra: false,
                        queue: Seq::empty(),
                        capacity: capacity as nat,
                    })
                },
                Err(e) => if channels > 2 {
                    e == ResamplerError::TooManyChannels
                } else {
                    out_freq > SAMPLE_FREQUENCY && e == ResamplerError::FrequencyTooHigh
                },
            },
    {
        if channels > 2 {
            return Err(ResamplerError::TooManyChannels);
        }
        if out_freq > SAMPLE_FREQUENCY {
            return Err(ResamplerError::FrequencyTooHigh);
        }
        proof {
            lemma_rate_ratio(out_freq);
        }
        let r = Resampler {
            out_freq,
            stereo: channels > 1,
            counter: 0,
            counter_accum: 0,
            accum: (0, 0),
            extra: false,
            buf: vec![0i16; capacity],
            start: 0,
            len: 0,
        };
        assert(r@.queue =~= Seq::<i16>::empty());
        Ok(r)
    }

    fn push_value(&mut self, v: i16)
        requires
            old(self).wf(),
        ensures
            final(self).wf(),
            final(self)@ == (ResamplerModel {
                queue: queue_pushed(old(self)@.queue, old(self)@.capacity, v),
                ..old(self)@
            }),
    {
        let cap = self.buf.len();
        let ghost q0 = self@.queue;
        if self.len < cap {
            let i = if self.start + self.len < cap {
                self.start + self.len
            } else {
                self.start + self.len - cap
            };
            self.buf.set(i, v);
            self.len = self.len + 1;
            assert(self@.queue =~= q0.push(v));
        } else {
            self.buf.set(self.start, v);
            self.start = if self.start + 1 < cap {
                self.start + 1
            } else {
                0
            };
            assert(self@.queue =~= q0.drop_first().push(v));
        }
    }

    /// Takes in a sample of the sound unit.
    pub fn push(&mut self, sample: (i16, i16))
        requires
            old(self).wf(),
        ensures
            final(self).wf(),
            final(self)@ == resampled(old(self)@, sample),
    {
        let ghost m = self@;
        proof {
            lemma_rate_ratio(self.out_freq);
        }
        self.accum = (self.accum.0 + sample.0 as i32, self.accum.1 + sample.1 as i32);
        self.counter = self.counter + 1;
        let limit = SAMPLE_FREQUENCY / self.out_freq + if self.extra {
            1
        } else {
            0
        };
        if self.counter < limit {
            return;
        }
        let out = (
            trunc_div_i32(self.accum.0, self.counter) as i16,
            trunc_div_i32(self.accum.1, self.counter) as i16,
        );
        assert(-32768 <= out.0 <= 32767 && -32768 <= out.1 <= 32767) by {
            assert(-32768 <= trunc_div(self.accum.0 as int, self.counter as int) <= 32767)
                by (nonlinear_arith)
                requires
                    -32768 * self.counter <= self.accum.0 <= 32767 * self.counter,
                    self.counter > 0,
            ;
            assert(-32768 <= trunc_div(self.accum.1 as int, self.counter as int) <= 32767)
                by (nonlinear_arith)
                requires
                    -32768 * self.counter <= self.accum.1 <= 32767 * self.counter,
                    self.counter > 0,
            ;
        }
        self.counter = 0;
        self.accum = (0, 0);
        self.counter_accum = self.counter_accum + SAMPLE_FREQUENCY % self.out_freq;
        self.extra = self.counter_accum >= self.out_freq;
        if self.extra {
            self.counter_accum = self.counter_accum - self.out_freq;
        }
        if self.stereo {
            self.push_value(out.0);
            self.push_value(out.1);
        } else {
            let mono = trunc_div_i32(out.0 as i32, 2) + trunc_div_i32(out.1 as i32, 2);
            self.push_value(mono as i16);
        }
    }

    /// Whether the invariant holds (it always does for a resampler made by `new`).
    pub fn wf_exec(&self) -> (r: bool)
        ensures
            r == self.wf(),
    {
        let cap = self.buf.len();
        if !(33 <= self.out_freq && self.out_freq <= SAMPLE_FREQUENCY) {
            return false;
        }
        let limit = SAMPLE_FREQUENCY / self.out_freq + if self.extra {
            1
        } else {
            0
        };
        if self.counter >= limit {
            return false;
        }
        proof {
            lemma_rate_ratio(self.out_freq);
        }
        let c = self.counter as i64;
        assert(32768 * c <= 32768 * 65535) by (nonlinear_arith)
            requires
                0 <= c <= 65535,
        ;
        let (a0, a1) = (self.accum.0 as i64, self.accum.1 as i64);
        -32768 * c <= a0 && a0 <= 32767 * c && -32768 * c <= a1 && a1 <= 32767 * c
            && self.counter_accum < self.out_freq && 0 < cap && cap <= MAX_RESAMPLER_CAPACITY
            && self.len <= cap && self.start < cap
    }

    /// The number of queued output values.
    pub fn queued(&self) -> (r: usize)
        requires
            self.wf(),
        ensures
            r == self@.queue.len(),
    {
        self.len
    }

    /// The capacity of the queue.
    pub fn capacity(&self) -> (r: usize)
        requires
            self.wf(),
        ensures
            r == self@.capacity,
    {
        self.buf.len()
    }

    /// Takes the `count` oldest queued values.
    pub fn take(&mut self, count: usize) -> (r: Vec<i16>)
        requires
            old(self).wf(),
            count <= old(self)@.queue.len(),
        ensures
            final(self).wf(),
            r@ == old(self)@.queue.subrange(0, count as int),
            final(self)@ == (ResamplerModel {
                queue: old(self)@.queue.subrange(count as int, old(self)@.queue.len() as int),
                ..old(self)@
            }),
    {
        let ghost q0 = self@.queue;
        let cap = self.buf.len();
        let mut r: Vec<i16> = Vec::new();
        let mut k: usize = 0;
        while k < count
            invariant
                self.wf(),
                self@.queue == q0,
                cap == self.buf@.len(),
                count <= q0.len(),
                k <= count,
                r@ == q0.subrange(0, k as int),
            decreases count - k,
        {
            let i = if self.start + k < cap {
                self.start + k
            } else {
                self.start + k - cap
            };
            r.push(self.buf[i]);
            assert(r@ =~= q0.subrange(0, k + 1));
            k += 1;
        }
        self.start = if self.start + count < cap {
            self.start + count
        } else {
            self.start + count - cap
        };
        self.len = self.len - count;
        assert(self@.queue =~= q0.subrange(count as int, q0.len() as int));
        r
    }
}

impl Callback for Resampler {
    /// A well-formed resampler takes the sample (`push`); another one is left as it is.
    open spec fn sample_taken(before: Self, after: Self, sample: (i16, i16)) -> bool {
        if before.wf() {
            after.wf() && after@ == resampled(before@, sample)
        } else {
            after == before
        }
    }

    fn push_sample(&mut self, sample: (i16, i16)) {
        if self.wf_exec() {
            self.push(sample);
        }
    }
}

} // verus!
