use vstd::prelude::*;

use crate::bits::{lemma_io_offsets, lemma_or_u16};

use crate::irq::{Interrupt, Irq, IrqModel};
use vstd::arithmetic::power2::{lemma2_to64, pow2};
use vstd::bits::lemma_u32_shl_is_mul;

verus! {

/// The clock divider of a timer.
#[derive(Debug, Default, Copy, Clone, PartialEq, Eq, Structural)]
pub enum PrescalarSelect {
    #[default]
    Div1,
    Div64,
    Div256,
    Div1024,
}

impl PrescalarSelect {
    /// The selector held in the low 2 bits of `bits`.
    pub open spec fn from_bits(bits: u8) -> PrescalarSelect {
        if bits & 3 == 0 {
            PrescalarSelect::Div1
        } else if bits & 3 == 1 {
            PrescalarSelect::Div64
        } else if bits & 3 == 2 {
            PrescalarSelect::Div256
        } else {
            PrescalarSelect::Div1024
        }
    }

    /// The shift that scales cycles to 1024ths of a tick: 1024 divided by the divider.
    pub open spec fn shift(self) -> u32 {
        match self {
            PrescalarSelect::Div1 => 10,
            PrescalarSelect::Div64 => 4,
            PrescalarSelect::Div256 => 2,
            PrescalarSelect::Div1024 => 0,
        }
    }
}

/// The cycles (in 1024ths) that make one tick of the slowest divider.
pub const MAX_DIV: u32 = 1024;

/// The model of one timer.
pub struct TimerModel {
    pub accum: u32,
    pub initial: u16,
    pub counter: u16,
    pub prescalar_select: PrescalarSelect,
    pub cascade: bool,
    pub irq_enabled: bool,
    pub start: bool,
    pub cached_bits: u16,
}

#[derive(Debug, Default, Copy, Clone)]
struct Control {
    accum: u32,
    initial: u16,
    counter: u16,
    prescalar_select: PrescalarSelect,
    cascade: bool,
    irq_enabled: bool,
    start: bool,
    cached_bits: u16,
}

impl Control {
    closed spec fn model(self) -> TimerModel {
        TimerModel {
            accum: self.accum,
            initial: self.initial,
            counter: self.counter,
            prescalar_select: self.prescalar_select,
            cascade: self.cascade,
            irq_enabled: self.irq_enabled,
            start: self.start,
            cached_bits: self.cached_bits,
        }
    }
}

/// The four timers.
#[derive(Debug, Default)]
pub struct Timers([Control; 4]);

impl View for Timers {
    type V = Seq<TimerModel>;

    closed spec fn view(&self) -> Seq<TimerModel> {
        self.0@.map_values(|c: Control| c.model())
    }
}

/// Whether `addr` is one of the timers' I/O register bytes.
pub open spec fn is_timer_addr(addr: u32) -> bool {
    0x100 <= addr < 0x110
}

impl TimerModel {
    /// The accumulated fraction of a tick is below one tick.
    pub open spec fn wf(self) -> bool {
        self.accum < MAX_DIV
    }

    /// The counter after `ticks` more ticks, and how many times it overflowed (reloading from
    /// the initial value each time).
    pub open spec fn counted(self, ticks: u16) -> (TimerModel, u8) {
        if self.counter + ticks <= 0xffff {
            (TimerModel { counter: (self.counter + ticks) as u16, ..self }, 0)
        } else {
            let extra_ticks = ticks - (0xffff - self.counter) - 1;
            let ticks_to_overflow = (0xffff - self.initial) + 1;
            (
                TimerModel {
                    counter: (self.initial + extra_ticks % ticks_to_overflow) as u16,
                    ..self
                },
                (1 + extra_ticks / ticks_to_overflow) as u8,
            )
        }
    }

    /// One step of `cycles` cycles for this timer, given how many times the timer before it
    /// overflowed in this step: a stopped timer, or a cascading one whose predecessor did not
    /// overflow, does nothing; a cascading timer counts its predecessor's overflows; any other
    /// counts the whole ticks of its divider. The result also gives its overflow count.
    pub open spec fn stepped(self, cycles: u8, prev_overflows: u8) -> (TimerModel, u8) {
        if !self.start || (self.cascade && prev_overflows == 0) {
            (self, 0)
        } else if self.cascade {
            self.counted(prev_overflows as u16)
        } else {
            let accum = self.accum + ((cycles as u32) << self.prescalar_select.shift());
            if accum < MAX_DIV {
                (TimerModel { accum: accum as u32, ..self }, 0)
            } else {
                TimerModel { accum: (accum % MAX_DIV as int) as u32, ..self }.counted(
                    (accum / MAX_DIV as int) as u16,
                )
            }
        }
    }

    /// The byte at offset `offset` (0 to 3) of the timer's registers: the counter, then the
    /// control bits as written.
    pub open spec fn read_value(self, offset: u32) -> u8 {
        if offset == 0 {
            (self.counter & 0xff) as u8
        } else if offset == 1 {
            (self.counter >> 8u16) as u8
        } else if offset == 2 {
            (self.cached_bits & 0xff) as u8
        } else {
            (self.cached_bits >> 8u16) as u8
        }
    }

    /// Writing byte `offset` of the timer's registers: bytes 0 and 1 set the reload value;
    /// byte 2 sets the divider (bits 0-1), cascading (bit 2), the interrupt (bit 6) and the start
    /// flag (bit 7), and starting a stopped timer reloads its counter.
    pub open spec fn written(self, offset: u32, value: u8) -> TimerModel {
        if offset == 0 {
            TimerModel { initial: (self.initial & 0xff00) | (value as u16), ..self }
        } else if offset == 1 {
            TimerModel { initial: (self.initial & 0xff) | ((value as u16) << 8u16), ..self }
        } else if offset == 2 {
            let start = (value >> 7u8) & 1 == 1;
            TimerModel {
                cached_bits: (self.cached_bits & 0xff00) | (value as u16),
                prescalar_select: PrescalarSelect::from_bits(value),
                cascade: (value >> 2u8) & 1 == 1,
                irq_enabled: (value >> 6u8) & 1 == 1,
                start,
                counter: if !self.start && start {
                    self.initial
                } else {
                    self.counter
                },
                ..self
            }
        } else {
            TimerModel { cached_bits: (self.cached_bits & 0xff) | ((value as u16) << 8u16), ..self }
        }
    }
}

/// Stepping a timer keeps its accumulated fraction of a tick below one tick.
proof fn lemma_stepped_wf(t: TimerModel, cycles: u8, prev: u8)
    requires
        t.wf(),
    ensures
        t.stepped(cycles, prev).0.wf(),
{
}

/// The results of stepping the first `n` timers: each timer's new state and overflow count,
/// each timer seeing the overflow count of the one before it (none for the first).
pub open spec fn step_results(timers: Seq<TimerModel>, cycles: u8, n: nat) -> Seq<(TimerModel, u8)>
    decreases n,
{
    if n == 0 {
        Seq::empty()
    } else {
        let r = step_results(timers, cycles, (n - 1) as nat);
        let prev: u8 = if n == 1 {
            0
        } else {
            r[n - 2].1
        };
        r.push(timers[n - 1].stepped(cycles, prev))
    }
}

/// The IF bits of the timer interrupts that the first `n` results request: those of the
/// timers that overflowed with their interrupt enabled.
pub open spec fn timer_irq_bits(timers: Seq<TimerModel>, results: Seq<(TimerModel, u8)>, n: nat) -> u16
    decreases n,
{
    if n == 0 {
        0
    } else {
        let i = n - 1;
        timer_irq_bits(timers, results, (n - 1) as nat) | if results[i].1 > 0
            && timers[i].irq_enabled {
            1u16 << (3 + i) as u16
        } else {
            0
        }
    }
}

proof fn lemma_step_results_len(timers: Seq<TimerModel>, cycles: u8, n: nat)
    ensures
        step_results(timers, cycles, n).len() == n,
    decreases n,
{
    if n > 0 {
        lemma_step_results_len(timers, cycles, (n - 1) as nat);
    }
}

/// The interrupt bits depend only on the results of the first `n` timers.
proof fn lemma_timer_irq_bits_prefix(
    timers: Seq<TimerModel>,
    r1: Seq<(TimerModel, u8)>,
    r2: Seq<(TimerModel, u8)>,
    n: nat,
)
    requires
        forall|j: int| 0 <= j < n ==> r1[j] == r2[j],
    ensures
        timer_irq_bits(timers, r1, n) == timer_irq_bits(timers, r2, n),
    decreases n,
{
    if n > 0 {
        lemma_timer_irq_bits_prefix(timers, r1, r2, (n - 1) as nat);
    }
}

/// The count after `ticks` ticks never exceeds 255 overflows when the ticks are at most 255.
proof fn lemma_counted_fits(t: TimerModel, ticks: u16)
    requires
        ticks <= 255,
    ensures
        t.counter + ticks > 0xffff ==> {
            let extra_ticks = ticks - (0xffff - t.counter) - 1;
            let ticks_to_overflow = (0xffff - t.initial) + 1;
            &&& 0 <= extra_ticks <= 254
            &&& 1 + extra_ticks / ticks_to_overflow <= 255
            &&& t.initial + extra_ticks % ticks_to_overflow <= 0xffff
        },
{
    if t.counter + ticks > 0xffff {
        let extra_ticks = ticks - (0xffff - t.counter) - 1;
        let ticks_to_overflow = (0xffff - t.initial) + 1;
        assert(extra_ticks / ticks_to_overflow <= extra_ticks) by (nonlinear_arith)
            requires
                extra_ticks >= 0,
                ticks_to_overflow >= 1,
        ;
        assert(extra_ticks % ticks_to_overflow < ticks_to_overflow) by (nonlinear_arith)
            requires
                ticks_to_overflow >= 1,
        ;
    }
}

impl Control {
    fn count(&mut self, ticks: u16) -> (r: u8)
        requires
            ticks <= 255,
        ensures
            (final(self).model(), r) == old(self).model().counted(ticks),
    {
        proof {
            lemma_counted_fits(self.model(), ticks);
        }
        if self.counter as u32 + ticks as u32 <= 0xffff {
            self.counter = self.counter + ticks;
            0
        } else {
            let extra_ticks = (ticks - (0xffff - self.counter) - 1) as u32;
            let ticks_to_overflow = (0xffff - self.initial) as u32 + 1;
            self.counter = self.initial + (extra_ticks % ticks_to_overflow) as u16;
            (1 + extra_ticks / ticks_to_overflow) as u8
        }
    }

    fn step(&mut self, cycles: u8, prev_overflows: u8) -> (r: u8)
        requires
            old(self).model().wf(),
        ensures
            (final(self).model(), r) == old(self).model().stepped(cycles, prev_overflows),
            final(self).model().wf(),
    {
        if !self.start || (self.cascade && prev_overflows == 0) {
            return 0;
        }
        if self.cascade {
            return self.count(prev_overflows as u16);
        }
        let shift: u32 = match self.prescalar_select {
            PrescalarSelect::Div1 => 10,
            PrescalarSelect::Div64 => 4,
            PrescalarSelect::Div256 => 2,
            PrescalarSelect::Div1024 => 0,
        };
        proof {
            let c = cycles as u32;
            assert(shift <= 10 ==> (c << shift) <= 255 * 1024) by (bit_vector)
                requires
                    c <= 255,
            ;
        }
        self.accum = self.accum + ((cycles as u32) << shift);
        if self.accum < MAX_DIV {
            return 0;
        }
        let ticks = (self.accum / MAX_DIV) as u16;
        self.accum = self.accum % MAX_DIV;
        self.count(ticks)
    }
}

impl Timers {
    pub fn new() -> (r: Timers)
        ensures
            r@.len() == 4,
            forall|i: int|
                0 <= i < 4 ==> #[trigger] r@[i] == (TimerModel {
                    accum: 0,
                    initial: 0,
                    counter: 0,
                    prescalar_select: PrescalarSelect::Div1,
                    cascade: false,
                    irq_enabled: false,
                    start: false,
                    cached_bits: 0,
                }),
    {
        let c = Control {
            accum: 0,
            initial: 0,
            counter: 0,
            prescalar_select: PrescalarSelect::Div1,
            cascade: false,
            irq_enabled: false,
            start: false,
            cached_bits: 0,
        };
        Timers([c, c, c, c])
    }

    /// Runs the timers for `cycles` cycles, requesting the interrupts of the timers that
    /// overflow with their interrupt enabled. Returns each timer's overflow count (which the
    /// sound FIFOs clocked by that timer consume).
    pub fn step(&mut self, irq: &mut Irq, cycles: u8) -> (r: [u8; 4])
        requires
            forall|i: int| 0 <= i < 4 ==> #[trigger] old(self)@[i].wf(),
        ensures
            forall|i: int| 0 <= i < 4 ==> #[trigger] final(self)@[i].wf(),
            ({
                let results = step_results(old(self)@, cycles, 4);
                &&& final(self)@ =~= results.map_values(|p: (TimerModel, u8)| p.0)
                &&& r@ =~= results.map_values(|p: (TimerModel, u8)| p.1)
                &&& final(irq)@ == (IrqModel {
                    intf: old(irq)@.intf | timer_irq_bits(old(self)@, results, 4),
                    ..old(irq)@
                })
            }),
    {
        let mut overflows: [u8; 4] = [0; 4];
        let mut prev_overflow_count: u8 = 0;
        let mut i: usize = 0;
        proof {
            lemma_or_u16(old(irq)@.intf, 0, 0);
        }
        while i < 4
            invariant
                i <= 4,
                self.0@.len() == 4,
                forall|j: int| i <= j < 4 ==> self.0@[j] == old(self).0@[j],
                forall|j: int| i <= j < 4 ==> #[trigger] old(self)@[j].wf(),
                forall|j: int| 0 <= j < i ==> #[trigger] self.0@[j].model().wf(),
                forall|j: int|
                    0 <= j < i ==> #[trigger] self.0@[j].model() == step_results(
                        old(self)@,
                        cycles,
                        i as nat,
                    )[j].0,
                forall|j: int|
                    0 <= j < i ==> #[trigger] overflows@[j] == step_results(
                        old(self)@,
                        cycles,
                        i as nat,
                    )[j].1,
                prev_overflow_count == (if i == 0 {
                    0
                } else {
                    step_results(old(self)@, cycles, i as nat)[i - 1].1
                }),
                irq@ == (IrqModel {
                    intf: old(irq)@.intf | timer_irq_bits(
                        old(self)@,
                        step_results(old(self)@, cycles, i as nat),
                        i as nat,
                    ),
                    ..old(irq)@
                }),
            decreases 4 - i,
        {
            let ghost before = step_results(old(self)@, cycles, i as nat);
            let ghost after = step_results(old(self)@, cycles, (i + 1) as nat);
            let ghost irq_before = irq@;
            proof {
                lemma_step_results_len(old(self)@, cycles, i as nat);
                lemma_step_results_len(old(self)@, cycles, (i + 1) as nat);
                assert(forall|j: int| 0 <= j < i ==> after[j] == before[j]);
                lemma_timer_irq_bits_prefix(old(self)@, after, before, i as nat);
                assert(old(self)@[i as int].wf());
            }
            let mut timer = self.0[i];
            proof {
                lemma_stepped_wf(old(self)@[i as int], cycles, prev_overflow_count);
            }
            let count = timer.step(cycles, prev_overflow_count);
            self.0[i] = timer;
            overflows[i] = count;
            assert(after[i as int] == (timer.model(), count));
            if count > 0 && timer.irq_enabled {
                let irq_i = if i == 0 {
                    Interrupt::Timer0
                } else if i == 1 {
                    Interrupt::Timer1
                } else if i == 2 {
                    Interrupt::Timer2
                } else {
                    Interrupt::Timer3
                };
                irq.request(irq_i);
                proof {
                    let a = old(irq)@.intf;
                    let b = timer_irq_bits(old(self)@, before, i as nat);
                    let c = 1u16 << (3 + i) as u16;
                    lemma_or_u16(a, b, c);
                }
            } else {
                proof {
                    let a = old(irq)@.intf;
                    let b = timer_irq_bits(old(self)@, before, i as nat);
                    lemma_or_u16(b, 0, 0);
                }
            }
            prev_overflow_count = count;
            i = i + 1;
        }
        proof {
            let results = step_results(old(self)@, cycles, 4);
            lemma_step_results_len(old(self)@, cycles, 4);
            assert(self@ =~= results.map_values(|p: (TimerModel, u8)| p.0));
            assert(overflows@ =~= results.map_values(|p: (TimerModel, u8)| p.1));
        }
        overflows
    }

    /// Reads the I/O register byte at `addr`.
    pub fn read_byte(&mut self, addr: u32) -> (r: u8)
        requires
            is_timer_addr(addr),
        ensures
            r == old(self)@[((addr & 0xf) / 4) as int].read_value(addr & 3),
            final(self)@ == old(self)@,
    {
        proof {
            lemma_io_offsets(addr);
        }
        let tmcnt = self.0[((addr & 0xf) / 4) as usize];
        let offset = addr & 3;
        if offset == 0 {
            (tmcnt.counter & 0xff) as u8
        } else if offset == 1 {
            (tmcnt.counter >> 8u16) as u8
        } else if offset == 2 {
            (tmcnt.cached_bits & 0xff) as u8
        } else {
            (tmcnt.cached_bits >> 8u16) as u8
        }
    }

    /// Writes the I/O register byte at `addr`.
    pub fn write_byte(&mut self, addr: u32, value: u8)
        requires
            is_timer_addr(addr),
        ensures
            final(self)@ == old(self)@.update(
                ((addr & 0xf) / 4) as int,
                old(self)@[((addr & 0xf) / 4) as int].written(addr & 3, value),
            ),
    {
        proof {
            lemma_io_offsets(addr);
        }
        let idx = ((addr & 0xf) / 4) as usize;
        let mut tmcnt = self.0[idx];
        let offset = addr & 3;
        if offset == 0 {
            tmcnt.initial = (tmcnt.initial & 0xff00) | (value as u16);
        } else if offset == 1 {
            tmcnt.initial = (tmcnt.initial & 0xff) | ((value as u16) << 8u16);
        } else if offset == 2 {
            tmcnt.cached_bits = (tmcnt.cached_bits & 0xff00) | (value as u16);
            tmcnt.prescalar_select = if value & 3 == 0 {
                PrescalarSelect::Div1
            } else if value & 3 == 1 {
                PrescalarSelect::Div64
            } else if value & 3 == 2 {
                PrescalarSelect::Div256
            } else {
                PrescalarSelect::Div1024
            };
            tmcnt.cascade = (value >> 2u8) & 1 == 1;
            tmcnt.irq_enabled = (value >> 6u8) & 1 == 1;
            let was_started = tmcnt.start;
            tmcnt.start = (value >> 7u8) & 1 == 1;
            if !was_started && tmcnt.start {
                tmcnt.counter = tmcnt.initial;
            }
        } else {
            tmcnt.cached_bits = (tmcnt.cached_bits & 0xff) | ((value as u16) << 8u16);
        }
        self.0[idx] = tmcnt;
        assert(self@ =~= old(self)@.update(
            idx as int,
            old(self)@[idx as int].written(addr & 3, value),
        ));
    }
}

} // verus!

verus! {

/// The number of cycles that make one tick with divider `p`.
pub open spec fn divider_cycles(p: PrescalarSelect) -> int {
    match p {
        PrescalarSelect::Div1 => 1,
        PrescalarSelect::Div64 => 64,
        PrescalarSelect::Div256 => 256,
        PrescalarSelect::Div1024 => 1024,
    }
}

/// A started timer that does not cascade counts one tick for every `d` cycles of its divider
/// `d` (1, 64, 256 or 1024), carrying the fraction of a tick, kept in 1024ths, to the next
/// step: its counter goes up by the whole ticks, without an overflow while it stays within 16
/// bits.
pub proof fn lemma_prescaler_ticks(t: TimerModel, cycles: u8, prev_overflows: u8)
    requires
        t.wf(),
        t.start,
        !t.cascade,
    ensures
        ({
            let d = divider_cycles(t.prescalar_select);
            let elapsed = t.accum + cycles * (1024int / d);
            let ticks = elapsed / 1024;
            let (t2, overflows) = t.stepped(cycles, prev_overflows);
            &&& t2.accum == elapsed % 1024
            &&& t.counter + ticks <= 0xffff ==> t2.counter == t.counter + ticks && overflows == 0
        }),
{
    lemma2_to64();
    let shift = t.prescalar_select.shift();
    let d = divider_cycles(t.prescalar_select);
    assert(1024int / d == pow2(shift as nat) && pow2(shift as nat) <= 1024);
    assert(cycles * pow2(shift as nat) <= 255 * 1024) by (nonlinear_arith)
        requires
            cycles <= 255,
            pow2(shift as nat) <= 1024,
    ;
    lemma_u32_shl_is_mul(cycles as u32, shift);
    let elapsed = t.accum + cycles * (1024int / d);
    assert(((cycles as u32) << shift) == cycles * (1024int / d));
    if elapsed >= 1024 {
        assert(elapsed / 1024 <= 0xffff) by (nonlinear_arith)
            requires
                elapsed < 1024 + 255 * 1024,
        ;
    } else {
        assert(elapsed / 1024 == 0);
        assert(elapsed % 1024 == elapsed);
    }
}

} // verus!
