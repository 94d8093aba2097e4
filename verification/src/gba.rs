use vstd::prelude::*;

use crate::arm7tdmi::isa::lemma_and_le;
use crate::arm7tdmi::{reset_state, stepped, Cpu, CpuModel, Exception};
use crate::bits::lemma_io_offsets;
use crate::bus::Bus as MemoryBus;
use crate::audio::{
    audio_read_value, audio_step_dma, audio_stepped, audio_written, initial_audio,
    timer_overflow_notified, Audio, AudioModel,
};
use crate::bios::{Bios, BiosModel, BIOS_ROM_LEN};
use crate::cart::{Cartridge, CartridgeModel};
use crate::dma::{
    chan_stepped, chan_written, copied, dma_interrupt, dma_read_value, first_active,
    requests_irq, tells_eeprom, transfer_of, Channel, Dma, Transfer, TransferState,
};
use crate::irq::{irq_requested, is_irq_addr, Interrupt, Irq, IrqModel};
use crate::keypad::{is_keypad_addr, Keypad, KeypadModel};
use crate::timer::{is_timer_addr, step_results, timer_irq_bits, PrescalarSelect, TimerModel, Timers};
use crate::video::{doubled, hword_stored, video_stepped, vram_offset, Video, VideoModel};
use crate::video::reg::{background_mode, BackgroundMode};

verus! {

/// Whether the processor runs, is halted until an interrupt, or is stopped.
#[derive(Debug, Default, Copy, Clone, Eq, PartialEq, Structural)]
pub enum State {
    #[default]
    Running,
    Halted,
    Stopped,
}

/// The HALTCNT register, which halts or stops the processor.
#[derive(Debug, Default)]
pub struct HaltControl(pub State);

impl HaltControl {
    pub fn new() -> (r: HaltControl)
        ensures
            r.0 == State::Running,
    {
        HaltControl(State::Running)
    }

    /// Reads HALTCNT (address 0x301), which reads as 0.
    pub fn read_byte(&mut self, addr: u32) -> (r: u8)
        requires
            addr == 0x301,
        ensures
            r == 0,
            final(self).0 == old(self).0,
    {
        0
    }

    /// Writes HALTCNT (address 0x301): bit 7 stops the processor, else it halts.
    pub fn write_byte(&mut self, addr: u32, value: u8)
        requires
            addr == 0x301,
        ensures
            final(self).0 == (if (value >> 7u8) & 1 == 1 {
                State::Stopped
            } else {
                State::Halted
            }),
    {
        self.0 = if (value >> 7u8) & 1 == 1 {
            State::Stopped
        } else {
            State::Halted
        };
    }
}

/// The state HALTCNT takes when `value` is written to it: bit 7 stops, else halts.
pub open spec fn halt_state_of(value: u8) -> State {
    if (value >> 7u8) & 1 == 1 {
        State::Stopped
    } else {
        State::Halted
    }
}

/// The model of the system bus: each device that it maps, and the I/O registers that no
/// device implements, which hold what is written to them.
pub struct BusModel {
    pub irq: IrqModel,
    pub haltcnt: State,
    pub timers: Seq<TimerModel>,
    pub dma: Seq<Channel>,
    pub iwram: Seq<u8>,
    pub ewram: Seq<u8>,
    pub video: VideoModel,
    pub audio: AudioModel,
    pub keypad: KeypadModel,
    pub bios: BiosModel,
    pub cart: CartridgeModel,
    pub io_todo: Seq<u8>,
}

/// The size of on-board work RAM: 256KiB.
pub const EWRAM_LEN: usize = 0x4_0000;

/// The size of on-chip work RAM: 32KiB.
pub const IWRAM_LEN: usize = 0x8000;

/// The number of I/O register bytes kept for the registers that no device implements.
pub const IO_TODO_LEN: usize = 0x801;

/// The system bus: the memory map through which the CPU and DMA reach memory and devices.
pub struct Bus<'r> {
    pub irq: Irq,
    pub haltcnt: HaltControl,
    pub timers: Timers,
    pub dma: Dma,
    pub iwram: Vec<u8>,
    pub ewram: Vec<u8>,
    pub video: Video,
    pub audio: Audio,
    pub keypad: Keypad,
    pub bios: Bios,
    pub cart: Cartridge<'r>,
    pub io_todo: Vec<u8>,
}

impl<'r> View for Bus<'r> {
    type V = BusModel;

    open spec fn view(&self) -> BusModel {
        BusModel {
            irq: self.irq@,
            haltcnt: self.haltcnt.0,
            timers: self.timers@,
            dma: self.dma@,
            iwram: self.iwram@,
            ewram: self.ewram@,
            video: self.video@,
            audio: self.audio@,
            keypad: self.keypad@,
            bios: self.bios@,
            cart: self.cart@,
            io_todo: self.io_todo@,
        }
    }
}

impl BusModel {
    /// The memories have their sizes and the devices their invariants.
    pub open spec fn wf(self) -> bool {
        &&& self.iwram.len() == IWRAM_LEN
        &&& self.ewram.len() == EWRAM_LEN
        &&& self.io_todo.len() == IO_TODO_LEN
        &&& self.timers.len() == 4
        &&& forall|i: int| 0 <= i < 4 ==> #[trigger] self.timers[i].wf()
        &&& self.bios.wf()
        &&& self.cart.wf()
    }

    /// The byte a read of I/O register `a` (an offset below 0x400) yields: from the device
    /// that implements it, else as last written.
    pub open spec fn io_read_value(self, a: u32) -> u8 {
        if a <= 0x56 {
            self.video.io_read(a)
        } else if 0x60 <= a <= 0xa7 {
            audio_read_value(self.audio, a)
        } else if 0xb0 <= a <= 0xdf {
            dma_read_value(self.dma, a)
        } else if is_timer_addr(a) {
            self.timers[((a & 0xf) / 4) as int].read_value(a & 3)
        } else if is_keypad_addr(a) {
            self.keypad.read_value(a)
        } else if is_irq_addr(a) {
            self.irq.read_value(a)
        } else if a == 0x301 {
            0
        } else if a <= 0x800 {
            self.io_todo[a as int]
        } else {
            0
        }
    }

    /// The bus after a write of `value` to I/O register `a` (an offset below 0x400).
    pub open spec fn io_written(self, a: u32, value: u8) -> BusModel {
        if a <= 0x56 {
            BusModel { video: self.video.io_written(a, value), ..self }
        } else if 0x60 <= a <= 0xa7 {
            BusModel { audio: audio_written(self.audio, a, value), ..self }
        } else if 0xb0 <= a <= 0xdf {
            let i = ((a - 0xb0) / 12) as int;
            BusModel {
                dma: self.dma.update(i, chan_written(self.dma[i], i, ((a - 0xb0) % 12) as int, value)),
                ..self
            }
        } else if is_timer_addr(a) {
            let i = ((a & 0xf) / 4) as int;
            BusModel { timers: self.timers.update(i, self.timers[i].written(a & 3, value)), ..self }
        } else if is_keypad_addr(a) {
            BusModel { keypad: self.keypad.written(a, value), ..self }
        } else if is_irq_addr(a) {
            BusModel { irq: self.irq.written(a, value), ..self }
        } else if a == 0x301 {
            BusModel { haltcnt: halt_state_of(value), ..self }
        } else if a <= 0x800 {
            BusModel { io_todo: self.io_todo.update(a as int, value), ..self }
        } else {
            self
        }
    }

    /// Whether `addr` is in the cartridge's region.
    pub open spec fn is_cart_addr(addr: u32) -> bool {
        0x0800_0000 <= addr <= 0x0fff_ffff
    }
}

impl<'r> Bus<'r> {
    fn io_read_byte(&mut self, a: u32) -> (r: u8)
        requires
            old(self).ready(),
            a < 0x400,
        ensures
            final(self).ready(),
            r == old(self)@.io_read_value(a),
            final(self)@ == old(self)@,
    {
        if a <= 0x56 {
            self.video.read_byte(a)
        } else if 0x60 <= a && a <= 0xa7 {
            self.audio.read_byte(a)
        } else if 0xb0 <= a && a <= 0xdf {
            self.dma.read_byte(a)
        } else if 0x100 <= a && a < 0x110 {
            self.timers.read_byte(a)
        } else if 0x130 <= a && a <= 0x133 {
            self.keypad.read_byte(a)
        } else if (0x200 <= a && a <= 0x203) || (0x208 <= a && a <= 0x20b) {
            self.irq.read_byte(a)
        } else if a == 0x301 {
            self.haltcnt.read_byte(a)
        } else {
            self.io_todo[a as usize]
        }
    }

    fn io_write_byte(&mut self, a: u32, value: u8)
        requires
            old(self).ready(),
            a < 0x400,
        ensures
            final(self).ready(),
            final(self)@ == old(self)@.io_written(a, value),
    {
        if a <= 0x56 {
            self.video.write_byte(a, value);
        } else if 0x60 <= a && a <= 0xa7 {
            self.audio.write_byte(a, value);
        } else if 0xb0 <= a && a <= 0xdf {
            self.dma.write_byte(a, value);
        } else if 0x100 <= a && a < 0x110 {
            self.timers.write_byte(a, value);
            proof {
                lemma_io_offsets(a);
                let i = ((a & 0xf) / 4) as int;
                assert forall|j: int| 0 <= j < 4 implies #[trigger] self@.timers[j].wf() by {
                    if j == i {
                        assert(old(self)@.timers[i].wf());
                    }
                }
            }
        } else if 0x130 <= a && a <= 0x133 {
            self.keypad.write_byte(a, value);
        } else if (0x200 <= a && a <= 0x203) || (0x208 <= a && a <= 0x20b) {
            self.irq.write_byte(a, value);
        } else if a == 0x301 {
            self.haltcnt.write_byte(a, value);
        } else {
            self.io_todo.set(a as usize, value);
        }
    }
}

impl<'r> MemoryBus for Bus<'r> {
    /// The memories have their sizes and the devices their invariants.
    open spec fn ready(&self) -> bool {
        &&& self@.wf()
        &&& self.video.wf()
        &&& self.audio.wf()
    }

    /// BIOS, external and internal work RAM (mirrored through their regions), the I/O
    /// registers, palette RAM, VRAM and OAM (mirrored), and the cartridge (0xff where it cannot
    /// be read); unmapped addresses read 0xff.
    open spec fn read_value(bus: BusModel, addr: u32) -> u8 {
        if addr <= 0x3fff {
            bus.bios.read_value(addr)
        } else if 0x0200_0000 <= addr <= 0x02ff_ffff {
            bus.ewram[(addr & 0x3_ffff) as int]
        } else if 0x0300_0000 <= addr <= 0x03ff_ffff {
            bus.iwram[(addr & 0x7fff) as int]
        } else if 0x0400_0000 <= addr <= 0x0400_03fe {
            bus.io_read_value(addr & 0x3ff)
        } else if 0x0500_0000 <= addr <= 0x05ff_ffff {
            bus.video.palette[(addr & 0x3ff) as int]
        } else if 0x0600_0000 <= addr <= 0x06ff_ffff {
            bus.video.vram[vram_offset(addr & 0x1_ffff)]
        } else if 0x0700_0000 <= addr <= 0x07ff_ffff {
            bus.video.oam[(addr & 0x3ff) as int]
        } else if BusModel::is_cart_addr(addr) {
            if bus.cart.can_read(addr & 0x7ff_ffff) {
                bus.cart.read(addr & 0x7ff_ffff).1
            } else {
                0xff
            }
        } else {
            0xff
        }
    }

    /// Only cartridge reads change anything (the EEPROM's read sequence).
    open spec fn after_read(bus: BusModel, addr: u32) -> BusModel {
        if BusModel::is_cart_addr(addr) && bus.cart.can_read(addr & 0x7ff_ffff) {
            BusModel { cart: bus.cart.read(addr & 0x7ff_ffff).0, ..bus }
        } else {
            bus
        }
    }

    /// Work RAM stores the byte; I/O registers go to their devices; palette RAM, and VRAM's
    /// background data, store it as a half-word holding it twice; the cartridge takes it where
    /// it can; the BIOS, OAM and unmapped addresses ignore it.
    open spec fn after_write(bus: BusModel, addr: u32, value: u8) -> BusModel {
        if 0x0200_0000 <= addr <= 0x02ff_ffff {
            BusModel { ewram: bus.ewram.update((addr & 0x3_ffff) as int, value), ..bus }
        } else if 0x0300_0000 <= addr <= 0x03ff_ffff {
            BusModel { iwram: bus.iwram.update((addr & 0x7fff) as int, value), ..bus }
        } else if 0x0400_0000 <= addr <= 0x0400_03fe {
            bus.io_written(addr & 0x3ff, value)
        } else if 0x0500_0000 <= addr <= 0x05ff_ffff {
            BusModel {
                video: VideoModel {
                    palette: hword_stored(bus.video.palette, (addr & 0x3ff) as int, doubled(value)),
                    ..bus.video
                },
                ..bus
            }
        } else if 0x0600_0000 <= addr <= 0x06ff_ffff {
            let offset = vram_offset(addr & 0x1_ffff);
            let obj_vram = if background_mode(bus.video.dispcnt.mode) == BackgroundMode::Tile {
                0x1_0000int
            } else {
                0x1_4000int
            };
            BusModel {
                video: VideoModel {
                    vram: if offset < obj_vram {
                        hword_stored(bus.video.vram, offset, doubled(value))
                    } else {
                        bus.video.vram
                    },
                    ..bus.video
                },
                ..bus
            }
        } else if BusModel::is_cart_addr(addr) && bus.cart.can_write(addr & 0x7ff_ffff, value) {
            BusModel { cart: bus.cart.written(addr & 0x7ff_ffff, value), ..bus }
        } else {
            bus
        }
    }

    /// The BIOS notes the fetch address (for its read protection).
    open spec fn after_prefetch(bus: BusModel, addr: u32) -> BusModel {
        BusModel { bios: bus.bios.protection_updated(addr), ..bus }
    }

    /// Palette RAM, VRAM and OAM store the half-word; elsewhere it is two byte writes.
    open spec fn after_write_hword(bus: BusModel, addr: u32, value: u16) -> BusModel {
        if 0x0500_0000 <= addr <= 0x05ff_ffff {
            BusModel {
                video: VideoModel {
                    palette: hword_stored(bus.video.palette, (addr & 0x3ff) as int, value),
                    ..bus.video
                },
                ..bus
            }
        } else if 0x0600_0000 <= addr <= 0x06ff_ffff {
            BusModel {
                video: VideoModel {
                    vram: hword_stored(bus.video.vram, vram_offset(addr & 0x1_ffff), value),
                    ..bus.video
                },
                ..bus
            }
        } else if 0x0700_0000 <= addr <= 0x07ff_ffff {
            BusModel {
                video: VideoModel {
                    oam: hword_stored(bus.video.oam, (addr & 0x3ff) as int, value),
                    ..bus.video
                },
                ..bus
            }
        } else {
            Self::after_write(
                Self::after_write(bus, addr, (value & 0xff) as u8),
                addr.wrapping_add(1),
                (value >> 8u16) as u8,
            )
        }
    }

    fn read_byte(&mut self, addr: u32) -> (r: u8) {
        proof {
            lemma_and_le(addr, 0x3_ffff);
            lemma_and_le(addr, 0x7fff);
            lemma_and_le(addr, 0x3ff);
            lemma_and_le(addr, 0x1_ffff);
            lemma_and_le(addr, 0x7ff_ffff);
        }
        if addr <= 0x3fff {
            self.bios.read_byte(addr)
        } else if 0x0200_0000 <= addr && addr <= 0x02ff_ffff {
            self.ewram[(addr & 0x3_ffff) as usize]
        } else if 0x0300_0000 <= addr && addr <= 0x03ff_ffff {
            self.iwram[(addr & 0x7fff) as usize]
        } else if 0x0400_0000 <= addr && addr <= 0x0400_03fe {
            self.io_read_byte(addr & 0x3ff)
        } else if 0x0500_0000 <= addr && addr <= 0x05ff_ffff {
            self.video.palette_read_byte(addr & 0x3ff)
        } else if 0x0600_0000 <= addr && addr <= 0x06ff_ffff {
            self.video.vram_read_byte(addr & 0x1_ffff)
        } else if 0x0700_0000 <= addr && addr <= 0x07ff_ffff {
            self.video.oam_read_byte(addr & 0x3ff)
        } else if 0x0800_0000 <= addr && addr <= 0x0fff_ffff {
            if self.cart.can_read(addr & 0x7ff_ffff) {
                self.cart.read_byte(addr & 0x7ff_ffff)
            } else {
                0xff
            }
        } else {
            0xff
        }
    }

    fn write_byte(&mut self, addr: u32, value: u8) {
        proof {
            lemma_and_le(addr, 0x3_ffff);
            lemma_and_le(addr, 0x7fff);
            lemma_and_le(addr, 0x3ff);
            lemma_and_le(addr, 0x1_ffff);
            lemma_and_le(addr, 0x7ff_ffff);
        }
        if 0x0200_0000 <= addr && addr <= 0x02ff_ffff {
            self.ewram.set((addr & 0x3_ffff) as usize, value);
        } else if 0x0300_0000 <= addr && addr <= 0x03ff_ffff {
            self.iwram.set((addr & 0x7fff) as usize, value);
        } else if 0x0400_0000 <= addr && addr <= 0x0400_03fe {
            self.io_write_byte(addr & 0x3ff, value);
        } else if 0x0500_0000 <= addr && addr <= 0x05ff_ffff {
            self.video.palette_write_byte(addr & 0x3ff, value);
        } else if 0x0600_0000 <= addr && addr <= 0x06ff_ffff {
            self.video.vram_write_byte(addr & 0x1_ffff, value);
        } else if 0x0800_0000 <= addr && addr <= 0x0fff_ffff {
            if self.cart.can_write(addr & 0x7ff_ffff, value) {
                self.cart.write_byte(addr & 0x7ff_ffff, value);
            }
        }
    }

    fn prefetch_instr(&mut self, addr: u32) {
        self.bios.update_protection(addr);
    }

    fn write_hword(&mut self, addr: u32, value: u16) {
        proof {
            lemma_and_le(addr, 0x3ff);
            lemma_and_le(addr, 0x1_ffff);
        }
        if 0x0500_0000 <= addr && addr <= 0x05ff_ffff {
            self.video.palette_write_hword(addr & 0x3ff, value);
        } else if 0x0600_0000 <= addr && addr <= 0x06ff_ffff {
            self.video.vram_write_hword(addr & 0x1_ffff, value);
        } else if 0x0700_0000 <= addr && addr <= 0x07ff_ffff {
            self.video.oam_write_hword(addr & 0x3ff, value);
        } else {
            self.write_byte(addr, (value & 0xff) as u8);
            self.write_byte(addr.wrapping_add(1), (value >> 8u16) as u8);
        }
    }
}

/// Whether a DMA channel is transferring.
pub open spec fn dma_busy(chans: Seq<Channel>) -> bool {
    exists|i: int| 0 <= i < 4 && chans[i].state != TransferState::Idle
}

/// The interrupt controller after the keypad's step: its interrupt is requested when its
/// condition holds.
pub open spec fn keypad_stepped(keypad: KeypadModel, irq: IrqModel) -> IrqModel {
    if keypad.irq_condition() {
        irq_requested(irq, Interrupt::Keypad)
    } else {
        irq
    }
}

/// The DMA channels, interrupt controller and cartridge after a DMA step of `cycles` cycles,
/// and the transfer to run on the bus: the first active channel moves its units.
pub open spec fn dma_stepped(chans: Seq<Channel>, irq: IrqModel, cart: CartridgeModel, cycles: u8) -> (
    Seq<Channel>,
    IrqModel,
    CartridgeModel,
    Option<Transfer>,
) {
    match first_active(chans, 0) {
        None => (chans, irq, cart, None),
        Some(i) => {
            let chan = chans[i];
            (
                chans.update(i, chan_stepped(chan, i, cycles)),
                if requests_irq(chan, i, cycles) {
                    irq_requested(irq, dma_interrupt(i))
                } else {
                    irq
                },
                if tells_eeprom(chan, cart) {
                    cart.eeprom_dma_notified(chan.rem_blocks)
                } else {
                    cart
                },
                Some(transfer_of(chan, i, cycles)),
            )
        },
    }
}

/// The sound unit after the overflows of the first `n` timers of a timer step's results.
pub open spec fn overflows_notified(audio: AudioModel, results: Seq<(TimerModel, u8)>, n: nat) -> AudioModel
    decreases n,
{
    if n == 0 {
        audio
    } else {
        timer_overflow_notified(
            overflows_notified(audio, results, (n - 1) as nat),
            (n - 1) as usize,
            results[n - 1].1,
        )
    }
}

/// The processor and HALTCNT after the interrupt controller's step: a pending interrupt wakes
/// the processor, and with interrupts enabled (IME) makes the interrupt exception pending.
pub open spec fn irq_serviced(irq: IrqModel, cpu: CpuModel, halt: State) -> (CpuModel, State) {
    (
        if irq.pending() && irq.intme & 1 == 1 {
            CpuModel {
                pending: cpu.pending.update(Exception::Interrupt.spec_priority() as int, true),
                ..cpu
            }
        } else {
            cpu
        },
        if irq.pending() {
            State::Running
        } else {
            halt
        },
    )
}

/// The devices after 3 cycles: video, the timers (handing their overflows to the sound
/// FIFOs), a DMA step and its transfer, then sound.
#[verifier::opaque]
pub open spec fn peripherals_stepped(b: BusModel) -> BusModel {
    let (v, irq_v, dma_v) = video_stepped(b.video, b.irq, b.dma, 3);
    let results = step_results(b.timers, 3, 4);
    let irq_t = IrqModel { intf: irq_v.intf | timer_irq_bits(b.timers, results, 4), ..irq_v };
    let audio_n = overflows_notified(b.audio, results, 4);
    let (dma_d, irq_d, cart_d, t) = dma_stepped(dma_v, irq_t, b.cart, 3);
    let b_pre = BusModel {
        video: v,
        irq: irq_d,
        dma: dma_d,
        timers: results.map_values(|p: (TimerModel, u8)| p.0),
        audio: audio_n,
        cart: cart_d,
        ..b
    };
    let b_t = match t {
        Some(t) => copied::<Bus<'static>>(
            b_pre,
            t.src_addr,
            t.dst_addr,
            t.blocks as nat,
            t.transfer_word,
            t.src_addr_ctrl,
            t.dst_addr_ctrl,
        ),
        None => b_pre,
    };
    BusModel {
        audio: audio_stepped(b_t.audio, 3).0,
        dma: audio_step_dma(b_t.audio, 3, b_t.dma),
        ..b_t
    }
}

/// One step of the system, or `None` where an object with mosaic would be drawn before the
/// object mosaic size was set: the keypad's interrupt; an instruction step of the processor
/// when it runs and no DMA transfer is in progress; unless stopped, 3 cycles of the devices;
/// then the interrupt controller's step.
pub open spec fn gba_stepped(c: CpuModel, b: BusModel) -> Option<(CpuModel, BusModel)> {
    let b1 = BusModel { irq: keypad_stepped(b.keypad, b.irq), ..b };
    let (c2, b2) = if b1.haltcnt == State::Running && !dma_busy(b1.dma) {
        stepped::<Bus<'static>>(c, b1)
    } else {
        (c, b1)
    };
    if b2.haltcnt != State::Stopped && !b2.video.obj_mosaic_ok() {
        None
    } else {
        let b3 = if b2.haltcnt != State::Stopped {
            peripherals_stepped(b2)
        } else {
            b2
        };
        let (c4, halt) = irq_serviced(b3.irq, c2, b3.haltcnt);
        Some((c4, BusModel { haltcnt: halt, ..b3 }))
    }
}

/// A step could not be completed: an object with mosaic was to be drawn before the object
/// mosaic size was set.
#[derive(Debug, Copy, Clone, PartialEq, Eq, Structural)]
pub struct MosaicUnset;

impl BusModel {
    /// The bus at power-on, with BIOS ROM `bios_rom` and cartridge `cart`.
    pub open spec fn is_power_on(self, bios_rom: Seq<u8>, cart: CartridgeModel) -> bool {
        &&& self.irq == (IrqModel { intme: 0, inte: 0, intf: 0 })
        &&& self.haltcnt == State::Running
        &&& self.timers == Seq::new(
            4,
            |i: int|
                TimerModel {
                    accum: 0,
                    initial: 0,
                    counter: 0,
                    prescalar_select: PrescalarSelect::Div1,
                    cascade: false,
                    irq_enabled: false,
                    start: false,
                    cached_bits: 0,
                },
        )
        &&& self.dma == Seq::new(4, |i: int| Channel::zeroed())
        &&& self.iwram == Seq::new(IWRAM_LEN as nat, |i: int| 0u8)
        &&& self.ewram == Seq::new(EWRAM_LEN as nat, |i: int| 0u8)
        &&& self.io_todo == Seq::new(IO_TODO_LEN as nat, |i: int| 0u8)
        &&& self.video.is_reset()
        &&& self.audio == initial_audio()
        &&& self.keypad == (KeypadModel {
            pressed: 0,
            irq_keys: 0,
            irq_enabled: false,
            irq_all_pressed: false,
        })
        &&& self.bios == (BiosModel { rom: bios_rom, readable: false, prefetch_addr: 0 })
        &&& self.cart == cart
    }
}

/// The system after a reset: the BIOS protection cleared, the processor reset, the sound unit
/// reset; skipping the BIOS also clears the top 512 bytes of on-chip work RAM and notes a
/// fetch from the BIOS's last instruction (at 0xe4).
pub open spec fn gba_reset(c: CpuModel, b: BusModel, skip_bios: bool) -> (CpuModel, BusModel) {
    let b1 = BusModel { bios: BiosModel { readable: false, prefetch_addr: 0, ..b.bios }, ..b };
    let (c2, b2) = reset_state::<Bus<'static>>(c, b1, skip_bios);
    let a = if skip_bios {
        audio_written(
            audio_written(audio_written(audio_written(b2.audio, 0x88, 0x00), 0x89, 0x02), 0x8a, 0x00),
            0x8b,
            0x00,
        )
    } else {
        b2.audio
    };
    let b3 = BusModel { audio: a, ..b2 };
    if skip_bios {
        (
            c2,
            BusModel {
                iwram: Seq::new(
                    IWRAM_LEN as nat,
                    |i: int|
                        if i >= 0x7e00 {
                            0u8
                        } else {
                            b3.iwram[i]
                        },
                ),
                bios: b3.bios.protection_updated(0xe4),
                ..b3
            },
        )
    } else {
        (c2, b3)
    }
}

/// Clears the top 512 bytes of on-chip work RAM.
fn clear_iwram_top(iwram: &mut Vec<u8>)
    requires
        old(iwram)@.len() == IWRAM_LEN,
    ensures
        final(iwram)@ == Seq::new(
            IWRAM_LEN as nat,
            |j: int|
                if j >= 0x7e00 {
                    0u8
                } else {
                    old(iwram)@[j]
                },
        ),
{
    let mut i: usize = 0x7e00;
    while i < IWRAM_LEN
        invariant
            0x7e00 <= i <= IWRAM_LEN,
            iwram@.len() == IWRAM_LEN,
            forall|j: int|
                0 <= j < IWRAM_LEN ==> #[trigger] iwram@[j] == if 0x7e00 <= j < i {
                    0u8
                } else {
                    old(iwram)@[j]
                },
        decreases IWRAM_LEN - i,
    {
        iwram.set(i, 0);
        i += 1;
    }
    assert(iwram@ =~= Seq::new(
        IWRAM_LEN as nat,
        |j: int|
            if j >= 0x7e00 {
                0u8
            } else {
                old(iwram)@[j]
            },
    ));
}

impl<'r> Bus<'r> {
    /// Runs the devices for 3 cycles: video (dots to `video_cb`), the timers (their overflows
    /// handed to the sound FIFOs), a DMA step and its transfer, then sound (samples to
    /// `audio_cb`).
    #[verifier::rlimit(60)]
    pub fn step_peripherals<V: crate::video::Callback, A: crate::audio::Callback>(
        &mut self,
        video_cb: &mut V,
        audio_cb: &mut A,
    )
        requires
            old(self).ready(),
            old(self)@.video.obj_mosaic_ok(),
        ensures
            final(self).ready(),
            final(self)@ == peripherals_stepped(old(self)@),
    {
        reveal(peripherals_stepped);
        let ghost b2 = self@;
        self.video.step(video_cb, &mut self.irq, &mut self.dma, 3);
        let overflows = self.timers.step(&mut self.irq, 3);
        let ghost results = step_results(b2.timers, 3, 4);
        let ghost a0 = self.audio@;
        self.audio.notify_timer_overflow(0, overflows[0]);
        self.audio.notify_timer_overflow(1, overflows[1]);
        self.audio.notify_timer_overflow(2, overflows[2]);
        self.audio.notify_timer_overflow(3, overflows[3]);
        proof {
            assert(overflows@[0] == results[0].1);
            assert(overflows@[1] == results[1].1);
            assert(overflows@[2] == results[2].1);
            assert(overflows@[3] == results[3].1);
            reveal_with_fuel(overflows_notified, 5);
            assert(self.audio@ == overflows_notified(a0, results, 4));
        }
        let transfer = self.dma.step(&mut self.irq, &mut self.cart, 3);
        match transfer {
            Some(t) => t.run(self),
            None => {},
        }
        self.audio.step(audio_cb, &mut self.dma, 3);
    }
}

/// The console: the processor, and the bus through which it reaches everything else.
pub struct Gba<'r> {
    pub cpu: Cpu,
    pub bus: Bus<'r>,
}

impl<'r> Gba<'r> {
    /// A console at power-on with BIOS ROM `bios_rom` and cartridge `cart`.
    pub fn new(bios_rom: crate::bios::Rom, cart: Cartridge<'r>) -> (r: Gba<'r>)
        requires
            cart@.wf(),
        ensures
            r.bus.ready(),
            r.cpu@ == Cpu::new_model(),
            r.bus@.is_power_on(bios_rom@, cart@),
    {
        let ghost rom = bios_rom@;
        let ghost cart_model = cart@;
        let r = Gba {
            cpu: Cpu::new(),
            bus: Bus {
                irq: Irq::new(),
                haltcnt: HaltControl::new(),
                timers: Timers::new(),
                dma: Dma::new(),
                iwram: vec![0u8; IWRAM_LEN],
                ewram: vec![0u8; EWRAM_LEN],
                video: Video::new(),
                audio: Audio::new(),
                keypad: Keypad::new(),
                bios: Bios::new(bios_rom),
                cart,
                io_todo: vec![0u8; IO_TODO_LEN],
            },
        };
        proof {
            assert(r.bus@.timers =~= Seq::new(
                4,
                |i: int|
                    TimerModel {
                        accum: 0,
                        initial: 0,
                        counter: 0,
                        prescalar_select: PrescalarSelect::Div1,
                        cascade: false,
                        irq_enabled: false,
                        start: false,
                        cached_bits: 0,
                    },
            ));
            assert(r.bus@.iwram =~= Seq::new(IWRAM_LEN as nat, |i: int| 0u8));
            assert(r.bus@.ewram =~= Seq::new(EWRAM_LEN as nat, |i: int| 0u8));
            assert(r.bus@.io_todo =~= Seq::new(IO_TODO_LEN as nat, |i: int| 0u8));
        }
        r
    }

    /// Resets the console; with `skip_bios`, as the BIOS would leave it at the cartridge.
    pub fn reset(&mut self, skip_bios: bool)
        requires
            old(self).bus.ready(),
        ensures
            final(self).bus.ready(),
            (final(self).cpu@, final(self).bus@) == gba_reset(
                old(self).cpu@,
                old(self).bus@,
                skip_bios,
            ),
    {
        self.bus.bios.reset();
        self.cpu.reset(&mut self.bus, skip_bios);
        self.bus.audio.reset(skip_bios);
        if skip_bios {
            clear_iwram_top(&mut self.bus.iwram);
            self.bus.bios.update_protection(0xdc + 8);
        }
    }

    /// Runs the console for one step: the keypad's interrupt; an instruction of the processor
    /// when it runs and no DMA transfer is in progress; unless it is stopped, 3 cycles of video
    /// (dots to `video_cb`), the timers, DMA and sound (samples to `audio_cb`); then the
    /// interrupt controller. Fails, part-way, where an object with mosaic would be drawn before
    /// the object mosaic size was set: drawing it would divide by that size, which is zero, so
    /// the step stops and reports `MosaicUnset` where a division would panic.
    #[verifier::rlimit(60)]
    pub fn step<V: crate::video::Callback, A: crate::audio::Callback>(
        &mut self,
        video_cb: &mut V,
        audio_cb: &mut A,
    ) -> (r: Result<(), MosaicUnset>)
        requires
            old(self).bus.ready(),
        ensures
            final(self).bus.ready(),
            match gba_stepped(old(self).cpu@, old(self).bus@) {
                Some((c, b)) => r is Ok && final(self).cpu@ == c && final(self).bus@ == b,
                None => r is Err,
            },
    {
        self.bus.keypad.step(&mut self.bus.irq);
        let running = match self.bus.haltcnt.0 {
            State::Running => true,
            _ => false,
        };
        if running && !self.bus.dma.transfer_in_progress() {
            self.cpu.step(&mut self.bus);
        }
        let stopped = match self.bus.haltcnt.0 {
            State::Stopped => true,
            _ => false,
        };
        if !stopped {
            if !self.bus.video.objects_drawable() {
                return Err(MosaicUnset);
            }
            self.bus.step_peripherals(video_cb, audio_cb);
        }
        self.bus.irq.step(&mut self.cpu, &mut self.bus.haltcnt);
        Ok(())
    }
}

} // verus!
