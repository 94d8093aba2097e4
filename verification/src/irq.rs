use vstd::prelude::*;

use crate::arm7tdmi::{Cpu, CpuModel, Exception};
use crate::gba::{HaltControl, State};

verus! {

/// An interrupt source, in the order of its bit in IE and IF.
#[derive(Debug, Copy, Clone, PartialEq, Eq, Structural)]
pub enum Interrupt {
    VBlank,
    HBlank,
    VCount,
    Timer0,
    Timer1,
    Timer2,
    Timer3,
    Serial,
    Dma0,
    Dma1,
    Dma2,
    Dma3,
    Keypad,
    GamePak,
}

impl Interrupt {
    /// The interrupt's bit in IE and IF.
    pub open spec fn bit_index(self) -> u16 {
        match self {
            Interrupt::VBlank => 0,
            Interrupt::HBlank => 1,
            Interrupt::VCount => 2,
            Interrupt::Timer0 => 3,
            Interrupt::Timer1 => 4,
            Interrupt::Timer2 => 5,
            Interrupt::Timer3 => 6,
            Interrupt::Serial => 7,
            Interrupt::Dma0 => 8,
            Interrupt::Dma1 => 9,
            Interrupt::Dma2 => 10,
            Interrupt::Dma3 => 11,
            Interrupt::Keypad => 12,
            Interrupt::GamePak => 13,
        }
    }

    fn index(self) -> (r: u16)
        ensures
            r == self.bit_index(),
    {
        match self {
            Interrupt::VBlank => 0,
            Interrupt::HBlank => 1,
            Interrupt::VCount => 2,
            Interrupt::Timer0 => 3,
            Interrupt::Timer1 => 4,
            Interrupt::Timer2 => 5,
            Interrupt::Timer3 => 6,
            Interrupt::Serial => 7,
            Interrupt::Dma0 => 8,
            Interrupt::Dma1 => 9,
            Interrupt::Dma2 => 10,
            Interrupt::Dma3 => 11,
            Interrupt::Keypad => 12,
            Interrupt::GamePak => 13,
        }
    }
}

/// The model of the interrupt controller: IME, IE and IF.
pub struct IrqModel {
    pub intme: u32,
    pub inte: u16,
    pub intf: u16,
}

/// The interrupt controller: the master enable (IME), the enabled sources (IE) and the
/// requested ones (IF).
#[derive(Debug, Default)]
pub struct Irq {
    intme: u32,
    inte: u16,
    intf: u16,
}

impl View for Irq {
    type V = IrqModel;

    closed spec fn view(&self) -> IrqModel {
        IrqModel { intme: self.intme, inte: self.inte, intf: self.intf }
    }
}

/// The interrupt controller after a request of `interrupt`: its bit set in IF.
pub open spec fn irq_requested(irq: IrqModel, interrupt: Interrupt) -> IrqModel {
    IrqModel { intf: irq.intf | (1u16 << interrupt.bit_index()), ..irq }
}

/// Whether `addr` is one of the controller's I/O register bytes.
pub open spec fn is_irq_addr(addr: u32) -> bool {
    0x200 <= addr <= 0x203 || 0x208 <= addr <= 0x20b
}

impl IrqModel {
    /// Whether an enabled source has requested an interrupt.
    pub open spec fn pending(self) -> bool {
        (self.inte & 0x3fff) & self.intf != 0
    }

    /// The byte at I/O address `addr`: IE at 0x200, IF at 0x202 and IME at 0x208, little-endian.
    pub open spec fn read_value(self, addr: u32) -> u8 {
        if addr == 0x200 {
            (self.inte & 0xff) as u8
        } else if addr == 0x201 {
            (self.inte >> 8u16) as u8
        } else if addr == 0x202 {
            (self.intf & 0xff) as u8
        } else if addr == 0x203 {
            (self.intf >> 8u16) as u8
        } else {
            ((self.intme >> (8 * (addr - 0x208)) as u32) & 0xff) as u8
        }
    }

    /// Writing `value` at I/O address `addr`: IE and IME bytes are replaced, while writing
    /// ones to IF acknowledges (clears) those requests.
    pub open spec fn written(self, addr: u32, value: u8) -> IrqModel {
        if addr == 0x200 {
            IrqModel { inte: (self.inte & 0xff00) | (value as u16), ..self }
        } else if addr == 0x201 {
            IrqModel { inte: (self.inte & 0xff) | ((value as u16) << 8u16), ..self }
        } else if addr == 0x202 {
            IrqModel { intf: self.intf & !(value as u16), ..self }
        } else if addr == 0x203 {
            IrqModel { intf: self.intf & !((value as u16) << 8u16), ..self }
        } else {
            let shift = (8 * (addr - 0x208)) as u32;
            IrqModel {
                intme: (self.intme & !(0xffu32 << shift)) | ((value as u32) << shift),
                ..self
            }
        }
    }
}

/// IE reads back as written, and writing ones to IF acknowledges those requests while the
/// others stay.
pub proof fn lemma_irq_write_effects(m: IrqModel, value: u8)
    ensures
        m.written(0x200, value).read_value(0x200) == value,
        m.written(0x201, value).read_value(0x201) == value,
        m.written(0x202, value).read_value(0x202) == m.read_value(0x202) & !value,
        m.written(0x203, value).read_value(0x203) == m.read_value(0x203) & !value,
{
    let e = m.inte;
    let f = m.intf;
    assert({
        &&& (((e & 0xff00) | (value as u16)) & 0xff) as u8 == value
        &&& (((e & 0xff) | ((value as u16) << 8u16)) >> 8u16) as u8 == value
        &&& ((f & !(value as u16)) & 0xff) as u8 == ((f & 0xff) as u8) & !value
        &&& ((f & !((value as u16) << 8u16)) >> 8u16) as u8 == ((f >> 8u16) as u8) & !value
    }) by (bit_vector);
}

impl Irq {
    pub fn new() -> (r: Irq)
        ensures
            r@ == (IrqModel { intme: 0, inte: 0, intf: 0 }),
    {
        Irq { intme: 0, inte: 0, intf: 0 }
    }

    /// When an enabled source has requested an interrupt, wakes the processor and, if IME is
    /// set, raises the IRQ exception.
    pub fn step(&mut self, cpu: &mut Cpu, haltcnt: &mut HaltControl)
        ensures
            final(self)@ == old(self)@,
            final(haltcnt).0 == (if old(self)@.pending() {
                State::Running
            } else {
                old(haltcnt).0
            }),
            final(cpu)@ == (if old(self)@.pending() && old(self)@.intme & 1 == 1 {
                CpuModel {
                    pending: old(cpu)@.pending.update(
                        Exception::Interrupt.spec_priority() as int,
                        true,
                    ),
                    ..old(cpu)@
                }
            } else {
                old(cpu)@
            }),
    {
        if (self.inte & 0x3fff) & self.intf == 0 {
            return;
        }
        haltcnt.0 = State::Running;
        if self.intme & 1 == 1 {
            cpu.raise_exception(Exception::Interrupt);
        }
    }

    /// Requests `interrupt`: sets its bit in IF.
    pub fn request(&mut self, interrupt: Interrupt)
        ensures
            final(self)@ == irq_requested(old(self)@, interrupt),
    {
        self.intf = self.intf | (1u16 << interrupt.index());
    }

    /// Reads the I/O register byte at `addr`.
    pub fn read_byte(&mut self, addr: u32) -> (r: u8)
        requires
            is_irq_addr(addr),
        ensures
            r == old(self)@.read_value(addr),
            final(self)@ == old(self)@,
    {
        if addr == 0x200 {
            (self.inte & 0xff) as u8
        } else if addr == 0x201 {
            (self.inte >> 8u16) as u8
        } else if addr == 0x202 {
            (self.intf & 0xff) as u8
        } else if addr == 0x203 {
            (self.intf >> 8u16) as u8
        } else {
            ((self.intme >> (8 * (addr - 0x208))) & 0xff) as u8
        }
    }

    /// Writes the I/O register byte at `addr`.
    pub fn write_byte(&mut self, addr: u32, value: u8)
        requires
            is_irq_addr(addr),
        ensures
            final(self)@ == old(self)@.written(addr, value),
    {
        if addr == 0x200 {
            self.inte = (self.inte & 0xff00) | (value as u16);
        } else if addr == 0x201 {
            self.inte = (self.inte & 0xff) | ((value as u16) << 8u16);
        } else if addr == 0x202 {
            self.intf = self.intf & !(value as u16);
        } else if addr == 0x203 {
            self.intf = self.intf & !((value as u16) << 8u16);
        } else {
            let shift = 8 * (addr - 0x208);
            self.intme = (self.intme & !(0xffu32 << shift)) | ((value as u32) << shift);
        }
    }
}

} // verus!
