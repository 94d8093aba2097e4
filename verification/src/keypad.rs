use vstd::prelude::*;

use crate::irq::{Interrupt, Irq, IrqModel};

verus! {

/// A button, in the order of its bit in KEYINPUT and KEYCNT.
#[derive(Debug, Copy, Clone, PartialEq, Eq, Structural)]
pub enum Key {
    A,
    B,
    Select,
    Start,
    Right,
    Left,
    Up,
    Down,
    R,
    L,
}

/// The number of buttons.
pub const KEY_COUNT: usize = 10;

impl Key {
    /// The button's bit in KEYINPUT and KEYCNT.
    pub open spec fn bit_index(self) -> u16 {
        match self {
            Key::A => 0,
            Key::B => 1,
            Key::Select => 2,
            Key::Start => 3,
            Key::Right => 4,
            Key::Left => 5,
            Key::Up => 6,
            Key::Down => 7,
            Key::R => 8,
            Key::L => 9,
        }
    }

    fn index(self) -> (r: u16)
        ensures
            r == self.bit_index(),
    {
        match self {
            Key::A => 0,
            Key::B => 1,
            Key::Select => 2,
            Key::Start => 3,
            Key::Right => 4,
            Key::Left => 5,
            Key::Up => 6,
            Key::Down => 7,
            Key::R => 8,
            Key::L => 9,
        }
    }
}

/// The keypad interrupt control (KEYCNT).
#[derive(Default, Copy, Clone, Debug)]
struct IrqControl {
    keys: u16,
    enabled: bool,
    all_pressed: bool,
}

/// The model of the keypad: the pressed buttons and the interrupt control.
pub struct KeypadModel {
    pub pressed: u16,
    pub irq_keys: u16,
    pub irq_enabled: bool,
    pub irq_all_pressed: bool,
}

/// The keypad: which buttons are held, and when they raise the keypad interrupt.
#[derive(Default, Copy, Clone, Debug)]
pub struct Keypad {
    pressed: u16,
    keycnt: IrqControl,
}

impl View for Keypad {
    type V = KeypadModel;

    closed spec fn view(&self) -> KeypadModel {
        KeypadModel {
            pressed: self.pressed,
            irq_keys: self.keycnt.keys,
            irq_enabled: self.keycnt.enabled,
            irq_all_pressed: self.keycnt.all_pressed,
        }
    }
}

/// Whether `addr` is one of the keypad's I/O register bytes.
pub open spec fn is_keypad_addr(addr: u32) -> bool {
    0x130 <= addr <= 0x133
}

impl KeypadModel {
    /// Whether the keypad interrupt condition holds: with the interrupt enabled, all the
    /// selected buttons are held (some button being held), or else any selected button is.
    pub open spec fn irq_condition(self) -> bool {
        self.irq_enabled && if self.irq_all_pressed {
            self.pressed != 0 && self.irq_keys & self.pressed == self.pressed
        } else {
            self.irq_keys & self.pressed != 0
        }
    }

    /// The byte at I/O address `addr`: KEYINPUT (0x130) reads a set bit for each released
    /// button; KEYCNT (0x132) gives the selected buttons, with the enable and the all-pressed
    /// flags in bits 6 and 7 of its high byte.
    pub open spec fn read_value(self, addr: u32) -> u8 {
        if addr == 0x130 {
            (!self.pressed & 0xff) as u8
        } else if addr == 0x131 {
            (!self.pressed >> 8u16) as u8
        } else if addr == 0x132 {
            (self.irq_keys & 0xff) as u8
        } else {
            let hi = (self.irq_keys >> 8u16) as u8;
            let hi6 = if self.irq_enabled {
                hi | 0x40
            } else {
                hi & !0x40u8
            };
            if self.irq_all_pressed {
                hi6 | 0x80
            } else {
                hi6 & !0x80u8
            }
        }
    }

    /// Writing `value` at I/O address `addr`: the bytes of KEYCNT set the selected buttons;
    /// KEYINPUT ignores writes.
    pub open spec fn written(self, addr: u32, value: u8) -> KeypadModel {
        if addr == 0x132 {
            KeypadModel { irq_keys: (self.irq_keys & 0xff00) | (value as u16), ..self }
        } else if addr == 0x133 {
            KeypadModel { irq_keys: (self.irq_keys & 0xff) | ((value as u16) << 8u16), ..self }
        } else {
            self
        }
    }
}

/// KEYINPUT, read as a half-word, has a bit clear exactly for each held button.
pub open spec fn keyinput(m: KeypadModel) -> u16 {
    ((m.read_value(0x131) as u16) << 8u16) | (m.read_value(0x130) as u16)
}

/// KEYINPUT reads the complement of the held buttons, so that a button just pressed reads as
/// a clear bit and one just released as a set bit.
pub proof fn lemma_keyinput_active_low(m: KeypadModel, key: Key)
    ensures
        keyinput(m) == !m.pressed,
        keyinput(KeypadModel { pressed: m.pressed | (1u16 << key.bit_index()), ..m }) & (1u16
            << key.bit_index()) == 0,
        keyinput(KeypadModel { pressed: m.pressed & !(1u16 << key.bit_index()), ..m }) & (1u16
            << key.bit_index()) != 0,
{
    let i = key.bit_index();
    let p = m.pressed;
    let set = p | (1u16 << i);
    let clear = p & !(1u16 << i);
    assert({
        &&& (((((!p >> 8u16) as u8) as u16) << 8u16) | (((!p & 0xff) as u8) as u16)) == !p
        &&& (((((!set >> 8u16) as u8) as u16) << 8u16) | (((!set & 0xff) as u8) as u16)) == !set
        &&& (((((!clear >> 8u16) as u8) as u16) << 8u16) | (((!clear & 0xff) as u8) as u16))
            == !clear
        &&& !set & (1u16 << i) == 0
        &&& !clear & (1u16 << i) != 0
    }) by (bit_vector)
        requires
            i < 16,
            set == p | (1u16 << i),
            clear == p & !(1u16 << i),
    ;
}

impl Keypad {
    pub fn new() -> (r: Keypad)
        ensures
            r@ == (KeypadModel {
                pressed: 0,
                irq_keys: 0,
                irq_enabled: false,
                irq_all_pressed: false,
            }),
    {
        Keypad { pressed: 0, keycnt: IrqControl { keys: 0, enabled: false, all_pressed: false } }
    }

    /// Requests the keypad interrupt when its condition holds.
    pub fn step(&mut self, irq: &mut Irq)
        ensures
            final(self)@ == old(self)@,
            final(irq)@ == (if old(self)@.irq_condition() {
                IrqModel {
                    intf: old(irq)@.intf | (1u16 << Interrupt::Keypad.bit_index()),
                    ..old(irq)@
                }
            } else {
                old(irq)@
            }),
    {
        if !self.keycnt.enabled {
            return;
        }
        let do_irq = if self.keycnt.all_pressed {
            self.pressed != 0 && self.keycnt.keys & self.pressed == self.pressed
        } else {
            self.keycnt.keys & self.pressed != 0
        };
        if do_irq {
            irq.request(Interrupt::Keypad);
        }
    }

    /// Marks `key` as held or released.
    pub fn set_pressed(&mut self, key: Key, pressed: bool)
        ensures
            final(self)@ == (KeypadModel {
                pressed: if pressed {
                    old(self)@.pressed | (1u16 << key.bit_index())
                } else {
                    old(self)@.pressed & !(1u16 << key.bit_index())
                },
                ..old(self)@
            }),
    {
        let bit = 1u16 << key.index();
        self.pressed = if pressed {
            self.pressed | bit
        } else {
            self.pressed & !bit
        };
    }

    /// Reads the I/O register byte at `addr`.
    pub fn read_byte(&mut self, addr: u32) -> (r: u8)
        requires
            is_keypad_addr(addr),
        ensures
            r == old(self)@.read_value(addr),
            final(self)@ == old(self)@,
    {
        if addr == 0x130 {
            (!self.pressed & 0xff) as u8
        } else if addr == 0x131 {
            (!self.pressed >> 8u16) as u8
        } else if addr == 0x132 {
            (self.keycnt.keys & 0xff) as u8
        } else {
            let hi = (self.keycnt.keys >> 8u16) as u8;
            let hi6 = if self.keycnt.enabled {
                hi | 0x40
            } else {
                hi & !0x40u8
            };
            if self.keycnt.all_pressed {
                hi6 | 0x80
            } else {
                hi6 & !0x80u8
            }
        }
    }

    /// Writes the I/O register byte at `addr`.
    pub fn write_byte(&mut self, addr: u32, value: u8)
        requires
            is_keypad_addr(addr),
        ensures
            final(self)@ == old(self)@.written(addr, value),
    {
        if addr == 0x132 {
            self.keycnt.keys = (self.keycnt.keys & 0xff00) | (value as u16);
        } else if addr == 0x133 {
            self.keycnt.keys = (self.keycnt.keys & 0xff) | ((value as u16) << 8u16);
        }
    }
}

} // verus!
