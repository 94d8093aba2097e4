use vstd::prelude::*;

verus! {

/// A memory-mapped device that the CPU (or another device) reads and writes a byte at a time.
///
/// Each implementation describes its behaviour over its model (`View`): which byte a read
/// yields, and how reads, writes and instruction prefetches change the model.
pub trait Bus: View + Sized {
    /// Whether the device is in a state in which it can be accessed; every access keeps it so.
    spec fn ready(&self) -> bool;

    /// The byte that a read of `addr` yields in state `bus`.
    spec fn read_value(bus: Self::V, addr: u32) -> u8;

    /// The state after a read of `addr`.
    spec fn after_read(bus: Self::V, addr: u32) -> Self::V;

    /// The state after writing `value` to `addr`.
    spec fn after_write(bus: Self::V, addr: u32, value: u8) -> Self::V;

    /// The state after the CPU announces that it prefetches an instruction at `addr`.
    spec fn after_prefetch(bus: Self::V, addr: u32) -> Self::V;

    /// The state after writing the half-word `value` to `addr`; most devices take it as two
    /// little-endian byte writes.
    spec fn after_write_hword(bus: Self::V, addr: u32, value: u16) -> Self::V;

    fn read_byte(&mut self, addr: u32) -> (r: u8)
        requires
            old(self).ready(),
        ensures
            final(self).ready(),
            r == Self::read_value(old(self)@, addr),
            final(self)@ == Self::after_read(old(self)@, addr),
    ;

    fn write_byte(&mut self, addr: u32, value: u8)
        requires
            old(self).ready(),
        ensures
            final(self).ready(),
            final(self)@ == Self::after_write(old(self)@, addr, value),
    ;

    fn prefetch_instr(&mut self, addr: u32)
        requires
            old(self).ready(),
        ensures
            final(self).ready(),
            final(self)@ == Self::after_prefetch(old(self)@, addr),
    ;

    fn write_hword(&mut self, addr: u32, value: u16)
        requires
            old(self).ready(),
        ensures
            final(self).ready(),
            final(self)@ == Self::after_write_hword(old(self)@, addr, value),
    ;
}

/// A little-endian half-word read made of two byte reads, and the resulting state.
pub open spec fn hword_read<B: Bus>(bus: B::V, addr: u32) -> (B::V, u16) {
    let lo = B::read_value(bus, addr);
    let b1 = B::after_read(bus, addr);
    let hi_addr = addr.wrapping_add(1);
    let hi = B::read_value(b1, hi_addr);
    (B::after_read(b1, hi_addr), (lo as u16) | ((hi as u16) << 8u16))
}

/// A little-endian word read made of two half-word reads, and the resulting state.
pub open spec fn word_read<B: Bus>(bus: B::V, addr: u32) -> (B::V, u32) {
    let (b1, lo) = hword_read::<B>(bus, addr);
    let (b2, hi) = hword_read::<B>(b1, addr.wrapping_add(2));
    (b2, (lo as u32) | ((hi as u32) << 16u32))
}

/// The state after a half-word write.
pub open spec fn hword_write<B: Bus>(bus: B::V, addr: u32, value: u16) -> B::V {
    B::after_write_hword(bus, addr, value)
}

/// The state after a little-endian word write made of two half-word writes.
pub open spec fn word_write<B: Bus>(bus: B::V, addr: u32, value: u32) -> B::V {
    let b1 = hword_write::<B>(bus, addr, (value & 0xffff) as u16);
    hword_write::<B>(b1, addr.wrapping_add(2), (value >> 16u32) as u16)
}

/// Half-word reads made of little-endian byte reads, and word accesses made of little-endian
/// half-word accesses.
pub trait BusExt: Bus {
    fn read_hword(&mut self, addr: u32) -> (r: u16)
        requires
            old(self).ready(),
        ensures
            final(self).ready(),
            (final(self)@, r) == hword_read::<Self>(old(self)@, addr),
    ;

    fn read_word(&mut self, addr: u32) -> (r: u32)
        requires
            old(self).ready(),
        ensures
            final(self).ready(),
            (final(self)@, r) == word_read::<Self>(old(self)@, addr),
    ;

    fn write_word(&mut self, addr: u32, value: u32)
        requires
            old(self).ready(),
        ensures
            final(self).ready(),
            final(self)@ == word_write::<Self>(old(self)@, addr, value),
    ;
}

impl<T: Bus> BusExt for T {
    fn read_hword(&mut self, addr: u32) -> (r: u16) {
        let lo = self.read_byte(addr);
        let hi = self.read_byte(addr.wrapping_add(1));
        (lo as u16) | ((hi as u16) << 8u16)
    }

    fn read_word(&mut self, addr: u32) -> (r: u32) {
        let lo = self.read_hword(addr);
        let hi = self.read_hword(addr.wrapping_add(2));
        (lo as u32) | ((hi as u32) << 16u32)
    }

    fn write_word(&mut self, addr: u32, value: u32) {
        self.write_hword(addr, (value & 0xffff) as u16);
        self.write_hword(addr.wrapping_add(2), (value >> 16u32) as u16);
    }
}

/// Half-word and word accesses at the address aligned down to the access size.
pub trait BusAlignedExt: Bus {
    fn read_hword_aligned(&mut self, addr: u32) -> (r: u16)
        requires
            old(self).ready(),
        ensures
            final(self).ready(),
            (final(self)@, r) == hword_read::<Self>(old(self)@, addr & !1u32),
    ;

    fn read_word_aligned(&mut self, addr: u32) -> (r: u32)
        requires
            old(self).ready(),
        ensures
            final(self).ready(),
            (final(self)@, r) == word_read::<Self>(old(self)@, addr & !3u32),
    ;

    fn write_hword_aligned(&mut self, addr: u32, value: u16)
        requires
            old(self).ready(),
        ensures
            final(self).ready(),
            final(self)@ == hword_write::<Self>(old(self)@, addr & !1u32, value),
    ;

    fn write_word_aligned(&mut self, addr: u32, value: u32)
        requires
            old(self).ready(),
        ensures
            final(self).ready(),
            final(self)@ == word_write::<Self>(old(self)@, addr & !3u32, value),
    ;
}

impl<T: Bus> BusAlignedExt for T {
    fn read_hword_aligned(&mut self, addr: u32) -> (r: u16) {
        self.read_hword(addr & !1u32)
    }

    fn read_word_aligned(&mut self, addr: u32) -> (r: u32) {
        self.read_word(addr & !3u32)
    }

    fn write_hword_aligned(&mut self, addr: u32, value: u16) {
        self.write_hword(addr & !1u32, value)
    }

    fn write_word_aligned(&mut self, addr: u32, value: u32) {
        self.write_word(addr & !3u32, value)
    }
}

/// A bus with nothing attached: reads yield 0 and writes are ignored.
#[derive(Debug, Clone, Copy)]
pub struct NullBus;

impl View for NullBus {
    type V = ();

    open spec fn view(&self) -> () {
        ()
    }
}

impl Bus for NullBus {
    open spec fn ready(&self) -> bool {
        true
    }

    open spec fn read_value(bus: (), addr: u32) -> u8 {
        0
    }

    open spec fn after_read(bus: (), addr: u32) -> () {
        ()
    }

    open spec fn after_write(bus: (), addr: u32, value: u8) -> () {
        ()
    }

    open spec fn after_prefetch(bus: (), addr: u32) -> () {
        ()
    }

    open spec fn after_write_hword(bus: (), addr: u32, value: u16) -> () {
        ()
    }

    fn read_byte(&mut self, addr: u32) -> (r: u8) {
        0
    }

    fn write_byte(&mut self, addr: u32, value: u8) {
    }

    fn prefetch_instr(&mut self, addr: u32) {
    }

    fn write_hword(&mut self, addr: u32, value: u16) {
    }
}

/// The value an access outside a `VecBus`'s memory reads as.
pub const VEC_BUS_OOB_VALUE: u8 = 0xaa;

/// A bus backed by a vector of bytes starting at address 0. Accesses beyond its end read as
/// `VEC_BUS_OOB_VALUE`, are otherwise ignored, and are recorded; whether such accesses are
/// expected is a flag that its user keeps on it. An unexpected one is not a panic here, as a
/// test bus would make it: it is recorded, and the caller checks the record (`did_oob`).
#[derive(Debug)]
pub struct VecBus {
    buf: Vec<u8>,
    allow_oob: bool,
    did_oob: bool,
}

/// The model of a `VecBus`: its bytes, whether out-of-bounds accesses are expected, and whether
/// one happened.
pub struct VecBusModel {
    pub bytes: Seq<u8>,
    pub allow_oob: bool,
    pub did_oob: bool,
}

impl View for VecBus {
    type V = VecBusModel;

    closed spec fn view(&self) -> VecBusModel {
        VecBusModel { bytes: self.buf@, allow_oob: self.allow_oob, did_oob: self.did_oob }
    }
}

impl Bus for VecBus {
    open spec fn ready(&self) -> bool {
        true
    }

    open spec fn read_value(bus: VecBusModel, addr: u32) -> u8 {
        if (addr as int) < bus.bytes.len() {
            bus.bytes[addr as int]
        } else {
            VEC_BUS_OOB_VALUE
        }
    }

    open spec fn after_read(bus: VecBusModel, addr: u32) -> VecBusModel {
        if (addr as int) < bus.bytes.len() {
            bus
        } else {
            VecBusModel { did_oob: true, ..bus }
        }
    }

    open spec fn after_write(bus: VecBusModel, addr: u32, value: u8) -> VecBusModel {
        if (addr as int) < bus.bytes.len() {
            VecBusModel { bytes: bus.bytes.update(addr as int, value), ..bus }
        } else {
            VecBusModel { did_oob: true, ..bus }
        }
    }

    open spec fn after_prefetch(bus: VecBusModel, addr: u32) -> VecBusModel {
        bus
    }

    open spec fn after_write_hword(bus: VecBusModel, addr: u32, value: u16) -> VecBusModel {
        Self::after_write(
            Self::after_write(bus, addr, (value & 0xff) as u8),
            addr.wrapping_add(1),
            (value >> 8u16) as u8,
        )
    }

    fn read_byte(&mut self, addr: u32) -> (r: u8) {
        if (addr as usize) < self.buf.len() {
            self.buf[addr as usize]
        } else {
            self.did_oob = true;
            VEC_BUS_OOB_VALUE
        }
    }

    fn write_byte(&mut self, addr: u32, value: u8) {
        if (addr as usize) < self.buf.len() {
            self.buf.set(addr as usize, value);
        } else {
            self.did_oob = true;
        }
    }

    fn prefetch_instr(&mut self, addr: u32) {
    }

    fn write_hword(&mut self, addr: u32, value: u16) {
        self.write_byte(addr, (value & 0xff) as u8);
        self.write_byte(addr.wrapping_add(1), (value >> 8u16) as u8);
    }
}

/// Memory gives back what was written: on a `VecBus`, a half-word or word read at an address
/// within its memory returns the value just written there.
pub proof fn lemma_vec_bus_read_back(m: VecBusModel, addr: u32, hword: u16, word: u32)
    requires
        addr + 3 < m.bytes.len(),
        addr + 3 <= u32::MAX,
    ensures
        hword_read::<VecBus>(hword_write::<VecBus>(m, addr, hword), addr).1 == hword,
        word_read::<VecBus>(word_write::<VecBus>(m, addr, word), addr).1 == word,
{
    let lo = (word & 0xffff) as u16;
    let hi = (word >> 16u32) as u16;
    assert({
        &&& (((hword & 0xff) as u8) as u16) | ((((hword >> 8u16) as u8) as u16) << 8u16) == hword
        &&& (((lo & 0xff) as u8) as u16) | ((((lo >> 8u16) as u8) as u16) << 8u16) == lo
        &&& (((hi & 0xff) as u8) as u16) | ((((hi >> 8u16) as u8) as u16) << 8u16) == hi
        &&& (lo as u32) | ((hi as u32) << 16u32) == word
    }) by (bit_vector)
        requires
            lo == (word & 0xffff) as u16,
            hi == (word >> 16u32) as u16,
    ;
    assert(addr.wrapping_add(1) == addr + 1);
    assert(addr.wrapping_add(2) == addr + 2);
    assert((addr + 2) as u32 == addr + 2);
    assert(((addr + 2) as u32).wrapping_add(1) == addr + 3);
}

impl VecBus {
    /// A bus of `len` zero bytes.
    pub fn new(len: usize) -> (r: VecBus)
        ensures
            r@.bytes == Seq::new(len as nat, |i: int| 0u8),
            !r@.allow_oob,
            !r@.did_oob,
    {
        let mut buf: Vec<u8> = Vec::new();
        let mut i: usize = 0;
        while i < len
            invariant
                i <= len,
                buf@ == Seq::new(i as nat, |j: int| 0u8),
            decreases len - i,
        {
            buf.push(0);
            i = i + 1;
        }
        VecBus { buf, allow_oob: false, did_oob: false }
    }

    /// Whether an access fell outside the bus's memory since the flag was last cleared.
    pub fn did_oob(&self) -> (r: bool)
        ensures
            r == self@.did_oob,
    {
        self.did_oob
    }

    /// Clears the record of out-of-bounds accesses.
    pub fn clear_oob(&mut self)
        ensures
            final(self)@ == (VecBusModel { did_oob: false, ..old(self)@ }),
    {
        self.did_oob = false;
    }

    /// Whether out-of-bounds accesses are expected.
    pub fn allows_oob(&self) -> (r: bool)
        ensures
            r == self@.allow_oob,
    {
        self.allow_oob
    }

    /// Marks out-of-bounds accesses as expected or not.
    pub fn set_allow_oob(&mut self, allow: bool)
        ensures
            final(self)@ == (VecBusModel { allow_oob: allow, ..old(self)@ }),
    {
        self.allow_oob = allow;
    }
}

} // verus!
