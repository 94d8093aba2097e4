use std::rc::Rc;

use vstd::prelude::*;

use crate::util::clone_rc_bytes;
use crate::InvalidRomSize;

verus! {

/// The size of the BIOS ROM: 16KiB.
pub const BIOS_ROM_LEN: usize = 0x4000;

/// A BIOS ROM image.
pub struct Rom(Rc<[u8]>);

impl Clone for Rom {
    fn clone(&self) -> (r: Self)
        ensures
            r@ == self@,
    {
        proof {
            use_type_invariant(self);
        }
        Rom(clone_rc_bytes(&self.0))
    }
}

impl View for Rom {
    type V = Seq<u8>;

    closed spec fn view(&self) -> Seq<u8> {
        (*self.0)@
    }
}

impl Rom {
    /// A BIOS ROM image is always exactly 16KiB.
    #[verifier::type_invariant]
    spec fn len_ok(self) -> bool {
        (*self.0)@.len() == BIOS_ROM_LEN
    }

    /// Takes a BIOS ROM image, which must be exactly 16KiB.
    pub fn new(buf: Rc<[u8]>) -> (r: Result<Rom, InvalidRomSize>)
        ensures
            (*buf)@.len() == BIOS_ROM_LEN <==> r is Ok,
            r matches Ok(rom) ==> rom@ == (*buf)@,
    {
        if buf.len() != BIOS_ROM_LEN {
            return Err(InvalidRomSize);
        }
        Ok(Rom(buf))
    }

    fn read(&self, addr: u32) -> (r: u8)
        requires
            (addr as int) < self@.len(),
        ensures
            r == self@[addr as int],
    {
        self.0[addr as usize]
    }
}

/// The model of the BIOS: its ROM, whether it may be read freely, and the address of the
/// last BIOS instruction fetched.
pub struct BiosModel {
    pub rom: Seq<u8>,
    pub readable: bool,
    pub prefetch_addr: u32,
}

/// The BIOS. It may only be read freely while the CPU executes from it; otherwise reads give
/// the bytes of the last instruction it fetched from the BIOS.
#[derive(Clone)]
pub struct Bios {
    rom: Rom,
    readable: bool,
    prefetch_addr: u32,
}

impl View for Bios {
    type V = BiosModel;

    closed spec fn view(&self) -> BiosModel {
        BiosModel { rom: self.rom@, readable: self.readable, prefetch_addr: self.prefetch_addr }
    }
}

impl BiosModel {
    /// A 16KiB ROM, and the last fetch address a word-aligned address inside it.
    pub open spec fn wf(self) -> bool {
        &&& self.rom.len() == BIOS_ROM_LEN
        &&& self.prefetch_addr < BIOS_ROM_LEN
        &&& self.prefetch_addr % 4 == 0
    }

    /// The BIOS after the CPU fetches an instruction at `prefetch_addr`: it is readable only
    /// while the fetch is from the BIOS, and then remembers the fetched word's address.
    pub open spec fn protection_updated(self, prefetch_addr: u32) -> BiosModel {
        BiosModel {
            readable: prefetch_addr < BIOS_ROM_LEN,
            prefetch_addr: if prefetch_addr < BIOS_ROM_LEN {
                prefetch_addr & !3u32
            } else {
                self.prefetch_addr
            },
            ..self
        }
    }

    /// The byte a read of `addr` gives: the addressed byte while the BIOS is readable, else
    /// the byte at the same offset within the last fetched word.
    pub open spec fn read_value(self, addr: u32) -> u8 {
        if self.readable {
            self.rom[addr as int]
        } else {
            self.rom[(self.prefetch_addr | (addr & 3)) as int]
        }
    }
}

impl Bios {
    pub fn new(rom: Rom) -> (r: Bios)
        ensures
            r@ == (BiosModel { rom: rom@, readable: false, prefetch_addr: 0 }),
            r@.wf(),
    {
        proof {
            use_type_invariant(&rom);
        }
        Bios { rom, readable: false, prefetch_addr: 0 }
    }

    pub fn reset(&mut self)
        ensures
            final(self)@ == (BiosModel { readable: false, prefetch_addr: 0, ..old(self)@ }),
    {
        self.readable = false;
        self.prefetch_addr = 0;
    }

    /// Notes that the CPU fetches an instruction at `prefetch_addr`: the BIOS is readable only
    /// while it fetches from the BIOS, and then remembers the fetched word's address.
    pub fn update_protection(&mut self, prefetch_addr: u32)
        requires
            old(self)@.wf(),
        ensures
            final(self)@ == old(self)@.protection_updated(prefetch_addr),
            final(self)@.wf(),
    {
        self.readable = prefetch_addr < BIOS_ROM_LEN as u32;
        if self.readable {
            proof {
                assert(prefetch_addr < 0x4000 ==> (prefetch_addr & !3u32) < 0x4000 && (
                prefetch_addr & !3u32) % 4 == 0) by (bit_vector);
            }
            self.prefetch_addr = prefetch_addr & !3u32;
        }
    }

    /// Reads the byte at `addr` of the BIOS region.
    pub fn read_byte(&mut self, addr: u32) -> (r: u8)
        requires
            old(self)@.wf(),
            addr < BIOS_ROM_LEN,
        ensures
            r == old(self)@.read_value(addr),
            final(self)@ == old(self)@,
    {
        let a = if self.readable {
            addr
        } else {
            proof {
                let p = self.prefetch_addr;
                assert(p < 0x4000 && p % 4 == 0 ==> (p | (addr & 3)) < 0x4000) by (bit_vector);
            }
            self.prefetch_addr | (addr & 3)
        };
        self.rom.read(a)
    }
}

} // verus!
