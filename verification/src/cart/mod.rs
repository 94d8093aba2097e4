pub mod eeprom;
pub mod flash;

use vstd::prelude::*;

use crate::bits::lemma_cart_masks;
use self::eeprom::{Eeprom, EepromModel, EepromState, BLOCK_LEN};
use self::flash::{erased, Flash, FlashModel, FlashState, NextCommandState, BANK_LEN};

use crate::InvalidRomSize;

verus! {

/// The largest cartridge ROM: 32MiB.
pub const MAX_CART_ROM_LEN: usize = 0x200_0000;

/// The kind of save memory a cartridge has.
#[derive(Debug, Default, Copy, Clone, Eq, PartialEq, Structural)]
pub enum BackupType {
    #[default]
    NoBackup,
    EepromUnknownSize,
    Eeprom512B,
    Eeprom8KiB,
    Sram32KiB,
    Flash64KiB,
    Flash128KiB,
}

/// A cartridge ROM image.
#[derive(Default, Copy, Clone)]
pub struct Rom<'a>(&'a [u8]);

impl<'a> View for Rom<'a> {
    type V = Seq<u8>;

    closed spec fn view(&self) -> Seq<u8> {
        self.0@
    }
}

/// The ID of EEPROM save memory: "EEPROM".
pub open spec fn eeprom_id() -> Seq<u8> {
    seq![0x45u8, 0x45, 0x50, 0x52, 0x4f, 0x4d]
}

/// The ID of SRAM save memory: "SRAM".
pub open spec fn sram_id() -> Seq<u8> {
    seq![0x53u8, 0x52, 0x41, 0x4d]
}

/// The other ID of SRAM save memory: "SRAM_F".
pub open spec fn sram_f_id() -> Seq<u8> {
    seq![0x53u8, 0x52, 0x41, 0x4d, 0x5f, 0x46]
}

/// The ID of 64KiB flash save memory: "FLASH".
pub open spec fn flash_id() -> Seq<u8> {
    seq![0x46u8, 0x4c, 0x41, 0x53, 0x48]
}

/// The other ID of 64KiB flash save memory: "FLASH512".
pub open spec fn flash512_id() -> Seq<u8> {
    seq![0x46u8, 0x4c, 0x41, 0x53, 0x48, 0x35, 0x31, 0x32]
}

/// The ID of 128KiB flash save memory: "FLASH1M".
pub open spec fn flash1m_id() -> Seq<u8> {
    seq![0x46u8, 0x4c, 0x41, 0x53, 0x48, 0x31, 0x4d]
}

/// The zero bytes that pad an ID of `id_len` bytes to a multiple of 4.
pub open spec fn id_padding(id_len: int) -> int {
    if id_len % 4 > 0 {
        4 - id_len % 4
    } else {
        0
    }
}

/// Whether an ID in the format "{prefix}_Vnnn" starts at `i`: the bytes there start with
/// `prefix`, and after the 5 bytes of "_Vnnn" come the zero bytes that pad the ID to a
/// multiple of 4 (the version bytes themselves are not checked).
pub open spec fn has_id(bytes: Seq<u8>, i: int, prefix: Seq<u8>) -> bool {
    let id_len: int = prefix.len() + 5int;
    &&& bytes.len() - i >= id_len + id_padding(id_len)
    &&& bytes.subrange(i, i + prefix.len()) == prefix
    &&& forall|j: int| i + id_len <= j < i + id_len + id_padding(id_len) ==> bytes[j] == 0
}

/// The save memory named by an ID starting at `i`, if any (EEPROM is checked first, then SRAM,
/// then 64KiB flash, then 128KiB flash).
pub open spec fn id_at(bytes: Seq<u8>, i: int) -> Option<BackupType> {
    if has_id(bytes, i, eeprom_id()) {
        Some(BackupType::EepromUnknownSize)
    } else if has_id(bytes, i, sram_id()) || has_id(bytes, i, sram_f_id()) {
        Some(BackupType::Sram32KiB)
    } else if has_id(bytes, i, flash_id()) || has_id(bytes, i, flash512_id()) {
        Some(BackupType::Flash64KiB)
    } else if has_id(bytes, i, flash1m_id()) {
        Some(BackupType::Flash128KiB)
    } else {
        None
    }
}

/// The save memory named by the first ID found at a word-aligned offset from `i` on.
pub open spec fn backup_type_from(bytes: Seq<u8>, i: int) -> BackupType
    decreases bytes.len() - i,
{
    if i < 0 || i >= bytes.len() {
        BackupType::NoBackup
    } else {
        match id_at(bytes, i) {
            Some(t) => t,
            None => if i + 4 >= bytes.len() {
                BackupType::NoBackup
            } else {
                backup_type_from(bytes, i + 4)
            },
        }
    }
}

fn has_id_exec(bytes: &[u8], i: usize, prefix: &[u8]) -> (r: bool)
    requires
        i < bytes@.len(),
        prefix@.len() <= 8,
    ensures
        r == has_id(bytes@, i as int, prefix@),
{
    let len = bytes.len();
    let id_len = prefix.len() + 5;
    let padding_len = if id_len % 4 > 0 {
        4 - id_len % 4
    } else {
        0
    };
    if bytes.len() - i < id_len + padding_len {
        return false;
    }
    let mut j: usize = 0;
    while j < prefix.len()
        invariant
            j <= prefix@.len(),
            prefix@.len() <= 8,
            bytes@.len() == len,
            i < bytes@.len(),
            i + prefix@.len() <= bytes@.len(),
            forall|k: int| 0 <= k < j ==> bytes@[i + k] == prefix@[k],
        decreases prefix@.len() - j,
    {
        if bytes[i + j] != prefix[j] {
            assert(bytes@.subrange(i as int, i + prefix@.len())[j as int] != prefix@[j as int]);
            return false;
        }
        j = j + 1;
    }
    assert(bytes@.subrange(i as int, i + prefix@.len()) =~= prefix@);
    let mut k: usize = i + id_len;
    while k < i + id_len + padding_len
        invariant
            id_len == prefix@.len() + 5,
            prefix@.len() <= 8,
            bytes@.len() == len,
            padding_len == id_padding(id_len as int),
            bytes@.subrange(i as int, i + prefix@.len()) == prefix@,
            i + id_len <= k <= i + id_len + padding_len,
            i + id_len + padding_len <= bytes@.len(),
            forall|m: int| i + id_len <= m < k ==> bytes@[m] == 0,
        decreases i + id_len + padding_len - k,
    {
        if bytes[k] != 0 {
            assert(!has_id(bytes@, i as int, prefix@));
            return false;
        }
        k = k + 1;
    }
    true
}

fn id_at_exec(bytes: &[u8], i: usize) -> (r: Option<BackupType>)
    requires
        i < bytes@.len(),
    ensures
        r == id_at(bytes@, i as int),
{
    let eeprom: [u8; 6] = [0x45, 0x45, 0x50, 0x52, 0x4f, 0x4d];
    let sram: [u8; 4] = [0x53, 0x52, 0x41, 0x4d];
    let sram_f: [u8; 6] = [0x53, 0x52, 0x41, 0x4d, 0x5f, 0x46];
    let flash: [u8; 5] = [0x46, 0x4c, 0x41, 0x53, 0x48];
    let flash512: [u8; 8] = [0x46, 0x4c, 0x41, 0x53, 0x48, 0x35, 0x31, 0x32];
    let flash1m: [u8; 7] = [0x46, 0x4c, 0x41, 0x53, 0x48, 0x31, 0x4d];
    assert(eeprom@ =~= eeprom_id());
    assert(sram@ =~= sram_id());
    assert(sram_f@ =~= sram_f_id());
    assert(flash@ =~= flash_id());
    assert(flash512@ =~= flash512_id());
    assert(flash1m@ =~= flash1m_id());
    if has_id_exec(bytes, i, eeprom.as_slice()) {
        // Impossible to detect the EEPROM's size from inspecting the ROM.
        Some(BackupType::EepromUnknownSize)
    } else if has_id_exec(bytes, i, sram.as_slice()) || has_id_exec(bytes, i, sram_f.as_slice()) {
        Some(BackupType::Sram32KiB)
    } else if has_id_exec(bytes, i, flash.as_slice()) || has_id_exec(
        bytes,
        i,
        flash512.as_slice(),
    ) {
        Some(BackupType::Flash64KiB)
    } else if has_id_exec(bytes, i, flash1m.as_slice()) {
        Some(BackupType::Flash128KiB)
    } else {
        None
    }
}

impl<'a> Rom<'a> {
    /// Takes a cartridge ROM image, which may be at most 32MiB.
    pub fn new(buf: &'a [u8]) -> (r: Result<Rom<'a>, InvalidRomSize>)
        ensures
            buf@.len() <= MAX_CART_ROM_LEN <==> r is Ok,
            r matches Ok(rom) ==> rom@ == buf@,
    {
        if buf.len() > MAX_CART_ROM_LEN {
            return Err(InvalidRomSize);
        }
        Ok(Rom(buf))
    }

    /// Guesses the save memory from the IDs that games using the standard save libraries
    /// contain: the first word-aligned ID found names it.
    pub fn parse_backup_type(&self) -> (r: BackupType)
        ensures
            r == backup_type_from(self@, 0),
    {
        let bytes = self.0;
        let mut i: usize = 0;
        while i < bytes.len()
            invariant
                bytes@ == self@,
                backup_type_from(bytes@, i as int) == backup_type_from(bytes@, 0),
            decreases bytes@.len() - i,
        {
            match id_at_exec(bytes, i) {
                Some(t) => {
                    return t;
                },
                None => {},
            }
            if bytes.len() - i <= 4 {
                return BackupType::NoBackup;
            }
            i = i + 4;
        }
        BackupType::NoBackup
    }

    pub fn bytes(&self) -> (r: &'a [u8])
        ensures
            r@ == self@,
    {
        self.0
    }
}

/// Save memory, as the cartridge holds it.
#[derive(Debug, Clone)]
pub enum Backup {
    /// EEPROM whose size is not known yet; it is guessed from the first DMA transfer to it.
    EepromUnknownSize,
    Eeprom(Eeprom),
    Sram(Vec<u8>),
    Flash(Flash),
}

/// The model of save memory.
pub enum BackupModel {
    EepromUnknownSize,
    Eeprom(EepromModel),
    Sram(Seq<u8>),
    Flash(FlashModel),
}

impl View for Backup {
    type V = BackupModel;

    open spec fn view(&self) -> BackupModel {
        match self {
            Backup::EepromUnknownSize => BackupModel::EepromUnknownSize,
            Backup::Eeprom(e) => BackupModel::Eeprom(e@),
            Backup::Sram(s) => BackupModel::Sram(s@),
            Backup::Flash(f) => BackupModel::Flash(f@),
        }
    }
}

/// The size of SRAM save memory: 32KiB.
pub const SRAM_LEN: usize = 0x8000;

/// The model of a cartridge: its ROM and its save memory.
pub struct CartridgeModel {
    pub rom: Seq<u8>,
    pub backup: Option<BackupModel>,
}

/// A game cartridge: the ROM and the save memory.
#[derive(Clone)]
pub struct Cartridge<'r> {
    rom: Rom<'r>,
    backup: Option<Backup>,
}

impl<'r> View for Cartridge<'r> {
    type V = CartridgeModel;

    closed spec fn view(&self) -> CartridgeModel {
        CartridgeModel {
            rom: self.rom@,
            backup: match self.backup {
                Some(b) => Some(b@),
                None => None,
            },
        }
    }
}

/// Fresh save memory of the given type: erased EEPROM, flash and SRAM (all bytes 0xff).
pub open spec fn backup_of(backup_type: BackupType) -> Option<BackupModel> {
    match backup_type {
        BackupType::NoBackup => None,
        BackupType::EepromUnknownSize => Some(BackupModel::EepromUnknownSize),
        BackupType::Eeprom512B => Some(
            BackupModel::Eeprom(
                EepromModel { buf: erased(8 * BLOCK_LEN as nat), state: EepromState::Idle },
            ),
        ),
        BackupType::Eeprom8KiB => Some(
            BackupModel::Eeprom(
                EepromModel { buf: erased(128 * BLOCK_LEN as nat), state: EepromState::Idle },
            ),
        ),
        BackupType::Sram32KiB => Some(BackupModel::Sram(erased(SRAM_LEN as nat))),
        BackupType::Flash64KiB => Some(
            BackupModel::Flash(
                FlashModel {
                    buf: erased(BANK_LEN as nat),
                    bank_idx: 0,
                    state: FlashState::Ready,
                    next_cmd_state: NextCommandState::Locked,
                },
            ),
        ),
        BackupType::Flash128KiB => Some(
            BackupModel::Flash(
                FlashModel {
                    buf: erased(2 * BANK_LEN as nat),
                    bank_idx: 0,
                    state: FlashState::Ready,
                    next_cmd_state: NextCommandState::Locked,
                },
            ),
        ),
    }
}

impl CartridgeModel {
    pub open spec fn wf(self) -> bool {
        &&& self.rom.len() <= MAX_CART_ROM_LEN
        &&& match self.backup {
            Some(BackupModel::Eeprom(e)) => e.wf(),
            Some(BackupModel::Sram(s)) => s.len() == SRAM_LEN,
            Some(BackupModel::Flash(f)) => f.wf(),
            _ => true,
        }
    }

    pub open spec fn has_eeprom(self) -> bool {
        self.backup matches Some(BackupModel::Eeprom(_)) || self.backup matches Some(
            BackupModel::EepromUnknownSize,
        )
    }

    /// Whether the ROM offset `offset` reaches the EEPROM: the cartridge has one, and the
    /// offset is in the last 256 bytes of a 32MiB space, or anywhere from 0x500_0000 when the
    /// ROM is at most 16MiB.
    pub open spec fn is_eeprom_offset(self, offset: u32) -> bool {
        &&& self.has_eeprom()
        &&& (offset & 0x1ff_ff00 == 0x1ff_ff00 || (self.rom.len() <= 16 * 1024 * 1024 && offset
            >= 0x500_0000))
    }

    /// An EEPROM of unknown size falls back to 512 bytes when it is accessed.
    pub open spec fn eeprom_resolved(self) -> CartridgeModel {
        if self.backup matches Some(BackupModel::EepromUnknownSize) {
            CartridgeModel { backup: backup_of(BackupType::Eeprom512B), ..self }
        } else {
            self
        }
    }

    /// A DMA transfer of `blocks` half-words to an EEPROM of unknown size tells its size: 9
    /// or 73 for 512 bytes, 17 or 81 for 8KiB.
    pub open spec fn eeprom_dma_notified(self, blocks: u32) -> CartridgeModel {
        if !(self.backup matches Some(BackupModel::EepromUnknownSize)) {
            self
        } else if blocks == 9 || blocks == 73 {
            CartridgeModel { backup: backup_of(BackupType::Eeprom512B), ..self }
        } else if blocks == 17 || blocks == 81 {
            CartridgeModel { backup: backup_of(BackupType::Eeprom8KiB), ..self }
        } else {
            self
        }
    }

    /// A read of `addr` (below 0x800_0000) that reaches flash memory needs its bank to exist.
    pub open spec fn can_read(self, addr: u32) -> bool {
        &&& addr < 0x800_0000
        &&& (addr >= 0x600_0000 ==> match self.backup {
            Some(BackupModel::Flash(f)) => f.reads_buf(addr & 0xffff) ==> f.buf_index(addr & 0xffff)
                < f.buf.len(),
            _ => true,
        })
    }

    /// A write to `addr` (below 0x800_0000) that stores to flash memory needs its bank to exist.
    pub open spec fn can_write(self, addr: u32, value: u8) -> bool {
        &&& addr < 0x800_0000
        &&& (addr >= 0x600_0000 ==> match self.backup {
            Some(BackupModel::Flash(f)) => f.writes_buf(addr & 0xffff, value) ==> f.buf_index(
                addr & 0xffff,
            ) + if f.state == FlashState::Write {
                1int
            } else {
                0x1000int
            } <= f.buf.len(),
            _ => true,
        })
    }

    /// Reading `addr`: ROM addresses read the EEPROM where it is mapped, else the ROM (0 past
    /// its end); save memory addresses read SRAM or flash, or 0xff when there is neither.
    pub open spec fn read(self, addr: u32) -> (CartridgeModel, u8) {
        if addr < 0x600_0000 {
            if self.is_eeprom_offset(addr) {
                let c = self.eeprom_resolved();
                match c.backup {
                    Some(BackupModel::Eeprom(e)) => {
                        let (e2, v) = e.read(addr);
                        (CartridgeModel { backup: Some(BackupModel::Eeprom(e2)), ..c }, v)
                    },
                    _ => (c, 0),
                }
            } else {
                let i = (addr & 0x1ff_ffff) as int;
                (
                    self,
                    if i < self.rom.len() {
                        self.rom[i]
                    } else {
                        0
                    },
                )
            }
        } else {
            match self.backup {
                Some(BackupModel::Sram(s)) => (self, s[(addr & 0x7fff) as int]),
                Some(BackupModel::Flash(f)) => (self, f.read_value(addr & 0xffff)),
                _ => (self, 0xff),
            }
        }
    }

    /// Writing `value` to `addr`: ROM addresses write the EEPROM where it is mapped (the ROM
    /// itself cannot be written); save memory addresses write SRAM or flash.
    pub open spec fn written(self, addr: u32, value: u8) -> CartridgeModel {
        if addr < 0x600_0000 {
            if self.is_eeprom_offset(addr) {
                let c = self.eeprom_resolved();
                match c.backup {
                    Some(BackupModel::Eeprom(e)) => CartridgeModel {
                        backup: Some(BackupModel::Eeprom(e.written(addr, value))),
                        ..c
                    },
                    _ => c,
                }
            } else {
                self
            }
        } else {
            match self.backup {
                Some(BackupModel::Sram(s)) => CartridgeModel {
                    backup: Some(BackupModel::Sram(s.update((addr & 0x7fff) as int, value))),
                    ..self
                },
                Some(BackupModel::Flash(f)) => CartridgeModel {
                    backup: Some(BackupModel::Flash(f.written(addr & 0xffff, value))),
                    ..self
                },
                _ => self,
            }
        }
    }
}

/// SRAM save memory gives back what was written to it.
pub proof fn lemma_sram_read_back(c: CartridgeModel, addr: u32, value: u8)
    requires
        c.wf(),
        c.backup matches Some(BackupModel::Sram(_)),
        0x600_0000 <= addr < 0x800_0000,
    ensures
        c.written(addr, value).read(addr).1 == value,
{
    lemma_cart_masks(addr);
}

fn erased_vec(len: usize) -> (r: Vec<u8>)
    ensures
        r@ == erased(len as nat),
{
    let mut buf: Vec<u8> = Vec::new();
    let mut i: usize = 0;
    while i < len
        invariant
            i <= len,
            buf@ == erased(i as nat),
        decreases len - i,
    {
        buf.push(0xff);
        i = i + 1;
        assert(buf@ =~= erased(i as nat));
    }
    buf
}

fn new_backup(backup_type: BackupType) -> (r: Option<Backup>)
    ensures
        match r {
            Some(b) => backup_of(backup_type) == Some(b@),
            None => backup_of(backup_type) is None,
        },
{
    match backup_type {
        BackupType::NoBackup => None,
        BackupType::EepromUnknownSize => Some(Backup::EepromUnknownSize),
        BackupType::Eeprom512B => {
            let e = Eeprom::new(false);
            assert(e@.buf =~= erased(8 * BLOCK_LEN as nat));
            Some(Backup::Eeprom(e))
        },
        BackupType::Eeprom8KiB => {
            let e = Eeprom::new(true);
            assert(e@.buf =~= erased(128 * BLOCK_LEN as nat));
            Some(Backup::Eeprom(e))
        },
        BackupType::Sram32KiB => Some(Backup::Sram(erased_vec(SRAM_LEN))),
        BackupType::Flash64KiB => Some(Backup::Flash(Flash::new(false))),
        BackupType::Flash128KiB => Some(Backup::Flash(Flash::new(true))),
    }
}

impl<'r> Cartridge<'r> {
    /// A cartridge with the ROM `rom` and fresh save memory of type `backup_type`.
    pub fn new(rom: Rom<'r>, backup_type: BackupType) -> (r: Cartridge<'r>)
        ensures
            r@ == (CartridgeModel { rom: rom@, backup: backup_of(backup_type) }),
    {
        Cartridge { rom, backup: new_backup(backup_type) }
    }

    /// A cartridge with the ROM `rom` and the save memory that its IDs name.
    pub fn from_rom(rom: Rom<'r>) -> (r: Cartridge<'r>)
        ensures
            r@ == (CartridgeModel { rom: rom@, backup: backup_of(backup_type_from(rom@, 0)) }),
    {
        let backup_type = rom.parse_backup_type();
        Cartridge::new(rom, backup_type)
    }

    pub fn rom(&self) -> (r: &Rom<'r>)
        ensures
            r@ == self@.rom,
    {
        &self.rom
    }

    /// Whether the ROM offset `offset` reaches the EEPROM.
    pub fn is_eeprom_offset(&self, offset: u32) -> (r: bool)
        ensures
            r == self@.is_eeprom_offset(offset),
    {
        let has_eeprom = match self.backup {
            Some(Backup::Eeprom(_)) | Some(Backup::EepromUnknownSize) => true,
            _ => false,
        };
        has_eeprom && (offset & 0x1ff_ff00 == 0x1ff_ff00 || (self.rom.bytes().len() <= 16 * 1024
            * 1024 && offset >= 0x500_0000))
    }

    fn resolve_eeprom(&mut self)
        ensures
            final(self)@ == old(self)@.eeprom_resolved(),
            old(self)@.wf() ==> final(self)@.wf(),
    {
        if let Some(Backup::EepromUnknownSize) = self.backup {
            let e = Eeprom::new(false);
            assert(e@.buf =~= erased(8 * BLOCK_LEN as nat));
            self.backup = Some(Backup::Eeprom(e));
        }
    }

    /// Guesses the size of an EEPROM of unknown size from a DMA transfer of `blocks`
    /// half-words to it.
    pub fn notify_eeprom_dma(&mut self, blocks: u32)
        ensures
            final(self)@ == old(self)@.eeprom_dma_notified(blocks),
    {
        if !matches!(self.backup, Some(Backup::EepromUnknownSize)) {
            return;
        }
        if blocks == 9 || blocks == 73 {
            self.backup = new_backup(BackupType::Eeprom512B);
        } else if blocks == 17 || blocks == 81 {
            self.backup = new_backup(BackupType::Eeprom8KiB);
        }
    }

    /// Reads the byte at `addr` of the cartridge's address space (below 0x800_0000).
    pub fn read_byte(&mut self, addr: u32) -> (r: u8)
        requires
            old(self)@.wf(),
            old(self)@.can_read(addr),
        ensures
            final(self)@.wf(),
            (final(self)@, r) == old(self)@.read(addr),
    {
        proof {
            lemma_cart_masks(addr);
        }
        if addr < 0x600_0000 {
            if self.is_eeprom_offset(addr) {
                self.resolve_eeprom();
                match self.backup.take() {
                    Some(Backup::Eeprom(mut e)) => {
                        let v = e.read_byte(addr);
                        self.backup = Some(Backup::Eeprom(e));
                        v
                    },
                    b => {
                        self.backup = b;
                        0
                    },
                }
            } else {
                let bytes = self.rom.bytes();
                let i = (addr & 0x1ff_ffff) as usize;
                if i < bytes.len() {
                    bytes[i]
                } else {
                    0
                }
            }
        } else {
            match self.backup.take() {
                Some(Backup::Sram(s)) => {
                    let v = s[(addr & 0x7fff) as usize];
                    self.backup = Some(Backup::Sram(s));
                    v
                },
                Some(Backup::Flash(mut f)) => {
                    let v = f.read_byte(addr & 0xffff);
                    self.backup = Some(Backup::Flash(f));
                    v
                },
                b => {
                    self.backup = b;
                    0xff
                },
            }
        }
    }

    /// Writes `value` to `addr` of the cartridge's address space (below 0x800_0000).
    pub fn write_byte(&mut self, addr: u32, value: u8)
        requires
            old(self)@.wf(),
            old(self)@.can_write(addr, value),
        ensures
            final(self)@.wf(),
            final(self)@ == old(self)@.written(addr, value),
    {
        proof {
            lemma_cart_masks(addr);
        }
        if addr < 0x600_0000 {
            if self.is_eeprom_offset(addr) {
                self.resolve_eeprom();
                match self.backup.take() {
                    Some(Backup::Eeprom(mut e)) => {
                        e.write_byte(addr, value);
                        self.backup = Some(Backup::Eeprom(e));
                    },
                    b => {
                        self.backup = b;
                    },
                }
            }
        } else {
            match self.backup.take() {
                Some(Backup::Sram(mut s)) => {
                    s.set((addr & 0x7fff) as usize, value);
                    self.backup = Some(Backup::Sram(s));
                },
                Some(Backup::Flash(mut f)) => {
                    f.write_byte(addr & 0xffff, value);
                    self.backup = Some(Backup::Flash(f));
                },
                b => {
                    self.backup = b;
                },
            }
        }
    }
}

impl<'r> Cartridge<'r> {
    /// Whether a read of `addr` is possible: it is in the cartridge's region, and a flash read
    /// finds its bank.
    pub fn can_read(&self, addr: u32) -> (r: bool)
        requires
            self@.wf(),
        ensures
            r == self@.can_read(addr),
    {
        if addr >= 0x800_0000 {
            return false;
        }
        if addr < 0x600_0000 {
            return true;
        }
        proof {
            lemma_cart_masks(addr);
        }
        match &self.backup {
            Some(Backup::Flash(f)) => f.can_read(addr & 0xffff),
            _ => true,
        }
    }

    /// Whether a write of `value` to `addr` is possible: it is in the cartridge's region, and a
    /// flash write finds its bank.
    pub fn can_write(&self, addr: u32, value: u8) -> (r: bool)
        requires
            self@.wf(),
        ensures
            r == self@.can_write(addr, value),
    {
        if addr >= 0x800_0000 {
            return false;
        }
        if addr < 0x600_0000 {
            return true;
        }
        proof {
            lemma_cart_masks(addr);
        }
        match &self.backup {
            Some(Backup::Flash(f)) => f.can_write(addr & 0xffff, value),
            _ => true,
        }
    }
}

} // verus!
