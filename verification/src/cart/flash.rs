use vstd::prelude::*;

verus! {

/// The size of a flash bank: 64KiB.
pub const BANK_LEN: usize = 0x1_0000;

/// The command that flash memory is carrying out.
#[derive(Debug, Copy, Clone, Eq, PartialEq, Structural)]
pub enum FlashState {
    Ready,
    /// Reads of addresses 0 and 1 give the chip's IDs.
    Identify,
    /// An erase command started; the next command says what to erase.
    Erase,
    /// The next write stores a byte.
    Write,
    /// The next write to address 0 selects the bank.
    SwitchBank,
}

/// How far the two-write unlock sequence that precedes a command has got.
#[derive(Debug, Copy, Clone, Eq, PartialEq, Structural)]
pub enum NextCommandState {
    Locked,
    /// 0xaa was written to 0x5555.
    Incomplete,
    /// 0x55 was written to 0x2aaa: the next write to 0x5555 is a command.
    Type,
}

/// The model of flash memory.
pub struct FlashModel {
    pub buf: Seq<u8>,
    pub bank_idx: usize,
    pub state: FlashState,
    pub next_cmd_state: NextCommandState,
}

/// Flash save memory of one or two 64KiB banks, programmed by commands.
#[derive(Debug, Clone)]
pub struct Flash {
    buf: Vec<u8>,
    bank_idx: usize,
    state: FlashState,
    next_cmd_state: NextCommandState,
}

impl View for Flash {
    type V = FlashModel;

    closed spec fn view(&self) -> FlashModel {
        FlashModel {
            buf: self.buf@,
            bank_idx: self.bank_idx,
            state: self.state,
            next_cmd_state: self.next_cmd_state,
        }
    }
}

/// A buffer of `len` bytes, all 0xff.
pub open spec fn erased(len: nat) -> Seq<u8> {
    Seq::new(len, |i: int| 0xffu8)
}

impl FlashModel {
    /// One or two banks.
    pub open spec fn wf(self) -> bool {
        self.buf.len() == BANK_LEN || self.buf.len() == 2 * BANK_LEN
    }

    pub open spec fn is_dual_bank(self) -> bool {
        self.buf.len() > BANK_LEN
    }

    /// The index in the buffer of `addr` in the selected bank.
    pub open spec fn buf_index(self, addr: u32) -> int {
        self.bank_idx * BANK_LEN + addr
    }

    /// Reading at `addr` touches the buffer: an address of the bank, outside of the IDs.
    pub open spec fn reads_buf(self, addr: u32) -> bool {
        &&& addr <= 0xffff
        &&& !(self.state == FlashState::Identify && addr <= 1)
    }

    /// The byte read at `addr`: in identify mode, addresses 0 and 1 give the IDs of a Sanyo
    /// chip (dual bank) or an SST chip (single bank); other addresses of the bank read the
    /// selected bank, and addresses past the bank read 0.
    pub open spec fn read_value(self, addr: u32) -> u8 {
        if self.state == FlashState::Identify && addr == 0 {
            if self.is_dual_bank() {
                0x62
            } else {
                0xbf
            }
        } else if self.state == FlashState::Identify && addr == 1 {
            if self.is_dual_bank() {
                0x13
            } else {
                0xd4
            }
        } else if addr <= 0xffff {
            self.buf[self.buf_index(addr)]
        } else {
            0
        }
    }

    /// A write of `value` at `addr` stores a byte or erases a sector: an index is needed.
    pub open spec fn writes_buf(self, addr: u32, value: u8) -> bool {
        &&& (addr as int) < BANK_LEN
        &&& (self.state == FlashState::Write || (self.state == FlashState::Erase
            && self.next_cmd_state == NextCommandState::Type && value == 0x30 && addr % 0x1000
            == 0))
    }

    /// The model after writing `value` at `addr` (writes past the bank are ignored): in write
    /// mode the byte is stored; a sector erase (0x30 to a 4KiB boundary) or an erase-all fills
    /// with 0xff; in bank-switch mode a write to 0 selects the bank; after the unlock sequence
    /// (0xaa to 0x5555, 0x55 to 0x2aaa) a write to 0x5555 is a command: 0x80 erase, 0x90
    /// identify, 0xa0 write, 0xb0 switch bank (dual bank only), 0xf0 leave identify mode.
    pub open spec fn written(self, addr: u32, value: u8) -> FlashModel {
        if addr as int >= BANK_LEN {
            self
        } else if self.state == FlashState::Write {
            FlashModel {
                buf: self.buf.update(self.buf_index(addr), value),
                state: FlashState::Ready,
                ..self
            }
        } else if self.state == FlashState::Erase && self.next_cmd_state == NextCommandState::Type
            && value == 0x30 && addr % 0x1000 == 0 {
            let i = self.buf_index(addr);
            FlashModel {
                buf: Seq::new(
                    self.buf.len(),
                    |j: int|
                        if i <= j < i + 0x1000 {
                            0xffu8
                        } else {
                            self.buf[j]
                        },
                ),
                state: FlashState::Ready,
                next_cmd_state: NextCommandState::Locked,
                ..self
            }
        } else if self.state == FlashState::SwitchBank && addr == 0 {
            FlashModel { bank_idx: value as usize, state: FlashState::Ready, ..self }
        } else if self.next_cmd_state == NextCommandState::Type && addr == 0x5555 {
            let s = FlashModel { next_cmd_state: NextCommandState::Locked, ..self };
            if self.state == FlashState::Erase && value == 0x10 {
                FlashModel { buf: erased(self.buf.len()), state: FlashState::Ready, ..s }
            } else if self.state == FlashState::Ready && value == 0x80 {
                FlashModel { state: FlashState::Erase, ..s }
            } else if self.state == FlashState::Ready && value == 0x90 {
                FlashModel { state: FlashState::Identify, ..s }
            } else if self.state == FlashState::Ready && value == 0xa0 {
                FlashModel { state: FlashState::Write, ..s }
            } else if self.state == FlashState::Ready && value == 0xb0 && self.is_dual_bank() {
                FlashModel { state: FlashState::SwitchBank, ..s }
            } else if self.state == FlashState::Identify && value == 0xf0 {
                FlashModel { state: FlashState::Ready, ..s }
            } else {
                s
            }
        } else if self.next_cmd_state == NextCommandState::Locked && addr == 0x5555 && value
            == 0xaa {
            FlashModel { next_cmd_state: NextCommandState::Incomplete, ..self }
        } else if self.next_cmd_state == NextCommandState::Incomplete && addr == 0x2aaa && value
            == 0x55 {
            FlashModel { next_cmd_state: NextCommandState::Type, ..self }
        } else {
            self
        }
    }
}

/// In write mode, a byte written to an address of the bank reads back.
pub proof fn lemma_flash_write_read_back(m: FlashModel, addr: u32, value: u8)
    requires
        m.state == FlashState::Write,
        addr <= 0xffff,
        m.buf_index(addr) < m.buf.len(),
    ensures
        m.written(addr, value).read_value(addr) == value,
{
}

/// A buffer of `len` bytes of 0xff.
fn erased_buffer(len: usize) -> (r: Vec<u8>)
    ensures
        r@ == erased(len as nat),
{
    let mut buf: Vec<u8> = Vec::new();
    let mut i: usize = 0;
    while i < len
        invariant
            i <= len,
            buf@ == erased(i as nat),
        decreases len - i,
    {
        buf.push(0xff);
        i = i + 1;
        assert(buf@ =~= erased(i as nat));
    }
    buf
}

impl Flash {
    /// Flash memory holding `buf`, taken out of the option, if it is one or two banks long;
    /// otherwise `buf` is left as it was.
    pub fn try_from_buffer(buf: &mut Option<Vec<u8>>) -> (r: Result<Flash, ()>)
        ensures
            match *old(buf) {
                Some(b) if b@.len() == BANK_LEN || b@.len() == 2 * BANK_LEN => {
                    &&& *final(buf) == None::<Vec<u8>>
                    &&& r matches Ok(f) && f@ == (FlashModel {
                        buf: b@,
                        bank_idx: 0,
                        state: FlashState::Ready,
                        next_cmd_state: NextCommandState::Locked,
                    })
                },
                _ => *final(buf) == *old(buf) && r is Err,
            },
    {
        let ok = match buf {
            Some(b) => b.len() == BANK_LEN || b.len() == 2 * BANK_LEN,
            None => false,
        };
        if !ok {
            return Err(());
        }
        match buf.take() {
            Some(b) => Ok(
                Flash {
                    buf: b,
                    bank_idx: 0,
                    state: FlashState::Ready,
                    next_cmd_state: NextCommandState::Locked,
                },
            ),
            None => Err(()),
        }
    }

    /// Erased flash memory (every byte 0xff) of two banks if `dual_bank`, else one.
    pub fn new(dual_bank: bool) -> (r: Flash)
        ensures
            r@ == (FlashModel {
                buf: erased(
                    if dual_bank {
                        2 * BANK_LEN
                    } else {
                        BANK_LEN as int
                    } as nat,
                ),
                bank_idx: 0,
                state: FlashState::Ready,
                next_cmd_state: NextCommandState::Locked,
            }),
    {
        let len: usize = if dual_bank {
            2 * BANK_LEN
        } else {
            BANK_LEN
        };
        let mut buf = Some(erased_buffer(len));
        match Flash::try_from_buffer(&mut buf) {
            Ok(flash) => flash,
            Err(()) => {
                assert(false);
                Flash {
                    buf: Vec::new(),
                    bank_idx: 0,
                    state: FlashState::Ready,
                    next_cmd_state: NextCommandState::Locked,
                }
            },
        }
    }

    /// The contents of both banks.
    pub fn buffer(&self) -> (r: &[u8])
        ensures
            r@ == self@.buf,
    {
        self.buf.as_slice()
    }

    fn is_dual_bank(&self) -> (r: bool)
        ensures
            r == self@.is_dual_bank(),
    {
        self.buf.len() > BANK_LEN
    }

    /// Reads the byte at `addr`. A bank selected past the end cannot be read.
    pub fn read_byte(&mut self, addr: u32) -> (r: u8)
        requires
            old(self)@.reads_buf(addr) ==> old(self)@.buf_index(addr) < old(self)@.buf.len(),
        ensures
            final(self)@ == old(self)@,
            r == old(self)@.read_value(addr),
    {
        if self.state == FlashState::Identify && addr == 0 {
            if self.is_dual_bank() {
                0x62
            } else {
                0xbf
            }
        } else if self.state == FlashState::Identify && addr == 1 {
            if self.is_dual_bank() {
                0x13
            } else {
                0xd4
            }
        } else if addr <= 0xffff {
            let len = self.buf.len();
            assert(self.bank_idx * BANK_LEN + addr < len);
            self.buf[self.bank_idx * BANK_LEN + addr as usize]
        } else {
            0
        }
    }

    /// Writes `value` at `addr`. A bank selected past the end cannot be written.
    pub fn write_byte(&mut self, addr: u32, value: u8)
        requires
            old(self)@.wf(),
            old(self)@.writes_buf(addr, value) ==> old(self)@.buf_index(addr) + if old(
                self,
            )@.state == FlashState::Write {
                1int
            } else {
                0x1000int
            } <= old(self)@.buf.len(),
        ensures
            final(self)@.wf(),
            final(self)@ == old(self)@.written(addr, value),
    {
        if addr as usize >= BANK_LEN {
            return;
        }
        if self.state == FlashState::Write {
            let i = self.bank_idx * BANK_LEN + addr as usize;
            self.buf.set(i, value);
            self.state = FlashState::Ready;
        } else if self.state == FlashState::Erase && self.next_cmd_state == NextCommandState::Type
            && value == 0x30 && addr % 0x1000 == 0 {
            let i = self.bank_idx * BANK_LEN + addr as usize;
            self.erase_sector(i);
            self.state = FlashState::Ready;
            self.next_cmd_state = NextCommandState::Locked;
        } else if self.state == FlashState::SwitchBank && addr == 0 {
            self.bank_idx = value as usize;
            self.state = FlashState::Ready;
        } else if self.next_cmd_state == NextCommandState::Type && addr == 0x5555 {
            if self.state == FlashState::Erase && value == 0x10 {
                self.buf = erased_buffer(self.buf.len());
                self.state = FlashState::Ready;
            } else if self.state == FlashState::Ready && value == 0x80 {
                self.state = FlashState::Erase;
            } else if self.state == FlashState::Ready && value == 0x90 {
                self.state = FlashState::Identify;
            } else if self.state == FlashState::Ready && value == 0xa0 {
                self.state = FlashState::Write;
            } else if self.state == FlashState::Ready && value == 0xb0 && self.is_dual_bank() {
                self.state = FlashState::SwitchBank;
            } else if self.state == FlashState::Identify && value == 0xf0 {
                self.state = FlashState::Ready;
            }
            self.next_cmd_state = NextCommandState::Locked;
        } else if self.next_cmd_state == NextCommandState::Locked && addr == 0x5555 && value
            == 0xaa {
            self.next_cmd_state = NextCommandState::Incomplete;
        } else if self.next_cmd_state == NextCommandState::Incomplete && addr == 0x2aaa && value
            == 0x55 {
            self.next_cmd_state = NextCommandState::Type;
        }
    }

    fn erase_sector(&mut self, i: usize)
        requires
            i + 0x1000 <= old(self)@.buf.len(),
        ensures
            final(self)@ == (FlashModel {
                buf: Seq::new(
                    old(self)@.buf.len(),
                    |j: int|
                        if i <= j < i + 0x1000 {
                            0xffu8
                        } else {
                            old(self)@.buf[j]
                        },
                ),
                ..old(self)@
            }),
    {
        let mut k: usize = 0;
        while k < 0x1000
            invariant
                k <= 0x1000,
                i + 0x1000 <= self.buf@.len(),
                self.buf@.len() == old(self)@.buf.len(),
                self.bank_idx == old(self).bank_idx,
                self.state == old(self).state,
                self.next_cmd_state == old(self).next_cmd_state,
                forall|j: int|
                    0 <= j < self.buf@.len() ==> #[trigger] self.buf@[j] == if i <= j < i + k {
                        0xffu8
                    } else {
                        old(self)@.buf[j]
                    },
            decreases 0x1000 - k,
        {
            let len = self.buf.len();
            assert(i + k < len);
            self.buf.set(i + k, 0xff);
            k = k + 1;
        }
        assert(self.buf@ =~= Seq::new(
            old(self)@.buf.len(),
            |j: int|
                if i <= j < i + 0x1000 {
                    0xffu8
                } else {
                    old(self)@.buf[j]
                },
        ));
    }
}

impl Flash {
    /// Whether a read of `addr` finds its bank, where it reads one.
    pub fn can_read(&self, addr: u32) -> (r: bool)
        requires
            self@.wf(),
        ensures
            r == (self@.reads_buf(addr) ==> self@.buf_index(addr) < self@.buf.len()),
    {
        let identify = match self.state {
            FlashState::Identify => true,
            _ => false,
        };
        if addr > 0xffff || (identify && addr <= 1) {
            return true;
        }
        if self.bank_idx >= 2 {
            return false;
        }
        self.bank_idx * BANK_LEN + (addr as usize) < self.buf.len()
    }

    /// Whether a write of `value` to `addr` finds its bank, where it stores to one.
    pub fn can_write(&self, addr: u32, value: u8) -> (r: bool)
        requires
            self@.wf(),
        ensures
            r == (self@.writes_buf(addr, value) ==> self@.buf_index(addr) + if self@.state
                == FlashState::Write {
                1int
            } else {
                0x1000int
            } <= self@.buf.len()),
    {
        let write = match self.state {
            FlashState::Write => true,
            _ => false,
        };
        let erase = match self.state {
            FlashState::Erase => true,
            _ => false,
        };
        let typed = match self.next_cmd_state {
            NextCommandState::Type => true,
            _ => false,
        };
        let writes = (addr as usize) < BANK_LEN && (write || (erase && typed && value == 0x30
            && addr % 0x1000 == 0));
        if !writes {
            return true;
        }
        if self.bank_idx >= 2 {
            return false;
        }
        let len: usize = if write {
            1
        } else {
            0x1000
        };
        self.bank_idx * BANK_LEN + (addr as usize) + len <= self.buf.len()
    }
}

} // verus!
