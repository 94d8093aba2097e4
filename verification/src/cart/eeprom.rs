use vstd::prelude::*;

verus! {

/// The number of bits in an EEPROM block.
pub const BLOCK_LEN: usize = 64;

/// Where the serial EEPROM protocol stands.
#[derive(Debug, Copy, Clone, Eq, PartialEq, Structural)]
pub enum EepromState {
    /// Ready; reads tell that no operation is under way.
    Idle,
    /// A request started; its next bit tells a read (1) from a write (0).
    Type,
    /// Receiving the address of the block to read, most significant bit first.
    ReadAddress { block_idx: u16, bit_idx: usize },
    /// Sending a block, from bit `start_bit_idx + rem_len - 1` down, after 4 junk bits.
    ReadBlock { start_bit_idx: usize, rem_len: usize },
    /// Receiving the address of the block to write, most significant bit first.
    WriteAddress { block_idx: u16, bit_idx: usize },
    /// Receiving the 64 bits of the block to write, most significant bit first.
    WriteBlock { block_idx: u16, data: u64, bit_idx: usize },
}

/// The model of an EEPROM: its bytes and the state of the protocol.
pub struct EepromModel {
    pub buf: Seq<u8>,
    pub state: EepromState,
}

/// Serial EEPROM save memory of 512 bytes or 8KiB, accessed one bit per half-word.
#[derive(Debug, Clone)]
pub struct Eeprom {
    buf: Vec<u8>,
    state: EepromState,
}

impl View for Eeprom {
    type V = EepromModel;

    closed spec fn view(&self) -> EepromModel {
        EepromModel { buf: self.buf@, state: self.state }
    }
}

/// `value` with bit `i` set to `b`.
pub open spec fn with_bit_u16(value: u16, i: u16, b: bool) -> u16 {
    if b {
        value | (1u16 << i)
    } else {
        value & !(1u16 << i)
    }
}

/// `value` with bit `i` set to `b`.
pub open spec fn with_bit_u64(value: u64, i: u64, b: bool) -> u64 {
    if b {
        value | (1u64 << i)
    } else {
        value & !(1u64 << i)
    }
}

/// Bit `i` of `byte`.
pub open spec fn byte_bit(byte: u8, i: u8) -> bool {
    (byte >> i) & 1 == 1
}

impl EepromModel {
    /// The number of address bits: 14 for 8KiB, 6 for 512 bytes.
    pub open spec fn block_idx_bits(self) -> usize {
        if self.buf.len() / (BLOCK_LEN as nat) > 64 {
            14
        } else {
            6
        }
    }

    /// 512 bytes or 8KiB, and every index within its range.
    pub open spec fn wf(self) -> bool {
        &&& (self.buf.len() == 8 * BLOCK_LEN || self.buf.len() == 128 * BLOCK_LEN)
        &&& match self.state {
            EepromState::ReadAddress { block_idx, bit_idx } => bit_idx <= self.block_idx_bits(),
            EepromState::ReadBlock { start_bit_idx, rem_len } => {
                &&& start_bit_idx < 0x1_0000 * BLOCK_LEN
                &&& 1 <= rem_len <= BLOCK_LEN + 4
            },
            EepromState::WriteAddress { block_idx, bit_idx } => bit_idx < self.block_idx_bits(),
            EepromState::WriteBlock { block_idx, data, bit_idx } => bit_idx <= BLOCK_LEN,
            _ => true,
        }
    }

    /// Reading the half-word at an even address (the bit in bit 0): junk 0 bits and then the
    /// block's bits while a block is sent, 1 when idle, and 0 otherwise. Odd addresses read 0.
    pub open spec fn read(self, addr: u32) -> (EepromModel, u8) {
        if addr % 2 == 1 {
            (self, 0)
        } else {
            match self.state {
                EepromState::ReadBlock { start_bit_idx, rem_len } => {
                    if rem_len > BLOCK_LEN {
                        (
                            EepromModel {
                                state: EepromState::ReadBlock {
                                    start_bit_idx,
                                    rem_len: (rem_len - 1) as usize,
                                },
                                ..self
                            },
                            0,
                        )
                    } else {
                        let bit_idx = start_bit_idx + rem_len - 1;
                        let byte_idx = bit_idx / 8;
                        let bit = byte_idx < self.buf.len() && byte_bit(
                            self.buf[byte_idx],
                            (bit_idx % 8) as u8,
                        );
                        let state = if rem_len == 1 {
                            EepromState::Idle
                        } else {
                            EepromState::ReadBlock { start_bit_idx, rem_len: (rem_len - 1) as usize }
                        };
                        (
                            EepromModel { state, ..self },
                            if bit {
                                1
                            } else {
                                0
                            },
                        )
                    }
                },
                EepromState::Idle => (self, 1),
                _ => (self, 0),
            }
        }
    }

    /// The block `data` stored little-endian at byte `i`.
    pub open spec fn with_block(self, i: int, data: u64) -> Seq<u8> {
        Seq::new(
            self.buf.len(),
            |j: int|
                if i <= j < i + 8 {
                    ((data >> (8 * (j - i)) as u64) & 0xff) as u8
                } else {
                    self.buf[j]
                },
        )
    }

    /// Writing the half-word `value` at an even address (the bit in bit 0) steps the protocol:
    /// a 1 starts a request, whose next bit selects a read or a write; the address bits
    /// follow, then for a read one more bit starts the block, and for a write the 64 bits of
    /// the block and one more bit that stores it (unless it would reach the last byte).
    /// Writes to odd addresses and while a block is sent are ignored.
    pub open spec fn written(self, addr: u32, value: u8) -> EepromModel {
        let bit = value & 1 == 1;
        let bits = self.block_idx_bits();
        if addr % 2 == 1 {
            self
        } else {
            match self.state {
                EepromState::Idle => if bit {
                    EepromModel { state: EepromState::Type, ..self }
                } else {
                    self
                },
                EepromState::ReadBlock { .. } => self,
                EepromState::Type => if bit {
                    EepromModel {
                        state: EepromState::ReadAddress { block_idx: 0, bit_idx: 0 },
                        ..self
                    }
                } else {
                    EepromModel {
                        state: EepromState::WriteAddress { block_idx: 0, bit_idx: 0 },
                        ..self
                    }
                },
                EepromState::ReadAddress { block_idx, bit_idx } => if bit_idx < bits {
                    EepromModel {
                        state: EepromState::ReadAddress {
                            block_idx: with_bit_u16(block_idx, (bits - 1 - bit_idx) as u16, bit),
                            bit_idx: (bit_idx + 1) as usize,
                        },
                        ..self
                    }
                } else {
                    EepromModel {
                        state: EepromState::ReadBlock {
                            start_bit_idx: (block_idx * BLOCK_LEN) as usize,
                            rem_len: (BLOCK_LEN + 4) as usize,
                        },
                        ..self
                    }
                },
                EepromState::WriteAddress { block_idx, bit_idx } => {
                    let block_idx = with_bit_u16(block_idx, (bits - 1 - bit_idx) as u16, bit);
                    if bit_idx + 1 >= bits {
                        EepromModel {
                            state: EepromState::WriteBlock { block_idx, data: 0, bit_idx: 0 },
                            ..self
                        }
                    } else {
                        EepromModel {
                            state: EepromState::WriteAddress {
                                block_idx,
                                bit_idx: (bit_idx + 1) as usize,
                            },
                            ..self
                        }
                    }
                },
                EepromState::WriteBlock { block_idx, data, bit_idx } => if bit_idx < BLOCK_LEN {
                    EepromModel {
                        state: EepromState::WriteBlock {
                            block_idx,
                            data: with_bit_u64(data, (BLOCK_LEN - 1 - bit_idx) as u64, bit),
                            bit_idx: (bit_idx + 1) as usize,
                        },
                        ..self
                    }
                } else {
                    let i = block_idx * 8;
                    EepromModel {
                        buf: if i + 8 < self.buf.len() {
                            self.with_block(i, data)
                        } else {
                            self.buf
                        },
                        state: EepromState::Idle,
                    }
                },
            }
        }
    }
}

fn set_bit_u16(value: u16, i: u16, b: bool) -> (r: u16)
    requires
        i < 16,
    ensures
        r == with_bit_u16(value, i, b),
{
    if b {
        value | (1u16 << i)
    } else {
        value & !(1u16 << i)
    }
}

fn set_bit_u64(value: u64, i: u64, b: bool) -> (r: u64)
    requires
        i < 64,
    ensures
        r == with_bit_u64(value, i, b),
{
    if b {
        value | (1u64 << i)
    } else {
        value & !(1u64 << i)
    }
}

impl Eeprom {
    /// An erased EEPROM (every byte 0xff) of 8KiB if `size_8k`, else 512 bytes.
    pub fn new(size_8k: bool) -> (r: Eeprom)
        ensures
            r@.wf(),
            r@.buf == Seq::new(
                if size_8k {
                    128 * BLOCK_LEN
                } else {
                    8 * BLOCK_LEN
                } as nat,
                |i: int| 0xffu8,
            ),
            r@.state == EepromState::Idle,
    {
        let len: usize = if size_8k {
            128 * BLOCK_LEN
        } else {
            8 * BLOCK_LEN
        };
        let mut buf: Vec<u8> = Vec::new();
        let mut i: usize = 0;
        while i < len
            invariant
                i <= len,
                buf@ == Seq::new(i as nat, |j: int| 0xffu8),
            decreases len - i,
        {
            buf.push(0xff);
            i = i + 1;
            assert(buf@ =~= Seq::new(i as nat, |j: int| 0xffu8));
        }
        Eeprom { buf, state: EepromState::Idle }
    }

    /// Reads the half-word at `addr` (only bit 0 holds data).
    pub fn read_byte(&mut self, addr: u32) -> (r: u8)
        requires
            old(self)@.wf(),
        ensures
            final(self)@.wf(),
            (final(self)@, r) == old(self)@.read(addr),
    {
        if addr % 2 == 1 {
            return 0;
        }
        match self.state {
            EepromState::ReadBlock { start_bit_idx, rem_len } => {
                if rem_len > BLOCK_LEN {
                    self.state = EepromState::ReadBlock { start_bit_idx, rem_len: rem_len - 1 };
                    0
                } else {
                    let bit_idx = start_bit_idx + rem_len - 1;
                    let byte_idx = bit_idx / 8;
                    let bit = if byte_idx < self.buf.len() {
                        (self.buf[byte_idx] >> ((bit_idx % 8) as u8)) & 1 == 1
                    } else {
                        false
                    };
                    if rem_len == 1 {
                        self.state = EepromState::Idle;
                    } else {
                        self.state = EepromState::ReadBlock { start_bit_idx, rem_len: rem_len - 1 };
                    }
                    if bit {
                        1
                    } else {
                        0
                    }
                }
            },
            EepromState::Idle => 1,
            _ => 0,
        }
    }

    /// Writes the half-word `value` at `addr` (only bit 0 is used).
    pub fn write_byte(&mut self, addr: u32, value: u8)
        requires
            old(self)@.wf(),
        ensures
            final(self)@.wf(),
            final(self)@ == old(self)@.written(addr, value),
    {
        if addr % 2 == 1 {
            return;
        }
        let bits: usize = if self.buf.len() / BLOCK_LEN > 64 {
            14
        } else {
            6
        };
        let bit = value & 1 == 1;
        match self.state {
            EepromState::Idle => {
                if bit {
                    self.state = EepromState::Type;
                }
            },
            EepromState::ReadBlock { .. } => {},
            EepromState::Type => {
                if bit {
                    self.state = EepromState::ReadAddress { block_idx: 0, bit_idx: 0 };
                } else {
                    self.state = EepromState::WriteAddress { block_idx: 0, bit_idx: 0 };
                }
            },
            EepromState::ReadAddress { block_idx, bit_idx } => {
                if bit_idx < bits {
                    self.state = EepromState::ReadAddress {
                        block_idx: set_bit_u16(block_idx, (bits - 1 - bit_idx) as u16, bit),
                        bit_idx: bit_idx + 1,
                    };
                } else {
                    self.state = EepromState::ReadBlock {
                        start_bit_idx: block_idx as usize * BLOCK_LEN,
                        rem_len: BLOCK_LEN + 4,
                    };
                }
            },
            EepromState::WriteAddress { block_idx, bit_idx } => {
                let block_idx = set_bit_u16(block_idx, (bits - 1 - bit_idx) as u16, bit);
                if bit_idx + 1 >= bits {
                    self.state = EepromState::WriteBlock { block_idx, data: 0, bit_idx: 0 };
                } else {
                    self.state = EepromState::WriteAddress { block_idx, bit_idx: bit_idx + 1 };
                }
            },
            EepromState::WriteBlock { block_idx, data, bit_idx } => {
                if bit_idx < BLOCK_LEN {
                    self.state = EepromState::WriteBlock {
                        block_idx,
                        data: set_bit_u64(data, (BLOCK_LEN - 1 - bit_idx) as u64, bit),
                        bit_idx: bit_idx + 1,
                    };
                } else {
                    let i = block_idx as usize * 8;
                    if i + 8 < self.buf.len() {
                        self.store_block(i, data);
                    }
                    self.state = EepromState::Idle;
                }
            },
        }
    }

    fn store_block(&mut self, i: usize, data: u64)
        requires
            i + 8 < old(self)@.buf.len(),
        ensures
            final(self)@ == (EepromModel { buf: old(self)@.with_block(i as int, data), ..old(self)@ }),
    {
        let mut k: usize = 0;
        while k < 8
            invariant
                k <= 8,
                i + 8 < self.buf@.len(),
                self.state == old(self).state,
                self.buf@.len() == old(self)@.buf.len(),
                forall|j: int|
                    0 <= j < self.buf@.len() ==> #[trigger] self.buf@[j] == if i <= j < i + k {
                        ((data >> (8 * (j - i)) as u64) & 0xff) as u8
                    } else {
                        old(self)@.buf[j]
                    },
            decreases 8 - k,
        {
            let len = self.buf.len();
            assert(i + k < len);
            self.buf.set(i + k, ((data >> (8 * k) as u64) & 0xff) as u8);
            k = k + 1;
        }
        assert(self.buf@ =~= old(self)@.with_block(i as int, data));
    }
}

} // verus!

verus! {

/// An 8KiB EEPROM takes 14 address bits in a request, a 512-byte one 6: a write request's
/// address phase ends with its 14th (or 6th) bit and the block's bits follow; a read request
/// takes all its address bits and then one more bit, which starts sending the addressed block
/// (64 bits from bit 64 * address on, after 4 junk bits).
pub proof fn lemma_address_bits(m: EepromModel, addr: u32, value: u8)
    requires
        m.wf(),
        addr % 2 == 0,
    ensures
        ({
            let address_bits: usize = if m.buf.len() == 8192 {
                14
            } else {
                6
            };
            let next = m.written(addr, value).state;
            &&& m.state matches EepromState::WriteAddress { bit_idx, .. } ==> {
                &&& (next is WriteBlock <==> bit_idx + 1 == address_bits)
                &&& (next is WriteAddress <==> bit_idx + 1 < address_bits)
            }
            &&& m.state matches EepromState::ReadAddress { block_idx, bit_idx } ==> {
                &&& (next is ReadAddress <==> bit_idx < address_bits)
                &&& bit_idx == address_bits ==> next == EepromState::ReadBlock {
                    start_bit_idx: (block_idx * 64) as usize,
                    rem_len: 68,
                }
            }
        }),
{
}

} // verus!

verus! {

/// The EEPROM after the bits `bits` are written in order, each as the half-word 0 or 1.
pub open spec fn bits_written(m: EepromModel, bits: Seq<bool>) -> EepromModel
    decreases bits.len(),
{
    if bits.len() == 0 {
        m
    } else {
        bits_written(m, bits.drop_last()).written(
            0,
            if bits.last() {
                1u8
            } else {
                0u8
            },
        )
    }
}

/// The EEPROM after `n` reads of half-words, and the bits the reads returned, in order.
pub open spec fn bits_read(m: EepromModel, n: nat) -> (EepromModel, Seq<u8>)
    decreases n,
{
    if n == 0 {
        (m, Seq::empty())
    } else {
        let (m1, s) = bits_read(m, (n - 1) as nat);
        let (m2, v) = m1.read(0);
        (m2, s.push(v))
    }
}

/// The bits of `bits` as the half-word values 0 and 1.
pub open spec fn bit_values(bits: Seq<bool>) -> Seq<u8> {
    bits.map_values(
        |b: bool|
            if b {
                1u8
            } else {
                0u8
            },
    )
}

proof fn lemma_bit_facts(d: u64, i: u64, j: u64, b: bool, q: u64, r: u64)
    by (bit_vector)
    requires
        i < 64,
        j < 64,
        q < 8,
        r < 8,
    ensures
        (with_bit_u64(d, i, b) >> j) & 1 == (if i == j {
            if b {
                1u64
            } else {
                0u64
            }
        } else {
            (d >> j) & 1
        }),
        (0u64 >> j) & 1 == 0,
        (d >> j) & 1 <= 1,
        (((((d >> (8 * q)) & 0xff) as u8) >> (r as u8)) & 1) as u64 == (d >> (8 * q + r)) & 1,
        1u8 & 1 == 1,
        0u8 & 1 == 0,
{
}

proof fn lemma_bits_written_append(m: EepromModel, a: Seq<bool>, b: Seq<bool>)
    ensures
        bits_written(m, a + b) == bits_written(bits_written(m, a), b),
    decreases b.len(),
{
    if b.len() > 0 {
        lemma_bits_written_append(m, a, b.drop_last());
        assert((a + b).drop_last() =~= a + b.drop_last());
    } else {
        assert(a + b =~= a);
    }
}

/// After the first `k` of the 64 data bits of a write request, the block holds them from its
/// top bit down, and the rest of its bits are 0.
proof fn lemma_data_bits(m: EepromModel, b: u16, data: Seq<bool>, k: nat) -> (d: u64)
    requires
        m.wf(),
        m.state == (EepromState::WriteBlock { block_idx: b, data: 0, bit_idx: 0 }),
        k <= 64,
        k <= data.len(),
    ensures
        bits_written(m, data.take(k as int)) == (EepromModel {
            state: EepromState::WriteBlock { block_idx: b, data: d, bit_idx: k as usize },
            ..m
        }),
        forall|j: u64|
            j < 64 ==> #[trigger] ((d >> j) & 1) == if j >= 64 - k {
                if data[63 - j] {
                    1u64
                } else {
                    0u64
                }
            } else {
                0u64
            },
    decreases k,
{
    if k == 0 {
        assert(data.take(0) =~= Seq::<bool>::empty());
        assert forall|j: u64| j < 64 implies #[trigger] ((0u64 >> j) & 1) == 0u64 by {
            lemma_bit_facts(0, 0, j, false, 0, 0);
        }
        0
    } else {
        let d0 = lemma_data_bits(m, b, data, (k - 1) as nat);
        assert(data.take(k as int).drop_last() =~= data.take(k - 1));
        let bit = data[k - 1];
        lemma_bit_facts(0, 0, 0, bit, 0, 0);
        let i = (63 - (k - 1)) as u64;
        let d = with_bit_u64(d0, i, bit);
        assert forall|j: u64| j < 64 implies #[trigger] ((d >> j) & 1) == if j >= 64 - k {
            if data[63 - j] {
                1u64
            } else {
                0u64
            }
        } else {
            0u64
        } by {
            lemma_bit_facts(d0, i, j, bit, 0, 0);
        }
        d
    }
}

/// Reading a block sent from bit 64 * `b` on: 4 junk 0 bits, then the stored block's bits
/// from its top bit down; the EEPROM is ready again after the last.
proof fn lemma_read_bits(m: EepromModel, b: u16, d: u64, n: nat)
    requires
        m.wf(),
        m.state == (EepromState::ReadBlock { start_bit_idx: (b * 64) as usize, rem_len: 68 }),
        8 * b + 8 < m.buf.len(),
        forall|q: int| 0 <= q < 8 ==> #[trigger] m.buf[8 * b + q] == ((d >> (8 * q) as u64) & 0xff) as u8,
        n <= 68,
    ensures
        bits_read(m, n).0 == (EepromModel {
            state: if n == 68 {
                EepromState::Idle
            } else {
                EepromState::ReadBlock { start_bit_idx: (b * 64) as usize, rem_len: (68 - n) as usize }
            },
            ..m
        }),
        bits_read(m, n).1.len() == n,
        forall|k: int|
            0 <= k < n ==> #[trigger] bits_read(m, n).1[k] == if k < 4 {
                0u8
            } else {
                ((d >> (67 - k) as u64) & 1) as u8
            },
    decreases n,
{
    if n > 0 {
        lemma_read_bits(m, b, d, (n - 1) as nat);
        let (m1, s) = bits_read(m, (n - 1) as nat);
        let (m2, v) = m1.read(0);
        let k = n - 1;
        if n > 4 {
            let bit_idx: int = b * 64 + 68 - n;
            let q: int = (67 - k) / 8;
            let r: int = (67 - k) % 8;
            assert(bit_idx / 8 == 8 * b + q && bit_idx % 8 == r) by (nonlinear_arith)
                requires
                    bit_idx == b * 64 + 67 - k,
                    4 <= k < 68,
                    q == (67 - k) / 8,
                    r == (67 - k) % 8,
            ;
            assert(0 <= q < 8 && 0 <= r < 8 && 8 * q + r == 67 - k);
            lemma_bit_facts(d, 0, (67 - k) as u64, false, q as u64, r as u64);
            assert(m.buf[8 * b + q] == ((d >> (8 * q) as u64) & 0xff) as u8);
            assert(v == ((d >> (67 - k) as u64) & 1) as u8);
        }
        assert forall|i: int| 0 <= i < n implies #[trigger] bits_read(m, n).1[i] == if i < 4 {
            0u8
        } else {
            ((d >> (67 - i) as u64) & 1) as u8
        } by {
            if i < k {
                assert(bits_read(m, n).1[i] == s[i]);
                assert(bits_read(m, (n - 1) as nat).1[i] == s[i]);
            }
        }
    }
}

/// A 64-bit block written to an EEPROM reads back: after a write request's 64 data bits and
/// its closing bit store the block at block index `b`, sending that block returns 4 junk 0
/// bits and then the same 64 bits, in the same order.
pub proof fn lemma_block_read_back(m: EepromModel, b: u16, data: Seq<bool>)
    requires
        m.wf(),
        m.state == (EepromState::WriteBlock { block_idx: b, data: 0, bit_idx: 0 }),
        data.len() == 64,
        8 * b + 8 < m.buf.len(),
    ensures
        ({
            let stored = bits_written(m, data.push(false));
            let sending = EepromModel {
                state: EepromState::ReadBlock { start_bit_idx: (b * 64) as usize, rem_len: 68 },
                ..stored
            };
            &&& stored.state == EepromState::Idle
            &&& stored.buf.len() == m.buf.len()
            &&& bits_read(sending, 68).0.state == EepromState::Idle
            &&& bits_read(sending, 68).1 == seq![0u8, 0u8, 0u8, 0u8] + bit_values(data)
        }),
{
    let d = lemma_data_bits(m, b, data, 64);
    assert(data.take(64) =~= data);
    lemma_bit_facts(0, 0, 0, false, 0, 0);
    assert(data.push(false).drop_last() =~= data);
    let stored = bits_written(m, data.push(false));
    assert(stored.buf == m.with_block(8 * b, d));
    let sending = EepromModel {
        state: EepromState::ReadBlock { start_bit_idx: (b * 64) as usize, rem_len: 68 },
        ..stored
    };
    assert forall|q: int| 0 <= q < 8 implies #[trigger] sending.buf[8 * b + q] == ((d >> (8
        * q) as u64) & 0xff) as u8 by {}
    lemma_read_bits(sending, b, d, 68);
    let out = bits_read(sending, 68).1;
    let expected = seq![0u8, 0u8, 0u8, 0u8] + bit_values(data);
    assert forall|k: int| 0 <= k < 68 implies out[k] == expected[k] by {
        if k >= 4 {
            let j = (67 - k) as u64;
            assert((d >> j) & 1 == if data[63 - j] {
                1u64
            } else {
                0u64
            });
        }
    }
    assert(out =~= expected);
}

} // verus!

verus! {

/// The block index that the address bits `a` give, most significant first, in a request
/// that takes `n` address bits.
pub open spec fn address_assembled(a: Seq<bool>, n: int) -> u16
    decreases a.len(),
{
    if a.len() == 0 {
        0
    } else {
        with_bit_u16(address_assembled(a.drop_last(), n), (n - a.len()) as u16, a.last())
    }
}

/// The address bits an EEPROM of `len` bytes takes: 14 for 8KiB, else 6.
pub open spec fn address_bits_of(len: nat) -> int {
    if len == 8192 {
        14
    } else {
        6
    }
}

proof fn lemma_write_address(m: EepromModel, a: Seq<bool>, k: nat)
    requires
        m.wf(),
        m.state == (EepromState::WriteAddress { block_idx: 0, bit_idx: 0 }),
        a.len() == address_bits_of(m.buf.len()),
        0 < k <= a.len(),
    ensures
        bits_written(m, a.take(k as int)) == (EepromModel {
            state: if k == a.len() {
                EepromState::WriteBlock {
                    block_idx: address_assembled(a.take(k as int), a.len() as int),
                    data: 0,
                    bit_idx: 0,
                }
            } else {
                EepromState::WriteAddress {
                    block_idx: address_assembled(a.take(k as int), a.len() as int),
                    bit_idx: k as usize,
                }
            },
            ..m
        }),
    decreases k,
{
    lemma_bit_facts(0, 0, 0, false, 0, 0);
    assert(a.take(k as int).drop_last() =~= a.take(k - 1));
    if k > 1 {
        lemma_write_address(m, a, (k - 1) as nat);
    } else {
        assert(a.take(0) =~= Seq::<bool>::empty());
    }
}

proof fn lemma_read_address(m: EepromModel, a: Seq<bool>, k: nat)
    requires
        m.wf(),
        m.state == (EepromState::ReadAddress { block_idx: 0, bit_idx: 0 }),
        a.len() == address_bits_of(m.buf.len()),
        k <= a.len(),
    ensures
        bits_written(m, a.take(k as int)) == (EepromModel {
            state: EepromState::ReadAddress {
                block_idx: address_assembled(a.take(k as int), a.len() as int),
                bit_idx: k as usize,
            },
            ..m
        }),
    decreases k,
{
    lemma_bit_facts(0, 0, 0, false, 0, 0);
    if k > 0 {
        assert(a.take(k as int).drop_last() =~= a.take(k - 1));
        lemma_read_address(m, a, (k - 1) as nat);
    } else {
        assert(a.take(0) =~= Seq::<bool>::empty());
    }
}

/// What an EEPROM stores it gives back: a write request (bits 1, 0, the address bits — 14
/// for 8KiB, 6 for 512 bytes — the 64 data bits and a closing 0) followed by a read request
/// with the same address (bits 1, 1, the address bits and a 0) makes the next 68 reads
/// return 4 junk 0 bits and then the 64 data bits in the order they were written.
pub proof fn lemma_eeprom_round_trip(m: EepromModel, a: Seq<bool>, data: Seq<bool>)
    requires
        m.wf(),
        m.state == EepromState::Idle,
        a.len() == address_bits_of(m.buf.len()),
        data.len() == 64,
        8 * address_assembled(a, a.len() as int) + 8 < m.buf.len(),
    ensures
        ({
            let stored = bits_written(m, seq![true, false] + a + data + seq![false]);
            let requested = bits_written(stored, seq![true, true] + a + seq![false]);
            bits_read(requested, 68).1 == seq![0u8, 0u8, 0u8, 0u8] + bit_values(data)
        }),
{
    lemma_bit_facts(0, 0, 0, false, 0, 0);
    reveal_with_fuel(bits_written, 3);
    let b = address_assembled(a, a.len() as int);
    // The write request.
    let w_req = seq![true, false];
    assert(w_req.drop_last() =~= seq![true]);
    assert(seq![true].drop_last() =~= Seq::<bool>::empty());
    let m1 = bits_written(m, w_req);
    assert(m1 == EepromModel { state: EepromState::WriteAddress { block_idx: 0, bit_idx: 0 }, ..m });
    lemma_write_address(m1, a, a.len());
    assert(a.take(a.len() as int) =~= a);
    let m2 = bits_written(m1, a);
    lemma_bits_written_append(m, w_req, a);
    lemma_block_read_back(m2, b, data);
    lemma_bits_written_append(m, w_req + a, data.push(false));
    assert(data.push(false) =~= data + seq![false]);
    assert(w_req + a + (data + seq![false]) =~= seq![true, false] + a + data + seq![false]);
    lemma_bits_written_append(m1, a, data.push(false));
    let stored = bits_written(m2, data.push(false));
    assert(bits_written(m, seq![true, false] + a + data + seq![false]) == stored);
    // The read request.
    let r_req = seq![true, true];
    assert(r_req.drop_last() =~= seq![true]);
    let s1 = bits_written(stored, r_req);
    assert(s1 == EepromModel { state: EepromState::ReadAddress { block_idx: 0, bit_idx: 0 }, ..stored });
    lemma_read_address(s1, a, a.len());
    let s2 = bits_written(s1, a);
    let fin = seq![false];
    assert(fin.drop_last() =~= Seq::<bool>::empty());
    let s3 = bits_written(s2, fin);
    assert(s3 == EepromModel {
        state: EepromState::ReadBlock { start_bit_idx: (b * 64) as usize, rem_len: 68 },
        ..stored
    });
    lemma_bits_written_append(stored, r_req, a);
    lemma_bits_written_append(stored, r_req + a, fin);
}

} // verus!
