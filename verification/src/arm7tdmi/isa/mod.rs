pub mod arm;
pub mod thumb;

use vstd::prelude::*;

use crate::bus::{hword_read, hword_write, word_read, word_write, Bus, BusAlignedExt};

use super::reg::{OperationMode, OperationState, RegisterFile, StatusRegister, PC_INDEX};
use super::{reloaded, Cpu, CpuModel};

verus! {

/// Masking never gives more than the mask.
pub proof fn lemma_and_le(x: u32, m: u32)
    ensures
        x & m <= m,
{
    assert(x & m <= m) by (bit_vector);
}

/// Masking a half-word never gives more than the mask.
pub proof fn lemma_and_le16(x: u16, m: u16)
    ensures
        x & m <= m,
{
    assert(x & m <= m) by (bit_vector);
}

/// The value of a word read as a two's complement signed integer.
pub open spec fn signed32(x: u32) -> int {
    if x >= 0x8000_0000 {
        x - 0x1_0000_0000
    } else {
        x as int
    }
}

/// Whether bit `i` of `x` is set.
pub open spec fn bit_of(x: u32, i: u32) -> bool {
    (x >> i) & 1 == 1
}

/// The status register with N and Z describing `result`.
pub open spec fn nz_word(cpsr: StatusRegister, result: u32) -> StatusRegister {
    StatusRegister { zero: result == 0, signed: result >= 0x8000_0000, ..cpsr }
}

/// The status register with N and Z describing a 64-bit `result`.
pub open spec fn nz_dword(cpsr: StatusRegister, result: u64) -> StatusRegister {
    StatusRegister { zero: result == 0, signed: result >= 0x8000_0000_0000_0000, ..cpsr }
}

/// The low 32 bits of `a + b + carry`.
pub open spec fn add_result(a: u32, b: u32, carry: bool) -> u32 {
    let s = a + b + (if carry { 1int } else { 0int });
    if s > u32::MAX {
        (s - 0x1_0000_0000) as u32
    } else {
        s as u32
    }
}

/// The V flag of `a + b + carry` as the addition is carried out: in two signed steps, first
/// `a + b`, then the carry, overflow in either step setting V.
pub open spec fn add_overflow(a: u32, b: u32, carry: bool) -> bool {
    let ab = signed32(a) + signed32(b);
    let first = ab < i32::MIN || ab > i32::MAX;
    let wrapped = if ab > i32::MAX {
        ab - 0x1_0000_0000
    } else if ab < i32::MIN {
        ab + 0x1_0000_0000
    } else {
        ab
    };
    first || (carry && wrapped + 1 > i32::MAX)
}

/// The status register after an addition `a + b + carry` that updates the flags.
pub open spec fn add_flags(cpsr: StatusRegister, a: u32, b: u32, carry: bool) -> StatusRegister {
    let flags = StatusRegister {
        overflow: add_overflow(a, b, carry),
        carry: a + b + (if carry { 1int } else { 0int }) > u32::MAX,
        ..cpsr
    };
    nz_word(flags, add_result(a, b, carry))
}

/// Evaluation of an ARM condition code (0 to 15) against the flags.
pub open spec fn condition_holds(cpsr: StatusRegister, cond: u8) -> bool {
    if cond == 0 {
        cpsr.zero
    } else if cond == 1 {
        !cpsr.zero
    } else if cond == 2 {
        cpsr.carry
    } else if cond == 3 {
        !cpsr.carry
    } else if cond == 4 {
        cpsr.signed
    } else if cond == 5 {
        !cpsr.signed
    } else if cond == 6 {
        cpsr.overflow
    } else if cond == 7 {
        !cpsr.overflow
    } else if cond == 8 {
        cpsr.carry && !cpsr.zero
    } else if cond == 9 {
        !cpsr.carry || cpsr.zero
    } else if cond == 10 {
        cpsr.signed == cpsr.overflow
    } else if cond == 11 {
        cpsr.signed != cpsr.overflow
    } else if cond == 12 {
        !cpsr.zero && cpsr.signed == cpsr.overflow
    } else if cond == 13 {
        cpsr.zero || cpsr.signed != cpsr.overflow
    } else {
        cond == 14
    }
}

/// Logical shift left by `offset` (0 leaves the value and the carry alone; 32 or more gives 0).
pub open spec fn lsl(cpsr: StatusRegister, update_cond: bool, value: u32, offset: u8) -> (
    StatusRegister,
    u32,
) {
    let result = if offset == 0 {
        value
    } else if offset < 32 {
        value << (offset as u32)
    } else {
        0
    };
    let carry = if offset == 0 {
        cpsr.carry
    } else if offset <= 32 {
        bit_of(value, (32 - offset) as u32)
    } else {
        false
    };
    if update_cond {
        (nz_word(StatusRegister { carry, ..cpsr }, result), result)
    } else {
        (cpsr, result)
    }
}

/// Logical shift right by `offset`; an offset of 0 acts as 32 when `special_zero_offset`.
pub open spec fn lsr(
    cpsr: StatusRegister,
    update_cond: bool,
    special_zero_offset: bool,
    value: u32,
    offset: u8,
) -> (StatusRegister, u32) {
    let eff: int = if offset == 0 && special_zero_offset {
        32
    } else {
        offset as int
    };
    let result = if eff == 0 {
        value
    } else if eff < 32 {
        value >> (eff as u32)
    } else {
        0
    };
    let carry = if eff == 0 {
        cpsr.carry
    } else if eff <= 32 {
        bit_of(value, (eff - 1) as u32)
    } else {
        false
    };
    if update_cond {
        (nz_word(StatusRegister { carry, ..cpsr }, result), result)
    } else {
        (cpsr, result)
    }
}

/// `value` shifted right arithmetically (copies of the sign bit shifted in) by `n` < 32.
pub open spec fn asr_word(value: u32, n: u32) -> u32 {
    if value < 0x8000_0000 {
        value >> n
    } else {
        !((!value) >> n)
    }
}

/// Arithmetic shift right by `offset`; an offset of 0 acts as 32 when `special_zero_offset`.
pub open spec fn asr(
    cpsr: StatusRegister,
    update_cond: bool,
    special_zero_offset: bool,
    value: u32,
    offset: u8,
) -> (StatusRegister, u32) {
    let eff: int = if offset == 0 && special_zero_offset {
        32
    } else {
        offset as int
    };
    let sign_fill: u32 = if value >= 0x8000_0000 {
        0xffff_ffff
    } else {
        0
    };
    let result = if eff == 0 {
        value
    } else if eff < 32 {
        asr_word(value, eff as u32)
    } else {
        sign_fill
    };
    let carry = if eff == 0 {
        cpsr.carry
    } else if eff <= 32 {
        bit_of(value, (eff - 1) as u32)
    } else {
        value >= 0x8000_0000
    };
    if update_cond {
        (nz_word(StatusRegister { carry, ..cpsr }, result), result)
    } else {
        (cpsr, result)
    }
}

/// `value` rotated right by `n` < 32.
pub open spec fn rotr(value: u32, n: u32) -> u32 {
    if n == 0 {
        value
    } else {
        (value >> n) | (value << ((32 - n) as u32))
    }
}

/// Rotate right by `offset`; an offset of 0 acts as RRX (rotate right through the carry by one
/// bit) when `special_zero_offset`.
pub open spec fn ror(
    cpsr: StatusRegister,
    update_cond: bool,
    special_zero_offset: bool,
    value: u32,
    offset: u8,
) -> (StatusRegister, u32) {
    if offset > 0 {
        let result = rotr(value, (offset % 32) as u32);
        let carry = bit_of(value, ((offset - 1) % 32) as u32);
        if update_cond {
            (nz_word(StatusRegister { carry, ..cpsr }, result), result)
        } else {
            (cpsr, result)
        }
    } else if special_zero_offset {
        let result = (value >> 1u32) | (if cpsr.carry { 0x8000_0000u32 } else { 0u32 });
        if update_cond {
            (nz_word(StatusRegister { carry: value & 1 == 1, ..cpsr }, result), result)
        } else {
            (cpsr, result)
        }
    } else {
        if update_cond {
            (nz_word(cpsr, value), value)
        } else {
            (cpsr, value)
        }
    }
}

/// The shift selected by `op` (0 LSL, 1 LSR, 2 ASR, 3 ROR).
pub open spec fn shift_operand(
    cpsr: StatusRegister,
    op: u8,
    update_cond: bool,
    special_zero_offset: bool,
    value: u32,
    offset: u8,
) -> (StatusRegister, u32) {
    if op == 0 {
        lsl(cpsr, update_cond, value, offset)
    } else if op == 1 {
        lsr(cpsr, update_cond, special_zero_offset, value, offset)
    } else if op == 2 {
        asr(cpsr, update_cond, special_zero_offset, value, offset)
    } else {
        ror(cpsr, update_cond, special_zero_offset, value, offset)
    }
}

/// The status register after an operation with a 32-bit result, updating N and Z if asked.
pub open spec fn logical(cpsr: StatusRegister, update_cond: bool, result: u32) -> StatusRegister {
    if update_cond {
        nz_word(cpsr, result)
    } else {
        cpsr
    }
}

proof fn lemma_lsl_steps(v: u32, o: u32)
    requires
        1 <= o <= 32,
    ensures
        ((v << ((o - 1) as u32)) >> 31u32) & 1 == (v >> ((32 - o) as u32)) & 1,
        o < 32 ==> (v << ((o - 1) as u32)) << 1u32 == v << o,
        o == 32 ==> (v << ((o - 1) as u32)) << 1u32 == 0,
{
    assert(((v << ((o - 1) as u32)) >> 31u32) & 1 == (v >> ((32 - o) as u32)) & 1) by (bit_vector)
        requires
            1 <= o <= 32,
    ;
    assert(o < 32 ==> (v << ((o - 1) as u32)) << 1u32 == v << o) by (bit_vector)
        requires
            1 <= o <= 32,
    ;
    assert(o == 32 ==> (v << ((o - 1) as u32)) << 1u32 == 0) by (bit_vector)
        requires
            1 <= o <= 32,
    ;
}

proof fn lemma_lsr_steps(v: u32, o: u32)
    requires
        1 <= o <= 32,
    ensures
        o < 32 ==> (v >> ((o - 1) as u32)) >> 1u32 == v >> o,
        o == 32 ==> (v >> ((o - 1) as u32)) >> 1u32 == 0,
{
    assert(o < 32 ==> (v >> ((o - 1) as u32)) >> 1u32 == v >> o) by (bit_vector)
        requires
            1 <= o <= 32,
    ;
    assert(o == 32 ==> (v >> ((o - 1) as u32)) >> 1u32 == 0) by (bit_vector)
        requires
            1 <= o <= 32,
    ;
}

proof fn lemma_asr_steps(v: u32, o: u32)
    requires
        1 <= o <= 31,
    ensures
        asr_word(asr_word(v, (o - 1) as u32), 1) == asr_word(v, o),
        asr_word(v, (o - 1) as u32) & 1 == (v >> ((o - 1) as u32)) & 1,
        asr_word(v, (o - 1) as u32) < 0x8000_0000 <==> v < 0x8000_0000,
        v >= 0x8000_0000 ==> asr_word(v, 31) == 0xffff_ffff,
        v < 0x8000_0000 ==> asr_word(v, 31) == 0,
{
    let p = (o - 1) as u32;
    if v < 0x8000_0000 {
        assert((v >> p) < 0x8000_0000) by (bit_vector)
            requires
                v < 0x8000_0000,
        ;
        assert((v >> p) >> 1u32 == v >> o) by (bit_vector)
            requires
                1 <= o <= 31,
                p == o - 1,
        ;
        assert(v >> 31u32 == 0) by (bit_vector)
            requires
                v < 0x8000_0000,
        ;
    } else {
        assert(!((!v) >> p) >= 0x8000_0000) by (bit_vector)
            requires
                v >= 0x8000_0000,
        ;
        assert(!((!(!((!v) >> p))) >> 1u32) == !((!v) >> o)) by (bit_vector)
            requires
                1 <= o <= 31,
                p == o - 1,
        ;
        assert((!((!v) >> p)) & 1 == (v >> p) & 1) by (bit_vector)
            requires
                p <= 30,
        ;
        assert(!((!v) >> 31u32) == 0xffff_ffff) by (bit_vector)
            requires
                v >= 0x8000_0000,
        ;
    }
}

proof fn lemma_rotr_steps(v: u32, o: u32)
    requires
        1 <= o <= 255,
    ensures
        rotr(v, ((o - 1) % 32) as u32) & 1 == (v >> (((o - 1) % 32) as u32)) & 1,
        rotr(rotr(v, ((o - 1) % 32) as u32), 1) == rotr(v, o % 32),
{
    let p = ((o - 1) % 32) as u32;
    let q = (o % 32) as u32;
    assert(q == (if p == 31 { 0 } else { p + 1 }));
    if p == 0 {
        assert(((v >> 1u32) | (v << 31u32)) == rotr(v, 1));
        assert(v >> 0u32 == v) by (bit_vector);
    } else {
        assert(((v >> p) | (v << ((32 - p) as u32))) & 1 == (v >> p) & 1) by (bit_vector)
            requires
                1 <= p <= 31,
        ;
        let w = (v >> p) | (v << ((32 - p) as u32));
        if p == 31 {
            assert((w >> 1u32) | (w << 31u32) == v) by (bit_vector)
                requires
                    p == 31,
                    w == (v >> p) | (v << ((32 - p) as u32)),
            ;
        } else {
            assert((w >> 1u32) | (w << 31u32) == (v >> ((p + 1) as u32)) | (v << ((32 - (p + 1)) as u32)))
                by (bit_vector)
                requires
                    1 <= p <= 30,
                    w == (v >> p) | (v << ((32 - p) as u32)),
            ;
        }
    }
}

impl StatusRegister {
    pub fn set_nz_from_word(&mut self, result: u32)
        ensures
            *final(self) == nz_word(*old(self), result),
    {
        self.zero = result == 0;
        self.signed = result >= 0x8000_0000;
    }

    pub fn set_nz_from_dword(&mut self, result: u64)
        ensures
            *final(self) == nz_dword(*old(self), result),
    {
        self.zero = result == 0;
        self.signed = result >= 0x8000_0000_0000_0000;
    }
}

/// The V flag of `a + b + carry`, computed with 64-bit signed arithmetic.
fn add_overflow_exec(a: u32, b: u32, carry: bool) -> (r: bool)
    ensures
        r == add_overflow(a, b, carry),
{
    let sa: i64 = if a >= 0x8000_0000 {
        a as i64 - 0x1_0000_0000
    } else {
        a as i64
    };
    let sb: i64 = if b >= 0x8000_0000 {
        b as i64 - 0x1_0000_0000
    } else {
        b as i64
    };
    let ab: i64 = sa + sb;
    let first = ab < -0x8000_0000 || ab > 0x7fff_ffff;
    let wrapped: i64 = if ab > 0x7fff_ffff {
        ab - 0x1_0000_0000
    } else if ab < -0x8000_0000 {
        ab + 0x1_0000_0000
    } else {
        ab
    };
    first || (carry && wrapped + 1 > 0x7fff_ffff)
}

/// Adds `a + b + carry`, setting N, Z, C and V from the sum when `update_cond`.
pub fn op_add_impl(cpu: &mut Cpu, update_cond: bool, a: u32, b: u32, carry: bool) -> (r: u32)
    ensures
        r == add_result(a, b, carry),
        final(cpu)@ == old(cpu)@.with_cpsr(
            if update_cond {
                add_flags(old(cpu)@.cpsr(), a, b, carry)
            } else {
                old(cpu)@.cpsr()
            },
        ),
{
    let c: u64 = if carry { 1 } else { 0 };
    let sum: u64 = a as u64 + b as u64 + c;
    let result: u32 = if sum > 0xffff_ffff {
        (sum - 0x1_0000_0000) as u32
    } else {
        sum as u32
    };
    if update_cond {
        let mut cpsr = cpu.reg.cpsr;
        cpsr.overflow = add_overflow_exec(a, b, carry);
        cpsr.carry = sum > 0xffff_ffff;
        cpsr.set_nz_from_word(result);
        cpu.reg.cpsr = cpsr;
    }
    result
}

impl Cpu {
    pub fn op_add(&mut self, update_cond: bool, a: u32, b: u32) -> (r: u32)
        ensures
            r == add_result(a, b, false),
            final(self)@ == old(self)@.with_cpsr(
                if update_cond {
                    add_flags(old(self)@.cpsr(), a, b, false)
                } else {
                    old(self)@.cpsr()
                },
            ),
    {
        op_add_impl(self, update_cond, a, b, false)
    }

    /// `a - b`, computed as `a + !b + 1` (so C is set when there is no borrow).
    pub fn op_sub(&mut self, update_cond: bool, a: u32, b: u32) -> (r: u32)
        ensures
            r == add_result(a, !b, true),
            final(self)@ == old(self)@.with_cpsr(
                if update_cond {
                    add_flags(old(self)@.cpsr(), a, !b, true)
                } else {
                    old(self)@.cpsr()
                },
            ),
    {
        op_add_impl(self, update_cond, a, !b, true)
    }

    pub fn op_adc(&mut self, update_cond: bool, a: u32, b: u32) -> (r: u32)
        ensures
            r == add_result(a, b, old(self)@.cpsr().carry),
            final(self)@ == old(self)@.with_cpsr(
                if update_cond {
                    add_flags(old(self)@.cpsr(), a, b, old(self)@.cpsr().carry)
                } else {
                    old(self)@.cpsr()
                },
            ),
    {
        let c = self.reg.cpsr.carry;
        op_add_impl(self, update_cond, a, b, c)
    }

    /// `a - b - !carry`, computed as `a + !b + carry`.
    pub fn op_sbc(&mut self, update_cond: bool, a: u32, b: u32) -> (r: u32)
        ensures
            r == add_result(a, !b, old(self)@.cpsr().carry),
            final(self)@ == old(self)@.with_cpsr(
                if update_cond {
                    add_flags(old(self)@.cpsr(), a, !b, old(self)@.cpsr().carry)
                } else {
                    old(self)@.cpsr()
                },
            ),
    {
        let c = self.reg.cpsr.carry;
        op_add_impl(self, update_cond, a, !b, c)
    }

    pub fn op_mla(&mut self, update_cond: bool, a: u32, b: u32, accum: u32) -> (r: u32)
        ensures
            r == a.wrapping_mul(b).wrapping_add(accum),
            final(self)@ == old(self)@.with_cpsr(logical(old(self)@.cpsr(), update_cond, r)),
    {
        let result = a.wrapping_mul(b).wrapping_add(accum);
        if update_cond {
            self.reg.cpsr.set_nz_from_word(result);
        }
        result
    }

    pub fn op_smlal(&mut self, update_cond: bool, a: i32, b: i32, accum: i64) -> (r: u64)
        ensures
            r == ((a as i64).wrapping_mul(b as i64).wrapping_add(accum)) as u64,
            final(self)@ == old(self)@.with_cpsr(
                if update_cond {
                    nz_dword(old(self)@.cpsr(), r)
                } else {
                    old(self)@.cpsr()
                },
            ),
    {
        let result = ((a as i64).wrapping_mul(b as i64).wrapping_add(accum)) as u64;
        if update_cond {
            self.reg.cpsr.set_nz_from_dword(result);
        }
        result
    }

    pub fn op_umlal(&mut self, update_cond: bool, a: u32, b: u32, accum: u64) -> (r: u64)
        ensures
            r == (a as u64).wrapping_mul(b as u64).wrapping_add(accum),
            final(self)@ == old(self)@.with_cpsr(
                if update_cond {
                    nz_dword(old(self)@.cpsr(), r)
                } else {
                    old(self)@.cpsr()
                },
            ),
    {
        let result = (a as u64).wrapping_mul(b as u64).wrapping_add(accum);
        if update_cond {
            self.reg.cpsr.set_nz_from_dword(result);
        }
        result
    }

    pub fn op_mov(&mut self, update_cond: bool, value: u32) -> (r: u32)
        ensures
            r == value,
            final(self)@ == old(self)@.with_cpsr(logical(old(self)@.cpsr(), update_cond, r)),
    {
        if update_cond {
            self.reg.cpsr.set_nz_from_word(value);
        }
        value
    }

    pub fn op_and(&mut self, update_cond: bool, a: u32, b: u32) -> (r: u32)
        ensures
            r == a & b,
            final(self)@ == old(self)@.with_cpsr(logical(old(self)@.cpsr(), update_cond, r)),
    {
        let result = a & b;
        if update_cond {
            self.reg.cpsr.set_nz_from_word(result);
        }
        result
    }

    pub fn op_bic(&mut self, update_cond: bool, a: u32, b: u32) -> (r: u32)
        ensures
            r == a & !b,
            final(self)@ == old(self)@.with_cpsr(logical(old(self)@.cpsr(), update_cond, r)),
    {
        let result = a & !b;
        if update_cond {
            self.reg.cpsr.set_nz_from_word(result);
        }
        result
    }

    pub fn op_eor(&mut self, update_cond: bool, a: u32, b: u32) -> (r: u32)
        ensures
            r == a ^ b,
            final(self)@ == old(self)@.with_cpsr(logical(old(self)@.cpsr(), update_cond, r)),
    {
        let result = a ^ b;
        if update_cond {
            self.reg.cpsr.set_nz_from_word(result);
        }
        result
    }

    pub fn op_orr(&mut self, update_cond: bool, a: u32, b: u32) -> (r: u32)
        ensures
            r == a | b,
            final(self)@ == old(self)@.with_cpsr(logical(old(self)@.cpsr(), update_cond, r)),
    {
        let result = a | b;
        if update_cond {
            self.reg.cpsr.set_nz_from_word(result);
        }
        result
    }

    pub fn op_mvn(&mut self, update_cond: bool, value: u32) -> (r: u32)
        ensures
            r == !value,
            final(self)@ == old(self)@.with_cpsr(logical(old(self)@.cpsr(), update_cond, r)),
    {
        let result = !value;
        if update_cond {
            self.reg.cpsr.set_nz_from_word(result);
        }
        result
    }

    pub fn op_lsl(&mut self, update_cond: bool, value: u32, offset: u8) -> (r: u32)
        ensures
            (final(self)@.cpsr(), r) == lsl(old(self)@.cpsr(), update_cond, value, offset),
            final(self)@ == old(self)@.with_cpsr(final(self)@.cpsr()),
    {
        let mut result = value;
        if offset > 0 {
            proof {
                if offset <= 32 {
                    lemma_lsl_steps(value, offset as u32);
                }
            }
            let p: u32 = offset as u32 - 1;
            result = if offset <= 32 {
                value << p
            } else {
                0
            };
            if update_cond {
                self.reg.cpsr.carry = (result >> 31u32) & 1 == 1;
            }
            result = result << 1u32;
        }
        if update_cond {
            self.reg.cpsr.set_nz_from_word(result);
        }
        proof {
            assert(0u32 >> 31u32 == 0 && 0u32 & 1 == 0 && 0u32 << 1u32 == 0) by (bit_vector);
        }
        result
    }

    pub fn op_lsr(&mut self, update_cond: bool, special_zero_offset: bool, value: u32, offset: u8) -> (r: u32)
        ensures
            (final(self)@.cpsr(), r) == lsr(
                old(self)@.cpsr(),
                update_cond,
                special_zero_offset,
                value,
                offset,
            ),
            final(self)@ == old(self)@.with_cpsr(final(self)@.cpsr()),
    {
        let mut result = value;
        if offset > 0 {
            proof {
                if offset <= 32 {
                    lemma_lsr_steps(value, offset as u32);
                }
            }
            let p: u32 = offset as u32 - 1;
            result = if offset <= 32 {
                value >> p
            } else {
                0
            };
            if update_cond {
                self.reg.cpsr.carry = result & 1 == 1;
            }
            result = result >> 1u32;
        } else if special_zero_offset {
            if update_cond {
                self.reg.cpsr.carry = (result >> 31u32) & 1 == 1;
            }
            result = 0;
        }
        if update_cond {
            self.reg.cpsr.set_nz_from_word(result);
        }
        proof {
            assert(0u32 & 1 == 0 && 0u32 >> 1u32 == 0) by (bit_vector);
        }
        result
    }

    pub fn op_asr(&mut self, update_cond: bool, special_zero_offset: bool, value: u32, offset: u8) -> (r: u32)
        ensures
            (final(self)@.cpsr(), r) == asr(
                old(self)@.cpsr(),
                update_cond,
                special_zero_offset,
                value,
                offset,
            ),
            final(self)@ == old(self)@.with_cpsr(final(self)@.cpsr()),
    {
        let negative = value >= 0x8000_0000;
        let overflow_result: u32 = if negative {
            0xffff_ffff
        } else {
            0
        };
        let mut result = value;
        if offset > 0 {
            proof {
                if offset <= 31 {
                    lemma_asr_steps(value, offset as u32);
                }
                lemma_asr_steps(value, 31);
                assert(0xffff_ffffu32 & 1 == 1 && 0u32 & 1 == 0 && 0xffff_ffffu32 >> 1u32
                    == 0x7fff_ffff && !((!0xffff_ffffu32) >> 1u32) == 0xffff_ffff && 0u32 >> 1u32
                    == 0 && (!value >> 31u32 == 0 ==> value >= 0x8000_0000) && (value
                    >= 0x8000_0000) == ((value >> 31u32) & 1 == 1)) by (bit_vector);
            }
            result = if offset <= 32 {
                let p: u32 = offset as u32 - 1;
                if negative {
                    !((!value) >> p)
                } else {
                    value >> p
                }
            } else {
                overflow_result
            };
            if update_cond {
                self.reg.cpsr.carry = result & 1 == 1;
            }
            result = if result >= 0x8000_0000 {
                !((!result) >> 1u32)
            } else {
                result >> 1u32
            };
        } else if special_zero_offset {
            proof {
                assert((value >= 0x8000_0000) == ((value >> 31u32) & 1 == 1)) by (bit_vector);
            }
            if update_cond {
                self.reg.cpsr.carry = (result >> 31u32) & 1 == 1;
            }
            result = overflow_result;
        }
        if update_cond {
            self.reg.cpsr.set_nz_from_word(result);
        }
        result
    }

    pub fn op_ror(&mut self, update_cond: bool, special_zero_offset: bool, value: u32, offset: u8) -> (r: u32)
        ensures
            (final(self)@.cpsr(), r) == ror(
                old(self)@.cpsr(),
                update_cond,
                special_zero_offset,
                value,
                offset,
            ),
            final(self)@ == old(self)@.with_cpsr(final(self)@.cpsr()),
    {
        let mut result = value;
        if offset > 0 {
            proof {
                lemma_rotr_steps(value, offset as u32);
            }
            let p = ((offset - 1) % 32) as u32;
            result = if p == 0 {
                value
            } else {
                (value >> p) | (value << (32 - p))
            };
            if update_cond {
                self.reg.cpsr.carry = result & 1 == 1;
            }
            result = (result >> 1u32) | (result << 31u32);
            proof {
                assert(rotr(rotr(value, p), 1) == (rotr(value, p) >> 1u32) | (rotr(value, p)
                    << 31u32));
            }
        } else if special_zero_offset {
            let old_carry = self.reg.cpsr.carry;
            if update_cond {
                self.reg.cpsr.carry = result & 1 == 1;
            }
            result = (value >> 1u32) | (if old_carry { 0x8000_0000u32 } else { 0u32 });
        }
        if update_cond {
            self.reg.cpsr.set_nz_from_word(result);
        }
        result
    }

    pub fn op_shift_operand(
        &mut self,
        op: u8,
        update_cond: bool,
        special_zero_offset: bool,
        value: u32,
        offset: u8,
    ) -> (r: u32)
        requires
            op < 4,
        ensures
            (final(self)@.cpsr(), r) == shift_operand(
                old(self)@.cpsr(),
                op,
                update_cond,
                special_zero_offset,
                value,
                offset,
            ),
            final(self)@ == old(self)@.with_cpsr(final(self)@.cpsr()),
    {
        if op == 0 {
            self.op_lsl(update_cond, value, offset)
        } else if op == 1 {
            self.op_lsr(update_cond, special_zero_offset, value, offset)
        } else if op == 2 {
            self.op_asr(update_cond, special_zero_offset, value, offset)
        } else {
            self.op_ror(update_cond, special_zero_offset, value, offset)
        }
    }

    pub fn meets_condition(&self, cond: u8) -> (r: bool)
        requires
            cond < 16,
        ensures
            r == condition_holds(self@.cpsr(), cond),
    {
        let c = self.reg.cpsr;
        if cond == 0 {
            c.zero
        } else if cond == 1 {
            !c.zero
        } else if cond == 2 {
            c.carry
        } else if cond == 3 {
            !c.carry
        } else if cond == 4 {
            c.signed
        } else if cond == 5 {
            !c.signed
        } else if cond == 6 {
            c.overflow
        } else if cond == 7 {
            !c.overflow
        } else if cond == 8 {
            c.carry && !c.zero
        } else if cond == 9 {
            !c.carry || c.zero
        } else if cond == 10 {
            c.signed == c.overflow
        } else if cond == 11 {
            c.signed != c.overflow
        } else if cond == 12 {
            !c.zero && c.signed == c.overflow
        } else if cond == 13 {
            c.zero || c.signed != c.overflow
        } else {
            cond == 14
        }
    }
}


/// `x` rotated right by `n` bits.
pub fn rotate_right(x: u32, n: u32) -> (r: u32)
    requires
        n < 32,
    ensures
        r == rotr(x, n),
{
    if n == 0 {
        x
    } else {
        (x >> n) | (x << (32 - n))
    }
}

/// The word loaded by LDR from `addr`: the aligned word, rotated so that the addressed byte
/// comes first.
pub open spec fn ldr<B: Bus>(bus: B::V, addr: u32) -> (B::V, u32) {
    let (b, w) = word_read::<B>(bus, addr & !3u32);
    (b, rotr(w, (8 * (addr & 3u32)) as u32))
}

/// The 32-bit value of `byte`, sign-extended when `sign_extend`.
pub open spec fn extend_byte(byte: u8, sign_extend: bool) -> u32 {
    if sign_extend && byte >= 0x80 {
        (byte as u32) | 0xffff_ff00
    } else {
        byte as u32
    }
}

/// The value loaded by LDRB/LDRSB from `addr`.
pub open spec fn ldrb<B: Bus>(bus: B::V, addr: u32, sign_extend: bool) -> (B::V, u32) {
    (B::after_read(bus, addr), extend_byte(B::read_value(bus, addr), sign_extend))
}

/// The value loaded by LDRH/LDRSH from `addr`: the aligned half-word rotated so the addressed
/// byte comes first (an odd address with sign extension loads a signed byte instead).
pub open spec fn ldrh<B: Bus>(bus: B::V, addr: u32, sign_extend: bool) -> (B::V, u32) {
    if sign_extend && addr & 1 == 1 {
        ldrb::<B>(bus, addr, true)
    } else {
        let (b, h) = hword_read::<B>(bus, addr & !1u32);
        let v = rotr(h as u32, (8 * (addr & 1u32)) as u32);
        let lo = v & 0xffff;
        (b, if sign_extend && lo >= 0x8000 {
            lo | 0xffff_0000
        } else {
            v
        })
    }
}

/// The processor after jumping to `base_addr + addr_offset` and refilling the pipeline.
pub open spec fn branch<B: Bus>(cpu: CpuModel, bus: B::V, base_addr: u32, addr_offset: i32) -> (
    CpuModel,
    B::V,
) {
    reloaded::<B>(cpu.set_r(PC_INDEX as int, base_addr.wrapping_add(addr_offset as u32)), bus)
}

/// The processor after branching to `addr`, entering Thumb state when bit 0 is set and ARM
/// state otherwise.
pub open spec fn branch_exchange<B: Bus>(cpu: CpuModel, bus: B::V, addr: u32) -> (
    CpuModel,
    B::V,
) {
    let state = if addr & 1 == 1 {
        OperationState::Thumb
    } else {
        OperationState::Arm
    };
    let c1 = cpu.with_cpsr(StatusRegister { state, ..cpu.cpsr() });
    reloaded::<B>(c1.set_r(PC_INDEX as int, addr), bus)
}

/// The processor after MSR writes `value` to the flags and/or control fields of the SPSR or the
/// CPSR. The CPSR's control field is not writable in User mode; a valid mode in it switches
/// register banks.
#[verifier::opaque]
pub open spec fn msr(
    cpu: CpuModel,
    use_spsr: bool,
    write_flags: bool,
    write_control: bool,
    value: u32,
) -> CpuModel {
    if use_spsr {
        let s0 = cpu.reg.spsr_value();
        let s1 = if write_control {
            (s0 & !0xffu32) | (value & 0xff)
        } else {
            s0
        };
        let s2 = if write_flags {
            (s1 & 0x0fff_ffff) | (value & 0xf000_0000)
        } else {
            s1
        };
        cpu.with_reg(cpu.reg.with_spsr(s2))
    } else {
        let r1 = if write_control && cpu.cpsr().mode != OperationMode::User {
            match OperationMode::mode_from_bits(value) {
                Some(m) => {
                    let r = cpu.reg.changed_mode(m);
                    r.with_cpsr(r.cpsr.with_control_from(value))
                },
                None => cpu.reg.with_cpsr(cpu.cpsr().with_control_from(value)),
            }
        } else {
            cpu.reg
        };
        let r2 = if write_flags {
            r1.with_cpsr(r1.cpsr.with_flags_from(value))
        } else {
            r1
        };
        cpu.with_reg(r2)
    }
}

impl Cpu {
    pub fn op_str<B: Bus>(bus: &mut B, addr: u32, value: u32)
        requires
            old(bus).ready(),
        ensures
            final(bus).ready(),
            final(bus)@ == word_write::<B>(old(bus)@, addr & !3u32, value),
    {
        bus.write_word_aligned(addr, value);
    }

    pub fn op_strh<B: Bus>(bus: &mut B, addr: u32, value: u16)
        requires
            old(bus).ready(),
        ensures
            final(bus).ready(),
            final(bus)@ == hword_write::<B>(old(bus)@, addr & !1u32, value),
    {
        bus.write_hword_aligned(addr, value);
    }

    pub fn op_strb<B: Bus>(bus: &mut B, addr: u32, value: u8)
        requires
            old(bus).ready(),
        ensures
            final(bus).ready(),
            final(bus)@ == B::after_write(old(bus)@, addr, value),
    {
        bus.write_byte(addr, value);
    }

    pub fn op_ldr<B: Bus>(bus: &mut B, addr: u32) -> (r: u32)
        requires
            old(bus).ready(),
        ensures
            final(bus).ready(),
            (final(bus)@, r) == ldr::<B>(old(bus)@, addr),
    {
        let w = bus.read_word_aligned(addr);
        proof {
            lemma_and_le(addr, 3);
        }
        rotate_right(w, 8 * (addr & 3))
    }

    pub fn op_ldrh_or_ldsh<B: Bus>(bus: &mut B, addr: u32, sign_extend: bool) -> (r: u32)
        requires
            old(bus).ready(),
        ensures
            final(bus).ready(),
            (final(bus)@, r) == ldrh::<B>(old(bus)@, addr, sign_extend),
    {
        if sign_extend && (addr & 1) == 1 {
            return Self::op_ldrb_or_ldsb(bus, addr, true);
        }
        let h = bus.read_hword_aligned(addr);
        proof {
            lemma_and_le(addr, 1);
        }
        let result = rotate_right(h as u32, 8 * (addr & 1));
        let lo = result & 0xffff;
        if sign_extend && lo >= 0x8000 {
            lo | 0xffff_0000
        } else {
            result
        }
    }

    pub fn op_ldrb_or_ldsb<B: Bus>(bus: &mut B, addr: u32, sign_extend: bool) -> (r: u32)
        requires
            old(bus).ready(),
        ensures
            final(bus).ready(),
            (final(bus)@, r) == ldrb::<B>(old(bus)@, addr, sign_extend),
    {
        let byte = bus.read_byte(addr);
        if sign_extend && byte >= 0x80 {
            (byte as u32) | 0xffff_ff00
        } else {
            byte as u32
        }
    }

    pub fn op_branch<B: Bus>(&mut self, bus: &mut B, base_addr: u32, addr_offset: i32)
        requires
            old(bus).ready(),
        ensures
            final(bus).ready(),
            (final(self)@, final(bus)@) == branch::<B>(old(self)@, old(bus)@, base_addr, addr_offset),
    {
        self.reg.r[PC_INDEX] = base_addr.wrapping_add(addr_offset as u32);
        self.reload_pipeline(bus);
    }

    pub fn op_bx<B: Bus>(&mut self, bus: &mut B, addr: u32)
        requires
            old(bus).ready(),
        ensures
            final(bus).ready(),
            (final(self)@, final(bus)@) == branch_exchange::<B>(old(self)@, old(bus)@, addr),
    {
        self.reg.cpsr.state = if addr & 1 == 1 {
            OperationState::Thumb
        } else {
            OperationState::Arm
        };
        self.reg.r[PC_INDEX] = addr;
        proof {
            let c1 = old(self)@.with_cpsr(StatusRegister { state: self.reg.cpsr.state, ..old(self)@.cpsr() });
            assert(self@ =~= c1.set_r(PC_INDEX as int, addr));
        }
        self.reload_pipeline(bus);
    }

    pub fn op_msr(&mut self, use_spsr: bool, write_flags: bool, write_control: bool, value: u32)
        ensures
            final(self)@ == msr(old(self)@, use_spsr, write_flags, write_control, value),
    {
        reveal(msr);
        if use_spsr {
            let mut spsr = self.reg.spsr();
            if write_control {
                spsr = (spsr & !0xffu32) | (value & 0xff);
            }
            if write_flags {
                spsr = (spsr & 0x0fff_ffff) | (value & 0xf000_0000);
            }
            self.reg.set_spsr(spsr);
        } else {
            if write_control && self.reg.cpsr.mode != OperationMode::User {
                match OperationMode::from_bits(value) {
                    Some(new_mode) => {
                        self.reg.change_mode(new_mode);
                        let _ = self.reg.cpsr.set_control_from_bits(value);
                    },
                    None => {
                        let _ = self.reg.cpsr.set_control_from_bits(value);
                    },
                }
            }
            if write_flags {
                self.reg.cpsr.set_flags_from_bits(value);
            }
        }
        proof {
            assert(self@ =~= msr(old(self)@, use_spsr, write_flags, write_control, value));
        }
    }
}


/// The number of set bits among the low `n` bits of `x`.
pub open spec fn popcount(x: u16, n: nat) -> nat
    decreases n,
{
    if n == 0 {
        0
    } else {
        popcount(x, (n - 1) as nat) + (if (x >> ((n - 1) as u16)) & 1 == 1 {
            1nat
        } else {
            0nat
        })
    }
}

/// Whether register `r` is in the register list `r_list`.
pub open spec fn in_list(r_list: u16, r: int) -> bool {
    (r_list >> (r as u16)) & 1 == 1
}

/// The number of bytes a block transfer of `r_list` covers; an empty list covers 0x40 bytes.
pub open spec fn list_offset(r_list: u16) -> u32 {
    if r_list == 0 {
        0x40
    } else {
        (4 * popcount(r_list, 16)) as u32
    }
}

/// The base address after a block transfer of `r_list` (written back if asked).
pub open spec fn list_final_addr(ascend: bool, base_addr: u32, r_list: u16) -> u32 {
    if ascend {
        base_addr.wrapping_add(list_offset(r_list))
    } else {
        base_addr.wrapping_sub(list_offset(r_list))
    }
}

/// The list that is actually transferred: an empty list transfers the PC alone.
pub open spec fn effective_list(r_list: u16) -> u16 {
    if r_list == 0 {
        0x8000
    } else {
        r_list
    }
}

/// The address of the lowest-numbered register's slot. Descending transfers start from the
/// final address and proceed upwards, so the lowest register always takes the lowest address.
pub open spec fn list_start_addr(preindex: bool, ascend: bool, base_addr: u32, r_list: u16) -> u32 {
    let a = if ascend {
        base_addr
    } else {
        list_final_addr(ascend, base_addr, r_list)
    };
    if preindex != !ascend {
        a.wrapping_add(4)
    } else {
        a
    }
}

/// The addressing options of a block data transfer.
#[derive(Copy, Clone, Debug)]
pub struct BlockTransferFlags {
    pub preindex: bool,
    pub ascend: bool,
    pub load_psr_or_force_user: bool,
    pub writeback: bool,
}

/// The value STM stores for register `r`: the written-back base when the base is in the list
/// after another register, PC + 12 (ARM) or PC + 6 (Thumb) for the PC, else the register.
pub open spec fn stm_value(
    cpu: CpuModel,
    flags: BlockTransferFlags,
    r_base: int,
    r_list: u16,
    base_addr: u32,
    r: int,
) -> u32 {
    if flags.writeback && r == r_base && (r_list as u32) & ((1u32 << (r_base as u32)) - 1) as u32
        != 0 {
        list_final_addr(flags.ascend, base_addr, r_list)
    } else if r == PC_INDEX {
        cpu.r(PC_INDEX as int).wrapping_add(cpu.cpsr().state.size())
    } else {
        cpu.r(r)
    }
}

/// The bus after STM stores the registers `r..16` of the effective list, the next at `addr`.
pub open spec fn stm_from<B: Bus>(
    cpu: CpuModel,
    bus: B::V,
    flags: BlockTransferFlags,
    r_base: int,
    r_list: u16,
    base_addr: u32,
    r: int,
    addr: u32,
) -> B::V
    decreases 16 - r,
{
    if r >= 16 || r < 0 {
        bus
    } else if in_list(effective_list(r_list), r) {
        let b1 = word_write::<B>(
            bus,
            addr & !3u32,
            stm_value(cpu, flags, r_base, r_list, base_addr, r),
        );
        stm_from::<B>(cpu, b1, flags, r_base, r_list, base_addr, r + 1, addr.wrapping_add(4))
    } else {
        stm_from::<B>(cpu, bus, flags, r_base, r_list, base_addr, r + 1, addr)
    }
}

/// STM: stores the listed registers (of the User bank when forced), then writes back the
/// base if asked.
#[verifier::opaque]
pub open spec fn stm<B: Bus>(
    cpu: CpuModel,
    bus: B::V,
    flags: BlockTransferFlags,
    r_base: int,
    r_list: u16,
) -> (CpuModel, B::V) {
    let base_addr = cpu.r(r_base);
    let saved_mode = cpu.cpsr().mode;
    let c1 = if flags.load_psr_or_force_user {
        cpu.with_reg(cpu.reg.changed_mode(OperationMode::User))
    } else {
        cpu
    };
    let b1 = stm_from::<B>(
        c1,
        bus,
        flags,
        r_base,
        r_list,
        base_addr,
        0,
        list_start_addr(flags.preindex, flags.ascend, base_addr, r_list),
    );
    let c2 = if flags.load_psr_or_force_user {
        c1.with_reg(c1.reg.changed_mode(saved_mode))
    } else {
        c1
    };
    let c3 = if flags.writeback {
        c2.set_r(r_base, list_final_addr(flags.ascend, base_addr, r_list))
    } else {
        c2
    };
    (c3, b1)
}

/// The processor and bus after LDM loads the registers `r..16` of `list`, the next from
/// `addr`; loading the PC refills the pipeline.
#[verifier::opaque]
pub open spec fn ldm_from<B: Bus>(cpu: CpuModel, bus: B::V, list: u16, r: int, addr: u32) -> (
    CpuModel,
    B::V,
)
    decreases 16 - r,
{
    if r >= 16 || r < 0 {
        (cpu, bus)
    } else if in_list(list, r) {
        let (b1, w) = word_read::<B>(bus, addr & !3u32);
        let c1 = cpu.set_r(r, w);
        let (c2, b2) = if r == PC_INDEX {
            reloaded::<B>(c1, b1)
        } else {
            (c1, b1)
        };
        ldm_from::<B>(c2, b2, list, r + 1, addr.wrapping_add(4))
    } else {
        ldm_from::<B>(cpu, bus, list, r + 1, addr)
    }
}

/// LDM: loads the listed registers. With the S bit, loading the PC also restores the CPSR from
/// the SPSR; otherwise the User bank is loaded. The base is written back if asked and not
/// loaded itself.
#[verifier::opaque]
pub open spec fn ldm<B: Bus>(
    cpu: CpuModel,
    bus: B::V,
    flags: BlockTransferFlags,
    r_base: int,
    r_list: u16,
) -> (CpuModel, B::V) {
    let base_addr = cpu.r(r_base);
    let saved_mode = cpu.cpsr().mode;
    let load_psr = flags.load_psr_or_force_user && in_list(r_list, PC_INDEX as int);
    let c1 = if load_psr {
        msr(cpu, false, true, true, cpu.reg.spsr_value())
    } else if flags.load_psr_or_force_user {
        cpu.with_reg(cpu.reg.changed_mode(OperationMode::User))
    } else {
        cpu
    };
    let (c2, b2) = ldm_from::<B>(
        c1,
        bus,
        effective_list(r_list),
        0,
        list_start_addr(flags.preindex, flags.ascend, base_addr, r_list),
    );
    let c3 = if flags.load_psr_or_force_user && !load_psr {
        c2.with_reg(c2.reg.changed_mode(saved_mode))
    } else {
        c2
    };
    let c4 = if flags.writeback && !in_list(r_list, r_base) {
        c3.set_r(r_base, list_final_addr(flags.ascend, base_addr, r_list))
    } else {
        c3
    };
    (c4, b2)
}

/// The number of set bits of `x`.
pub fn count_ones(x: u16) -> (r: u32)
    ensures
        r == popcount(x, 16),
        r <= 16,
{
    let mut count: u32 = 0;
    let mut i: u16 = 0;
    while i < 16
        invariant
            i <= 16,
            count == popcount(x, i as nat),
            count <= i,
        decreases 16 - i,
    {
        if (x >> i) & 1 == 1 {
            count = count + 1;
        }
        i = i + 1;
    }
    count
}

pub fn r_list_final_addr(ascend: bool, base_addr: u32, r_list: u16) -> (r: u32)
    ensures
        r == list_final_addr(ascend, base_addr, r_list),
{
    let offset = if r_list == 0 {
        0x40
    } else {
        4 * count_ones(r_list)
    };
    if ascend {
        base_addr.wrapping_add(offset)
    } else {
        base_addr.wrapping_sub(offset)
    }
}

fn r_list_start_addr(preindex: bool, ascend: bool, base_addr: u32, r_list: u16) -> (r: u32)
    ensures
        r == list_start_addr(preindex, ascend, base_addr, r_list),
{
    let final_addr = r_list_final_addr(ascend, base_addr, r_list);
    let addr = if ascend {
        base_addr
    } else {
        final_addr
    };
    if preindex != !ascend {
        addr.wrapping_add(4)
    } else {
        addr
    }
}

impl Cpu {
    pub fn op_stm<B: Bus>(
        &mut self,
        bus: &mut B,
        flags: &BlockTransferFlags,
        r_base_addr: usize,
        r_list: u16,
    )
        requires
            old(bus).ready(),
            r_base_addr < 16,
        ensures
            final(bus).ready(),
            (final(self)@, final(bus)@) == stm::<B>(
                old(self)@,
                old(bus)@,
                *flags,
                r_base_addr as int,
                r_list,
            ),
    {
        reveal(stm);
        let base_addr = self.reg.r[r_base_addr];
        let saved_mode = self.reg.cpsr.mode;
        if flags.load_psr_or_force_user {
            self.reg.change_mode(OperationMode::User);
        }
        let ghost c1 = self@;
        let list = if r_list == 0 {
            0x8000u16
        } else {
            r_list
        };
        let final_addr = r_list_final_addr(flags.ascend, base_addr, r_list);
        let mut addr = r_list_start_addr(flags.preindex, flags.ascend, base_addr, r_list);
        proof {
            let n = r_base_addr as u32;
            assert(1u32 << n >= 1) by (bit_vector)
                requires
                    n < 16,
            ;
        }
        let below_base = (r_list as u32) & ((1u32 << (r_base_addr as u32)) - 1);
        let mut r: usize = 0;
        while r < 16
            invariant
                bus.ready(),
                r <= 16,
                r_base_addr < 16,
                self@ == c1,
                list == effective_list(r_list),
                final_addr == list_final_addr(flags.ascend, base_addr, r_list),
                below_base == (r_list as u32) & (((1u32 << (r_base_addr as u32)) - 1) as u32),
                stm_from::<B>(c1, bus@, *flags, r_base_addr as int, r_list, base_addr, r as int, addr)
                    == stm_from::<B>(
                    c1,
                    old(bus)@,
                    *flags,
                    r_base_addr as int,
                    r_list,
                    base_addr,
                    0,
                    list_start_addr(flags.preindex, flags.ascend, base_addr, r_list),
                ),
            decreases 16 - r,
        {
            if (list >> (r as u16)) & 1 == 1 {
                let value = if flags.writeback && r == r_base_addr && below_base != 0 {
                    final_addr
                } else if r == PC_INDEX {
                    self.reg.r[PC_INDEX].wrapping_add(self.reg.cpsr.state.instr_size())
                } else {
                    self.reg.r[r]
                };
                bus.write_word_aligned(addr, value);
                addr = addr.wrapping_add(4);
            }
            r = r + 1;
        }
        if flags.load_psr_or_force_user {
            self.reg.change_mode(saved_mode);
        }
        if flags.writeback {
            self.reg.r[r_base_addr] = final_addr;
        }
    }

    /// Loads the registers of `list` from consecutive words starting at `start_addr`.
    fn ldm_loop<B: Bus>(&mut self, bus: &mut B, list: u16, start_addr: u32)
        requires
            old(bus).ready(),
        ensures
            final(bus).ready(),
            (final(self)@, final(bus)@) == ldm_from::<B>(old(self)@, old(bus)@, list, 0, start_addr),
    {
        reveal(ldm_from);
        let mut addr = start_addr;
        let mut r: usize = 0;
        while r < 16
            invariant
                bus.ready(),
                r <= 16,
                ldm_from::<B>(self@, bus@, list, r as int, addr) == ldm_from::<B>(
                    old(self)@,
                    old(bus)@,
                    list,
                    0,
                    start_addr,
                ),
            decreases 16 - r,
        {
            let ghost c_before = self@;
            let ghost b_before = bus@;
            let ghost addr_before = addr;
            if (list >> (r as u16)) & 1 == 1 {
                let w = bus.read_word_aligned(addr);
                self.reg.r[r] = w;
                assert(self@ =~= c_before.set_r(r as int, w));
                if r == PC_INDEX {
                    self.reload_pipeline(bus);
                }
                addr = addr.wrapping_add(4);
            }
            proof {
                reveal(ldm_from);
                assert(ldm_from::<B>(c_before, b_before, list, r as int, addr_before)
                    == ldm_from::<B>(self@, bus@, list, r + 1, addr));
            }
            r = r + 1;
        }
    }

    /// Before LDM transfers: with the S bit, either restores the CPSR from the SPSR (when the PC
    /// is loaded) or switches to the User bank. Returns whether the CPSR was restored.
    fn ldm_prologue(&mut self, flags: &BlockTransferFlags, r_list: u16) -> (r: bool)
        ensures
            r == (flags.load_psr_or_force_user && in_list(r_list, PC_INDEX as int)),
            final(self)@ == (if r {
                msr(old(self)@, false, true, true, old(self)@.reg.spsr_value())
            } else if flags.load_psr_or_force_user {
                old(self)@.with_reg(old(self)@.reg.changed_mode(OperationMode::User))
            } else {
                old(self)@
            }),
    {
        let load_psr = flags.load_psr_or_force_user && (r_list >> 15u16) & 1 == 1;
        if load_psr {
            let spsr = self.reg.spsr();
            self.op_msr(false, true, true, spsr);
        } else if flags.load_psr_or_force_user {
            self.reg.change_mode(OperationMode::User);
        }
        load_psr
    }

    #[verifier::rlimit(80)]
    pub fn op_ldm<B: Bus>(
        &mut self,
        bus: &mut B,
        flags: &BlockTransferFlags,
        r_base_addr: usize,
        r_list: u16,
    )
        requires
            old(bus).ready(),
            r_base_addr < 16,
        ensures
            final(bus).ready(),
            (final(self)@, final(bus)@) == ldm::<B>(
                old(self)@,
                old(bus)@,
                *flags,
                r_base_addr as int,
                r_list,
            ),
    {
        reveal(ldm);
        let base_addr = self.reg.r[r_base_addr];
        let saved_mode = self.reg.cpsr.mode;
        let load_psr = self.ldm_prologue(flags, r_list);
        let list = if r_list == 0 {
            0x8000u16
        } else {
            r_list
        };
        let final_addr = r_list_final_addr(flags.ascend, base_addr, r_list);
        let addr = r_list_start_addr(flags.preindex, flags.ascend, base_addr, r_list);
        self.ldm_loop(bus, list, addr);
        if flags.load_psr_or_force_user && !load_psr {
            self.reg.change_mode(saved_mode);
        }
        if flags.writeback && !((r_list >> (r_base_addr as u16)) & 1 == 1) {
            self.reg.r[r_base_addr] = final_addr;
        }
    }
}

} // verus!
