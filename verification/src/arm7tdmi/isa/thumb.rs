use vstd::prelude::*;

use crate::arm7tdmi::reg::{OperationState, StatusRegister, LR_INDEX, PC_INDEX, SP_INDEX};
use crate::arm7tdmi::{entered_exception, reloaded, Cpu, CpuModel, Exception};
use crate::bus::{hword_write, word_write, Bus};

use super::{lemma_and_le16, 
    add_flags, add_result, asr, branch, branch_exchange, condition_holds, ldm, ldr, ldrb, ldrh,
    logical, lsl, lsr, ror, stm, BlockTransferFlags,
};

verus! {

/// The low register (R0-R7) held in the 3 bits of `instr` starting at bit `pos`.
pub open spec fn low_reg(instr: u16, pos: u16) -> int {
    ((instr >> pos) & 7) as int
}

/// Whether bit `i` of `instr` is set.
pub open spec fn hflag(instr: u16, i: u16) -> bool {
    (instr >> i) & 1 == 1
}

fn r_low(instr: u16, pos: u16) -> (r: usize)
    requires
        pos < 16,
    ensures
        r as int == low_reg(instr, pos),
        r < 8,
{
    proof {
        lemma_and_le16(instr >> pos, 7);
    }
    ((instr >> pos) & 7) as usize
}

fn bit(instr: u16, i: u16) -> (r: bool)
    requires
        i < 16,
    ensures
        r == hflag(instr, i),
{
    (instr >> i) & 1 == 1
}

/// Format 1, move shifted register: LSL, LSR or ASR by a 5-bit immediate, setting the flags.
pub open spec fn thumb_shift(cpu: CpuModel, instr: u16) -> CpuModel {
    let value = cpu.r(low_reg(instr, 3));
    let offset = ((instr >> 6u16) & 0x1f) as u8;
    let op = (instr >> 11u16) & 3;
    let (c, v) = if op == 0 {
        lsl(cpu.cpsr(), true, value, offset)
    } else if op == 1 {
        lsr(cpu.cpsr(), true, true, value, offset)
    } else {
        asr(cpu.cpsr(), true, true, value, offset)
    };
    cpu.with_cpsr(c).set_r(low_reg(instr, 0), v)
}

/// Format 2, add or subtract a register or a 3-bit immediate, setting the flags.
pub open spec fn thumb_add_sub(cpu: CpuModel, instr: u16) -> CpuModel {
    let value1 = cpu.r(low_reg(instr, 3));
    let rn = low_reg(instr, 6);
    let op = (instr >> 9u16) & 3;
    let operand: u32 = if op < 2 {
        cpu.r(rn)
    } else {
        rn as u32
    };
    let subtract = op == 1 || op == 3;
    let b = if subtract {
        !operand
    } else {
        operand
    };
    cpu.with_cpsr(add_flags(cpu.cpsr(), value1, b, subtract)).set_r(
        low_reg(instr, 0),
        add_result(value1, b, subtract),
    )
}

/// Format 3, MOV, CMP, ADD or SUB with an 8-bit immediate, setting the flags.
pub open spec fn thumb_immediate(cpu: CpuModel, instr: u16) -> CpuModel {
    let value = (instr & 0xff) as u32;
    let rd = low_reg(instr, 8);
    let d = cpu.r(rd);
    let op = (instr >> 11u16) & 3;
    if op == 0 {
        cpu.with_cpsr(logical(cpu.cpsr(), true, value)).set_r(rd, value)
    } else if op == 1 {
        cpu.with_cpsr(add_flags(cpu.cpsr(), d, !value, true))
    } else if op == 2 {
        cpu.with_cpsr(add_flags(cpu.cpsr(), d, value, false)).set_r(rd, add_result(d, value, false))
    } else {
        cpu.with_cpsr(add_flags(cpu.cpsr(), d, !value, true)).set_r(rd, add_result(d, !value, true))
    }
}

/// The flags and result of format 4 ALU opcode `op` on Rd's value `d` and Rs's value `value`;
/// `None` for TST, CMP and CMN, which write no register. Shifts and rotates use the low byte
/// of `value` as their amount.
pub open spec fn thumb_alu(cpsr: StatusRegister, op: u16, d: u32, value: u32) -> (
    StatusRegister,
    Option<u32>,
) {
    let offset = (value & 0xff) as u8;
    if op == 0 {
        (logical(cpsr, true, d & value), Some(d & value))
    } else if op == 1 {
        (logical(cpsr, true, d ^ value), Some(d ^ value))
    } else if op == 2 {
        let (c, v) = lsl(cpsr, true, d, offset);
        (c, Some(v))
    } else if op == 3 {
        let (c, v) = lsr(cpsr, true, false, d, offset);
        (c, Some(v))
    } else if op == 4 {
        let (c, v) = asr(cpsr, true, false, d, offset);
        (c, Some(v))
    } else if op == 5 {
        (add_flags(cpsr, d, value, cpsr.carry), Some(add_result(d, value, cpsr.carry)))
    } else if op == 6 {
        (add_flags(cpsr, d, !value, cpsr.carry), Some(add_result(d, !value, cpsr.carry)))
    } else if op == 7 {
        let (c, v) = ror(cpsr, true, false, d, offset);
        (c, Some(v))
    } else if op == 8 {
        (logical(cpsr, true, d & value), None)
    } else if op == 9 {
        (add_flags(cpsr, 0, !value, true), Some(add_result(0, !value, true)))
    } else if op == 10 {
        (add_flags(cpsr, d, !value, true), None)
    } else if op == 11 {
        (add_flags(cpsr, d, value, false), None)
    } else if op == 12 {
        (logical(cpsr, true, d | value), Some(d | value))
    } else if op == 13 {
        let v = d.wrapping_mul(value).wrapping_add(0);
        (logical(cpsr, true, v), Some(v))
    } else if op == 14 {
        (logical(cpsr, true, d & !value), Some(d & !value))
    } else {
        (logical(cpsr, true, !value), Some(!value))
    }
}

/// Format 4, ALU operations between two low registers.
pub open spec fn thumb_alu_op(cpu: CpuModel, instr: u16) -> CpuModel {
    let rd = low_reg(instr, 0);
    let (c, result) = thumb_alu(cpu.cpsr(), (instr >> 6u16) & 0xf, cpu.r(rd), cpu.r(low_reg(instr, 3)));
    match result {
        Some(v) => cpu.with_cpsr(c).set_r(rd, v),
        None => cpu.with_cpsr(c),
    }
}

/// The register (R0-R15) given by a 3-bit field at `pos` and the high bit `hi`.
pub open spec fn hi_reg(instr: u16, pos: u16, hi: u16) -> int {
    low_reg(instr, pos) + if hflag(instr, hi) {
        8int
    } else {
        0int
    }
}

/// Format 5, ADD, CMP and MOV on any registers (only CMP sets the flags), and BX. Writing the
/// PC refills the pipeline.
pub open spec fn thumb_hi_reg<B: Bus>(cpu: CpuModel, bus: B::V, instr: u16) -> (CpuModel, B::V) {
    let value = cpu.r(hi_reg(instr, 3, 6));
    let op = (instr >> 8u16) & 3;
    if op == 3 {
        branch_exchange::<B>(cpu, bus, value)
    } else {
        let rd = hi_reg(instr, 0, 7);
        let c1 = if op == 0 {
            cpu.set_r(rd, add_result(cpu.r(rd), value, false))
        } else if op == 1 {
            cpu.with_cpsr(add_flags(cpu.cpsr(), cpu.r(rd), !value, true))
        } else {
            cpu.set_r(rd, value)
        };
        if op != 1 && rd == PC_INDEX {
            reloaded::<B>(c1, bus)
        } else {
            (c1, bus)
        }
    }
}

/// Format 6, LDR relative to the PC with an 8-bit word offset.
pub open spec fn thumb_load_pc_relative<B: Bus>(cpu: CpuModel, bus: B::V, instr: u16) -> (
    CpuModel,
    B::V,
) {
    let addr = cpu.r(PC_INDEX as int).wrapping_add((((instr & 0xff) as u32) * 4) as u32);
    let (b, v) = ldr::<B>(bus, addr);
    (cpu.set_r(low_reg(instr, 8), v), b)
}

/// Formats 7 and 8, loads and stores with a register offset: STR, STRB, LDR, LDRB, or (with
/// bit 9 set) STRH, LDSB, LDRH, LDSH.
pub open spec fn thumb_reg_offset<B: Bus>(cpu: CpuModel, bus: B::V, instr: u16) -> (
    CpuModel,
    B::V,
) {
    let r = low_reg(instr, 0);
    let addr = cpu.r(low_reg(instr, 3)).wrapping_add(cpu.r(low_reg(instr, 6)));
    let op = (instr >> 10u16) & 3;
    if hflag(instr, 9) {
        if op == 0 {
            (cpu, hword_write::<B>(bus, addr & !1u32, (cpu.r(r) & 0xffff) as u16))
        } else {
            let (b, v) = if op == 1 {
                ldrb::<B>(bus, addr, true)
            } else {
                ldrh::<B>(bus, addr, op == 3)
            };
            (cpu.set_r(r, v), b)
        }
    } else {
        if op == 0 {
            (cpu, word_write::<B>(bus, addr & !3u32, cpu.r(r)))
        } else if op == 1 {
            (cpu, B::after_write(bus, addr, (cpu.r(r) & 0xff) as u8))
        } else {
            let (b, v) = if op == 2 {
                ldr::<B>(bus, addr)
            } else {
                ldrb::<B>(bus, addr, false)
            };
            (cpu.set_r(r, v), b)
        }
    }
}

/// Format 9, loads and stores with a 5-bit immediate offset, counted in words for STR and LDR
/// and in bytes for STRB and LDRB.
pub open spec fn thumb_imm_offset<B: Bus>(cpu: CpuModel, bus: B::V, instr: u16) -> (
    CpuModel,
    B::V,
) {
    let r = low_reg(instr, 0);
    let base_addr = cpu.r(low_reg(instr, 3));
    let offset = ((instr >> 6u16) & 0x1f) as u32;
    let addr = base_addr.wrapping_add(offset);
    let word_addr = base_addr.wrapping_add((offset * 4) as u32);
    let op = (instr >> 11u16) & 3;
    if op == 0 {
        (cpu, word_write::<B>(bus, word_addr & !3u32, cpu.r(r)))
    } else if op == 1 {
        let (b, v) = ldr::<B>(bus, word_addr);
        (cpu.set_r(r, v), b)
    } else if op == 2 {
        (cpu, B::after_write(bus, addr, (cpu.r(r) & 0xff) as u8))
    } else {
        let (b, v) = ldrb::<B>(bus, addr, false);
        (cpu.set_r(r, v), b)
    }
}

/// Format 10, LDRH and STRH with a 5-bit half-word offset.
pub open spec fn thumb_hword<B: Bus>(cpu: CpuModel, bus: B::V, instr: u16) -> (CpuModel, B::V) {
    let r = low_reg(instr, 0);
    let addr = cpu.r(low_reg(instr, 3)).wrapping_add(((((instr >> 6u16) & 0x1f) as u32) * 2) as u32);
    if hflag(instr, 11) {
        let (b, v) = ldrh::<B>(bus, addr, false);
        (cpu.set_r(r, v), b)
    } else {
        (cpu, hword_write::<B>(bus, addr & !1u32, (cpu.r(r) & 0xffff) as u16))
    }
}

/// Format 11, LDR and STR relative to the SP with an 8-bit word offset.
pub open spec fn thumb_sp_relative<B: Bus>(cpu: CpuModel, bus: B::V, instr: u16) -> (
    CpuModel,
    B::V,
) {
    let addr = cpu.r(SP_INDEX as int).wrapping_add((((instr & 0xff) as u32) * 4) as u32);
    let r = low_reg(instr, 8);
    if hflag(instr, 11) {
        let (b, v) = ldr::<B>(bus, addr);
        (cpu.set_r(r, v), b)
    } else {
        (cpu, word_write::<B>(bus, addr & !3u32, cpu.r(r)))
    }
}

/// Format 12, ADD Rd, PC or SP, plus an 8-bit immediate (not counted in words).
pub open spec fn thumb_relative_addr(cpu: CpuModel, instr: u16) -> CpuModel {
    let base_addr = cpu.r(
        if hflag(instr, 11) {
            SP_INDEX as int
        } else {
            PC_INDEX as int
        },
    );
    cpu.set_r(low_reg(instr, 8), add_result(base_addr, (instr & 0xff) as u32, false))
}

/// Format 13, adds a signed 7-bit word offset to the SP.
pub open spec fn thumb_sp_offset(cpu: CpuModel, instr: u16) -> CpuModel {
    let offset = (((instr & 0x7f) as u32) * 4) as u32;
    let sp = cpu.r(SP_INDEX as int);
    cpu.set_r(
        SP_INDEX as int,
        if hflag(instr, 7) {
            add_result(sp, !offset, true)
        } else {
            add_result(sp, offset, false)
        },
    )
}

/// The register list of PUSH and POP: R0-R7 from the low byte, plus LR (PUSH) or PC (POP)
/// when bit 8 is set.
pub open spec fn push_pop_list(instr: u16) -> u16 {
    let extra: u16 = if hflag(instr, 11) {
        0x8000
    } else {
        0x4000
    };
    (instr & 0xff) | if hflag(instr, 8) {
        extra
    } else {
        0
    }
}

/// Format 14, PUSH (STMDB SP!) and POP (LDMIA SP!).
pub open spec fn thumb_push_pop<B: Bus>(cpu: CpuModel, bus: B::V, instr: u16) -> (CpuModel, B::V) {
    let pop = hflag(instr, 11);
    let flags = BlockTransferFlags {
        preindex: !pop,
        ascend: pop,
        load_psr_or_force_user: false,
        writeback: true,
    };
    if pop {
        ldm::<B>(cpu, bus, flags, SP_INDEX as int, push_pop_list(instr))
    } else {
        stm::<B>(cpu, bus, flags, SP_INDEX as int, push_pop_list(instr))
    }
}

/// Format 15, LDMIA and STMIA with write-back on a low base register.
pub open spec fn thumb_multiple<B: Bus>(cpu: CpuModel, bus: B::V, instr: u16) -> (
    CpuModel,
    B::V,
) {
    let flags = BlockTransferFlags {
        preindex: false,
        ascend: true,
        load_psr_or_force_user: false,
        writeback: true,
    };
    let r_list = (instr & 0xff) as u16;
    if hflag(instr, 11) {
        ldm::<B>(cpu, bus, flags, low_reg(instr, 8), r_list)
    } else {
        stm::<B>(cpu, bus, flags, low_reg(instr, 8), r_list)
    }
}

/// The signed value of the low byte of `v`.
pub open spec fn sign_extend8(v: u16) -> int {
    let m = (v & 0xff) as int;
    if m >= 0x80 {
        m - 0x100
    } else {
        m
    }
}

/// The signed value of the low 11 bits of `v`.
pub open spec fn sign_extend11(v: u16) -> int {
    let m = (v & 0x7ff) as int;
    if m >= 0x400 {
        m - 0x800
    } else {
        m
    }
}

/// Format 16, conditional branch by a signed 8-bit half-word offset.
pub open spec fn thumb_cond_branch<B: Bus>(cpu: CpuModel, bus: B::V, instr: u16) -> (
    CpuModel,
    B::V,
) {
    if condition_holds(cpu.cpsr(), ((instr >> 8u16) & 0xf) as u8) {
        branch::<B>(cpu, bus, cpu.r(PC_INDEX as int), (2 * sign_extend8(instr)) as i32)
    } else {
        (cpu, bus)
    }
}

/// Format 18, unconditional branch by a signed 11-bit half-word offset.
pub open spec fn thumb_branch<B: Bus>(cpu: CpuModel, bus: B::V, instr: u16) -> (CpuModel, B::V) {
    branch::<B>(cpu, bus, cpu.r(PC_INDEX as int), (2 * sign_extend11(instr)) as i32)
}

/// Format 19, the two halves of BL: the first puts PC plus the high part of the offset in LR;
/// the second branches to LR plus the low part and leaves the return address, with bit 0 set,
/// in LR.
pub open spec fn thumb_long_branch<B: Bus>(cpu: CpuModel, bus: B::V, instr: u16) -> (
    CpuModel,
    B::V,
) {
    let part = (instr & 0x7ff) as u32;
    if !hflag(instr, 11) {
        (cpu.set_r(LR_INDEX as int, cpu.r(PC_INDEX as int).wrapping_add(part << 12u32)), bus)
    } else {
        let return_addr = cpu.r(PC_INDEX as int).wrapping_sub(cpu.cpsr().state.size());
        let (c, b) = branch::<B>(cpu, bus, cpu.r(LR_INDEX as int), (part << 1u32) as i32);
        (c.set_r(LR_INDEX as int, return_addr | 1), b)
    }
}

/// The instruction formats of the Thumb instruction set, told apart by the high byte.
pub enum ThumbFormat {
    SpOffset,
    SoftwareInterrupt,
    Alu,
    HiReg,
    AddSub,
    LoadPcRelative,
    Branch,
    RegOffset,
    Hword,
    SpRelative,
    RelativeAddr,
    PushPop,
    Multiple,
    CondBranch,
    LongBranch,
    Shift,
    Immediate,
    ImmOffset,
    Undefined,
}

/// The format of `instr`; the first pattern that matches wins.
pub open spec fn thumb_format(instr: u16) -> ThumbFormat {
    let h = instr >> 8u16;
    if h == 0xb0 {
        ThumbFormat::SpOffset
    } else if h == 0xdf {
        ThumbFormat::SoftwareInterrupt
    } else if h & 0xfc == 0x40 {
        ThumbFormat::Alu
    } else if h & 0xfc == 0x44 {
        ThumbFormat::HiReg
    } else if h & 0xf8 == 0x18 {
        ThumbFormat::AddSub
    } else if h & 0xf8 == 0x48 {
        ThumbFormat::LoadPcRelative
    } else if h & 0xf8 == 0xe0 {
        ThumbFormat::Branch
    } else if h & 0xf0 == 0x50 {
        ThumbFormat::RegOffset
    } else if h & 0xf0 == 0x80 {
        ThumbFormat::Hword
    } else if h & 0xf0 == 0x90 {
        ThumbFormat::SpRelative
    } else if h & 0xf0 == 0xa0 {
        ThumbFormat::RelativeAddr
    } else if h & 0xf0 == 0xb0 {
        ThumbFormat::PushPop
    } else if h & 0xf0 == 0xc0 {
        ThumbFormat::Multiple
    } else if h & 0xf0 == 0xd0 {
        ThumbFormat::CondBranch
    } else if h & 0xf0 == 0xf0 {
        ThumbFormat::LongBranch
    } else if h & 0xe0 == 0x00 {
        ThumbFormat::Shift
    } else if h & 0xe0 == 0x20 {
        ThumbFormat::Immediate
    } else if h & 0xe0 == 0x60 {
        ThumbFormat::ImmOffset
    } else {
        ThumbFormat::Undefined
    }
}

/// Executing the Thumb instruction `instr`; the encodings of no format raise the undefined
/// instruction exception.
#[verifier::opaque]
pub open spec fn thumb_executed<B: Bus>(cpu: CpuModel, bus: B::V, instr: u16) -> (
    CpuModel,
    B::V,
) {
    match thumb_format(instr) {
        ThumbFormat::SpOffset => (thumb_sp_offset(cpu, instr), bus),
        ThumbFormat::SoftwareInterrupt => {
            let (_, c, b) = entered_exception::<B>(cpu, bus, Exception::SoftwareInterrupt);
            (c, b)
        },
        ThumbFormat::Alu => (thumb_alu_op(cpu, instr), bus),
        ThumbFormat::HiReg => thumb_hi_reg::<B>(cpu, bus, instr),
        ThumbFormat::AddSub => (thumb_add_sub(cpu, instr), bus),
        ThumbFormat::LoadPcRelative => thumb_load_pc_relative::<B>(cpu, bus, instr),
        ThumbFormat::Branch => thumb_branch::<B>(cpu, bus, instr),
        ThumbFormat::RegOffset => thumb_reg_offset::<B>(cpu, bus, instr),
        ThumbFormat::Hword => thumb_hword::<B>(cpu, bus, instr),
        ThumbFormat::SpRelative => thumb_sp_relative::<B>(cpu, bus, instr),
        ThumbFormat::RelativeAddr => (thumb_relative_addr(cpu, instr), bus),
        ThumbFormat::PushPop => thumb_push_pop::<B>(cpu, bus, instr),
        ThumbFormat::Multiple => thumb_multiple::<B>(cpu, bus, instr),
        ThumbFormat::CondBranch => thumb_cond_branch::<B>(cpu, bus, instr),
        ThumbFormat::LongBranch => thumb_long_branch::<B>(cpu, bus, instr),
        ThumbFormat::Shift => (thumb_shift(cpu, instr), bus),
        ThumbFormat::Immediate => (thumb_immediate(cpu, instr), bus),
        ThumbFormat::ImmOffset => thumb_imm_offset::<B>(cpu, bus, instr),
        ThumbFormat::Undefined => {
            let (_, c, b) = entered_exception::<B>(cpu, bus, Exception::UndefinedInstr);
            (c, b)
        },
    }
}

impl Cpu {
    /// Thumb.1: Move shifted register.
    fn execute_thumb1(&mut self, instr: u16)
        requires
            (instr >> 11u16) & 3 != 3,
        ensures
            final(self)@ == thumb_shift(old(self)@, instr),
    {
        let value = self.reg.r[r_low(instr, 3)];
        proof {
            lemma_and_le16(instr >> 6u16, 0x1f);
        }
        let offset = ((instr >> 6u16) & 0x1f) as u8;
        let op = (instr >> 11u16) & 3;
        let result = if op == 0 {
            self.op_lsl(true, value, offset)
        } else if op == 1 {
            self.op_lsr(true, true, value, offset)
        } else {
            self.op_asr(true, true, value, offset)
        };
        let ghost c1 = self@;
        self.reg.r[r_low(instr, 0)] = result;
        assert(self@ =~= c1.set_r(low_reg(instr, 0), result));
    }

    /// Thumb.2: Add or subtract.
    fn execute_thumb2(&mut self, instr: u16)
        ensures
            final(self)@ == thumb_add_sub(old(self)@, instr),
    {
        let value1 = self.reg.r[r_low(instr, 3)];
        let r = r_low(instr, 6);
        let value2 = r as u32;
        let op = (instr >> 9u16) & 3;
        proof {
            lemma_and_le16(instr >> 9u16, 3);
        }
        let result = if op == 0 {
            let v = self.reg.r[r];
            self.op_add(true, value1, v)
        } else if op == 1 {
            let v = self.reg.r[r];
            self.op_sub(true, value1, v)
        } else if op == 2 {
            self.op_add(true, value1, value2)
        } else {
            self.op_sub(true, value1, value2)
        };
        let ghost c1 = self@;
        self.reg.r[r_low(instr, 0)] = result;
        assert(self@ =~= c1.set_r(low_reg(instr, 0), result));
    }

    /// Thumb.3: Move, compare, add or subtract immediate.
    fn execute_thumb3(&mut self, instr: u16)
        ensures
            final(self)@ == thumb_immediate(old(self)@, instr),
    {
        let value = (instr & 0xff) as u32;
        let r_dst = r_low(instr, 8);
        let op = (instr >> 11u16) & 3;
        let d = self.reg.r[r_dst];
        if op == 0 {
            let v = self.op_mov(true, value);
            self.reg.r[r_dst] = v;
        } else if op == 1 {
            self.op_sub(true, d, value);
        } else if op == 2 {
            let v = self.op_add(true, d, value);
            self.reg.r[r_dst] = v;
        } else {
            let v = self.op_sub(true, d, value);
            self.reg.r[r_dst] = v;
        }
    }

    #[verifier::rlimit(50)]
    fn thumb_alu(&mut self, op: u16, d: u32, value: u32) -> (r: Option<u32>)
        requires
            op < 16,
        ensures
            (final(self)@.cpsr(), r) == thumb_alu(old(self)@.cpsr(), op, d, value),
            final(self)@ == old(self)@.with_cpsr(final(self)@.cpsr()),
    {
        let offset = (value & 0xff) as u8;
        if op == 0 {
            Some(self.op_and(true, d, value))
        } else if op == 1 {
            Some(self.op_eor(true, d, value))
        } else if op == 2 {
            Some(self.op_lsl(true, d, offset))
        } else if op == 3 {
            Some(self.op_lsr(true, false, d, offset))
        } else if op == 4 {
            Some(self.op_asr(true, false, d, offset))
        } else if op == 5 {
            Some(self.op_adc(true, d, value))
        } else if op == 6 {
            Some(self.op_sbc(true, d, value))
        } else if op == 7 {
            Some(self.op_ror(true, false, d, offset))
        } else if op == 8 {
            self.op_and(true, d, value);
            None
        } else if op == 9 {
            Some(self.op_sub(true, 0, value))
        } else if op == 10 {
            self.op_sub(true, d, value);
            None
        } else if op == 11 {
            self.op_add(true, d, value);
            None
        } else if op == 12 {
            Some(self.op_orr(true, d, value))
        } else if op == 13 {
            Some(self.op_mla(true, d, value, 0))
        } else if op == 14 {
            Some(self.op_bic(true, d, value))
        } else {
            Some(self.op_mvn(true, value))
        }
    }

    /// Thumb.4: ALU operations.
    fn execute_thumb4(&mut self, instr: u16)
        ensures
            final(self)@ == thumb_alu_op(old(self)@, instr),
    {
        let r_dst = r_low(instr, 0);
        let value = self.reg.r[r_low(instr, 3)];
        let d = self.reg.r[r_dst];
        proof {
            lemma_and_le16(instr >> 6u16, 0xf);
        }
        let result = self.thumb_alu((instr >> 6u16) & 0xf, d, value);
        match result {
            Some(v) => {
                self.reg.r[r_dst] = v;
            },
            None => {},
        }
    }

    /// Thumb.5: Hi register operations or branch exchange.
    fn execute_thumb5<B: Bus>(&mut self, bus: &mut B, instr: u16)
        requires
            old(bus).ready(),
        ensures
            final(bus).ready(),
            (final(self)@, final(bus)@) == thumb_hi_reg::<B>(old(self)@, old(bus)@, instr),
    {
        let r_src = r_low(instr, 3) + if bit(instr, 6) {
            8
        } else {
            0
        };
        let value = self.reg.r[r_src];
        let op = (instr >> 8u16) & 3;
        if op == 3 {
            self.op_bx(bus, value);
            return;
        }
        let r_dst = r_low(instr, 0) + if bit(instr, 7) {
            8
        } else {
            0
        };
        let d = self.reg.r[r_dst];
        if op == 0 {
            let v = self.op_add(false, d, value);
            self.reg.r[r_dst] = v;
        } else if op == 1 {
            self.op_sub(true, d, value);
        } else {
            let v = self.op_mov(false, value);
            self.reg.r[r_dst] = v;
        }
        if op != 1 && r_dst == PC_INDEX {
            self.reload_pipeline(bus);
        }
    }

    /// Thumb.6: Load PC relative.
    fn execute_thumb6<B: Bus>(&mut self, bus: &mut B, instr: u16)
        requires
            old(bus).ready(),
        ensures
            final(bus).ready(),
            (final(self)@, final(bus)@) == thumb_load_pc_relative::<B>(old(self)@, old(bus)@, instr),
    {
        let offset = (instr & 0xff) as u32;
        let addr = self.reg.r[PC_INDEX].wrapping_add(offset * 4);
        let v = Self::op_ldr(bus, addr);
        self.reg.r[r_low(instr, 8)] = v;
    }

    /// Thumb.7: Load or store with register offset, or
    /// Thumb.8: Load or store sign-extended byte or half-word (if bit 9 is set in `instr`).
    fn execute_thumb7_or_thumb8<B: Bus>(&mut self, bus: &mut B, instr: u16)
        requires
            old(bus).ready(),
        ensures
            final(bus).ready(),
            (final(self)@, final(bus)@) == thumb_reg_offset::<B>(old(self)@, old(bus)@, instr),
    {
        let r = r_low(instr, 0);
        let base_addr = self.reg.r[r_low(instr, 3)];
        let offset = self.reg.r[r_low(instr, 6)];
        let addr = base_addr.wrapping_add(offset);
        let op = (instr >> 10u16) & 3;
        if bit(instr, 9) {
            if op == 0 {
                Self::op_strh(bus, addr, (self.reg.r[r] & 0xffff) as u16);
            } else if op == 1 {
                let v = Self::op_ldrb_or_ldsb(bus, addr, true);
                self.reg.r[r] = v;
            } else {
                let v = Self::op_ldrh_or_ldsh(bus, addr, op == 3);
                self.reg.r[r] = v;
            }
        } else {
            if op == 0 {
                Self::op_str(bus, addr, self.reg.r[r]);
            } else if op == 1 {
                Self::op_strb(bus, addr, (self.reg.r[r] & 0xff) as u8);
            } else if op == 2 {
                let v = Self::op_ldr(bus, addr);
                self.reg.r[r] = v;
            } else {
                let v = Self::op_ldrb_or_ldsb(bus, addr, false);
                self.reg.r[r] = v;
            }
        }
    }

    /// Thumb.9: Load or store with immediate offset.
    fn execute_thumb9<B: Bus>(&mut self, bus: &mut B, instr: u16)
        requires
            old(bus).ready(),
        ensures
            final(bus).ready(),
            (final(self)@, final(bus)@) == thumb_imm_offset::<B>(old(self)@, old(bus)@, instr),
    {
        let r = r_low(instr, 0);
        let base_addr = self.reg.r[r_low(instr, 3)];
        let offset = ((instr >> 6u16) & 0x1f) as u32;
        proof {
            lemma_and_le16(instr >> 6u16, 0x1f);
        }
        let addr = base_addr.wrapping_add(offset);
        let word_addr = base_addr.wrapping_add(offset * 4);
        let op = (instr >> 11u16) & 3;
        if op == 0 {
            Self::op_str(bus, word_addr, self.reg.r[r]);
        } else if op == 1 {
            let v = Self::op_ldr(bus, word_addr);
            self.reg.r[r] = v;
        } else if op == 2 {
            Self::op_strb(bus, addr, (self.reg.r[r] & 0xff) as u8);
        } else {
            let v = Self::op_ldrb_or_ldsb(bus, addr, false);
            self.reg.r[r] = v;
        }
    }

    /// Thumb.10: Load or store half-word.
    fn execute_thumb10<B: Bus>(&mut self, bus: &mut B, instr: u16)
        requires
            old(bus).ready(),
        ensures
            final(bus).ready(),
            (final(self)@, final(bus)@) == thumb_hword::<B>(old(self)@, old(bus)@, instr),
    {
        let r = r_low(instr, 0);
        let base_addr = self.reg.r[r_low(instr, 3)];
        proof {
            lemma_and_le16(instr >> 6u16, 0x1f);
        }
        let offset = ((instr >> 6u16) & 0x1f) as u32;
        let addr = base_addr.wrapping_add(offset * 2);
        if bit(instr, 11) {
            let v = Self::op_ldrh_or_ldsh(bus, addr, false);
            self.reg.r[r] = v;
        } else {
            Self::op_strh(bus, addr, (self.reg.r[r] & 0xffff) as u16);
        }
    }

    /// Thumb.11: Load or store SP relative.
    fn execute_thumb11<B: Bus>(&mut self, bus: &mut B, instr: u16)
        requires
            old(bus).ready(),
        ensures
            final(bus).ready(),
            (final(self)@, final(bus)@) == thumb_sp_relative::<B>(old(self)@, old(bus)@, instr),
    {
        let offset = (instr & 0xff) as u32;
        let addr = self.reg.r[SP_INDEX].wrapping_add(offset * 4);
        let r = r_low(instr, 8);
        if bit(instr, 11) {
            let v = Self::op_ldr(bus, addr);
            self.reg.r[r] = v;
        } else {
            Self::op_str(bus, addr, self.reg.r[r]);
        }
    }

    /// Thumb.12: Get relative address.
    fn execute_thumb12(&mut self, instr: u16)
        ensures
            final(self)@ == thumb_relative_addr(old(self)@, instr),
    {
        let offset = (instr & 0xff) as u32;
        let base_addr = self.reg.r[if bit(instr, 11) {
            SP_INDEX
        } else {
            PC_INDEX
        }];
        let v = self.op_add(false, base_addr, offset);
        self.reg.r[r_low(instr, 8)] = v;
    }

    /// Thumb.13: Add offset to SP.
    fn execute_thumb13(&mut self, instr: u16)
        ensures
            final(self)@ == thumb_sp_offset(old(self)@, instr),
    {
        let offset = (instr & 0x7f) as u32 * 4;
        let sp = self.reg.r[SP_INDEX];
        let v = if bit(instr, 7) {
            self.op_sub(false, sp, offset)
        } else {
            self.op_add(false, sp, offset)
        };
        self.reg.r[SP_INDEX] = v;
    }

    /// Thumb.14: Push or pop registers.
    fn execute_thumb14<B: Bus>(&mut self, bus: &mut B, instr: u16)
        requires
            old(bus).ready(),
        ensures
            final(bus).ready(),
            (final(self)@, final(bus)@) == thumb_push_pop::<B>(old(self)@, old(bus)@, instr),
    {
        let pop = bit(instr, 11);
        let flags = BlockTransferFlags {
            preindex: !pop,
            ascend: pop,
            load_psr_or_force_user: false,
            writeback: true,
        };
        let extra: u16 = if pop {
            0x8000
        } else {
            0x4000
        };
        let r_list = (instr & 0xff) | if bit(instr, 8) {
            extra
        } else {
            0
        };
        if pop {
            self.op_ldm(bus, &flags, SP_INDEX, r_list);
        } else {
            self.op_stm(bus, &flags, SP_INDEX, r_list);
        }
    }

    /// Thumb.15: Multiple load or store.
    fn execute_thumb15<B: Bus>(&mut self, bus: &mut B, instr: u16)
        requires
            old(bus).ready(),
        ensures
            final(bus).ready(),
            (final(self)@, final(bus)@) == thumb_multiple::<B>(old(self)@, old(bus)@, instr),
    {
        let r_list = instr & 0xff;
        let r_base = r_low(instr, 8);
        let flags = BlockTransferFlags {
            preindex: false,
            ascend: true,
            load_psr_or_force_user: false,
            writeback: true,
        };
        if bit(instr, 11) {
            self.op_ldm(bus, &flags, r_base, r_list);
        } else {
            self.op_stm(bus, &flags, r_base, r_list);
        }
    }

    /// Thumb.16: Conditional branch.
    fn execute_thumb16<B: Bus>(&mut self, bus: &mut B, instr: u16)
        requires
            old(bus).ready(),
        ensures
            final(bus).ready(),
            (final(self)@, final(bus)@) == thumb_cond_branch::<B>(old(self)@, old(bus)@, instr),
    {
        proof {
            lemma_and_le16(instr >> 8u16, 0xf);
        }
        if self.meets_condition(((instr >> 8u16) & 0xf) as u8) {
            let v = (instr & 0xff) as i32;
            let offset = if v >= 0x80 {
                v - 0x100
            } else {
                v
            };
            let pc = self.reg.r[PC_INDEX];
            self.op_branch(bus, pc, 2 * offset);
        }
    }

    /// Thumb.18: Unconditional branch.
    fn execute_thumb18<B: Bus>(&mut self, bus: &mut B, instr: u16)
        requires
            old(bus).ready(),
        ensures
            final(bus).ready(),
            (final(self)@, final(bus)@) == thumb_branch::<B>(old(self)@, old(bus)@, instr),
    {
        let v = (instr & 0x7ff) as i32;
        let offset = if v >= 0x400 {
            v - 0x800
        } else {
            v
        };
        let pc = self.reg.r[PC_INDEX];
        self.op_branch(bus, pc, 2 * offset);
    }

    /// Thumb.19: Long branch with link.
    fn execute_thumb19<B: Bus>(&mut self, bus: &mut B, instr: u16)
        requires
            old(bus).ready(),
        ensures
            final(bus).ready(),
            (final(self)@, final(bus)@) == thumb_long_branch::<B>(old(self)@, old(bus)@, instr),
    {
        let addr_offset_part = (instr & 0x7ff) as u32;
        proof {
            lemma_and_le16(instr, 0x7ff);
        }
        if !bit(instr, 11) {
            self.reg.r[LR_INDEX] = self.reg.r[PC_INDEX].wrapping_add(addr_offset_part << 12u32);
        } else {
            // The PC is two instructions ahead; the return address is the next instruction.
            let return_addr = self.reg.r[PC_INDEX].wrapping_sub(self.reg.cpsr.state.instr_size());
            let lr = self.reg.r[LR_INDEX];
            self.op_branch(bus, lr, (addr_offset_part << 1u32) as i32);
            self.reg.r[LR_INDEX] = return_addr | 1;
        }
    }

    /// Executes the Thumb instruction `instr`.
    #[verifier::spinoff_prover]
    #[verifier::rlimit(60)]
    pub fn execute_thumb<B: Bus>(&mut self, bus: &mut B, instr: u16)
        requires
            old(bus).ready(),
            old(self)@.cpsr().state == OperationState::Thumb,
        ensures
            final(bus).ready(),
            (final(self)@, final(bus)@) == thumb_executed::<B>(old(self)@, old(bus)@, instr),
    {
        reveal(thumb_executed);
        let h = instr >> 8u16;
        if h == 0xb0 {
            self.execute_thumb13(instr);
        } else if h == 0xdf {
            self.enter_exception(bus, Exception::SoftwareInterrupt);
        } else if h & 0xfc == 0x40 {
            self.execute_thumb4(instr);
        } else if h & 0xfc == 0x44 {
            self.execute_thumb5(bus, instr);
        } else if h & 0xf8 == 0x18 {
            self.execute_thumb2(instr);
        } else if h & 0xf8 == 0x48 {
            self.execute_thumb6(bus, instr);
        } else if h & 0xf8 == 0xe0 {
            self.execute_thumb18(bus, instr);
        } else if h & 0xf0 == 0x50 {
            self.execute_thumb7_or_thumb8(bus, instr);
        } else if h & 0xf0 == 0x80 {
            self.execute_thumb10(bus, instr);
        } else if h & 0xf0 == 0x90 {
            self.execute_thumb11(bus, instr);
        } else if h & 0xf0 == 0xa0 {
            self.execute_thumb12(instr);
        } else if h & 0xf0 == 0xb0 {
            self.execute_thumb14(bus, instr);
        } else if h & 0xf0 == 0xc0 {
            self.execute_thumb15(bus, instr);
        } else if h & 0xf0 == 0xd0 {
            self.execute_thumb16(bus, instr);
        } else if h & 0xf0 == 0xf0 {
            self.execute_thumb19(bus, instr);
        } else if h & 0xe0 == 0x00 {
            proof {
                assert(h & 0xf8 != 0x18 && h & 0xe0 == 0 && h == instr >> 8u16 ==> (instr >> 11u16) & 3 != 3) by (bit_vector);
            }
            self.execute_thumb1(instr);
        } else if h & 0xe0 == 0x20 {
            self.execute_thumb3(instr);
        } else if h & 0xe0 == 0x60 {
            self.execute_thumb9(bus, instr);
        } else {
            self.enter_exception(bus, Exception::UndefinedInstr);
        }
    }
}

} // verus!
