use vstd::prelude::*;

use crate::arm7tdmi::reg::{OperationMode, OperationState, StatusRegister, LR_INDEX, PC_INDEX};
use crate::arm7tdmi::{entered_exception, reloaded, Cpu, CpuModel, Exception};
use crate::bus::{hword_write, word_write, Bus, BusAlignedExt};

use super::{lemma_and_le, 
    add_flags, add_result, asr, branch, branch_exchange, condition_holds, ldm, ldr, ldrb, ldrh,
    logical, lsl, lsr, msr, nz_dword, ror, shift_operand, stm, BlockTransferFlags,
};

verus! {

/// The condition field of an instruction fits in 4 bits.
proof fn lemma_shr_28(instr: u32)
    ensures
        instr >> 28u32 < 16,
{
    assert(instr >> 28u32 < 16) by (bit_vector);
}

/// The register index held in the 4 bits of `instr` starting at bit `pos`.
pub open spec fn reg_at(instr: u32, pos: u32) -> int {
    ((instr >> pos) & 0xf) as int
}

/// Whether bit `i` of `instr` is set.
pub open spec fn flag(instr: u32, i: u32) -> bool {
    (instr >> i) & 1 == 1
}

pub fn r_index(instr: u32, pos: u32) -> (r: usize)
    requires
        pos < 32,
    ensures
        r as int == reg_at(instr, pos),
        r < 16,
{
    proof {
        lemma_and_le(instr >> pos, 0xf);
    }
    ((instr >> pos) & 0xf) as usize
}

/// The signed value of the low 24 bits of `instr`, times four: a branch's byte offset.
pub open spec fn branch_offset(instr: u32) -> i32 {
    let v = instr & 0xff_ffff;
    let s: int = if v >= 0x80_0000 {
        v - 0x100_0000
    } else {
        v as int
    };
    (4 * s) as i32
}

/// B and BL: BL first saves the address of the next instruction in LR.
pub open spec fn arm_b_bl<B: Bus>(cpu: CpuModel, bus: B::V, instr: u32) -> (CpuModel, B::V) {
    let c1 = if flag(instr, 24) {
        cpu.set_r(
            LR_INDEX as int,
            cpu.r(PC_INDEX as int).wrapping_sub(cpu.cpsr().state.size()),
        )
    } else {
        cpu
    };
    branch::<B>(c1, bus, c1.r(PC_INDEX as int), branch_offset(instr))
}

/// The result and flags of data-processing opcode `op`; `None` for the compare opcodes, which
/// write no register. ADC and SBC use the carry from before the operand shift.
pub open spec fn data_processing_op(
    cpsr: StatusRegister,
    op: u32,
    update_cond: bool,
    old_carry: bool,
    value1: u32,
    value2: u32,
) -> (StatusRegister, Option<u32>) {
    if op == 0 {
        (logical(cpsr, update_cond, value1 & value2), Some(value1 & value2))
    } else if op == 1 {
        (logical(cpsr, update_cond, value1 ^ value2), Some(value1 ^ value2))
    } else if op == 2 {
        (
            if update_cond {
                add_flags(cpsr, value1, !value2, true)
            } else {
                cpsr
            },
            Some(add_result(value1, !value2, true)),
        )
    } else if op == 3 {
        (
            if update_cond {
                add_flags(cpsr, value2, !value1, true)
            } else {
                cpsr
            },
            Some(add_result(value2, !value1, true)),
        )
    } else if op == 4 {
        (
            if update_cond {
                add_flags(cpsr, value1, value2, false)
            } else {
                cpsr
            },
            Some(add_result(value1, value2, false)),
        )
    } else if op == 5 {
        let c = StatusRegister { carry: old_carry, ..cpsr };
        (
            if update_cond {
                add_flags(c, value1, value2, old_carry)
            } else {
                c
            },
            Some(add_result(value1, value2, old_carry)),
        )
    } else if op == 6 {
        let c = StatusRegister { carry: old_carry, ..cpsr };
        (
            if update_cond {
                add_flags(c, value1, !value2, old_carry)
            } else {
                c
            },
            Some(add_result(value1, !value2, old_carry)),
        )
    } else if op == 7 {
        (
            if update_cond {
                add_flags(cpsr, value2, !value1, cpsr.carry)
            } else {
                cpsr
            },
            Some(add_result(value2, !value1, cpsr.carry)),
        )
    } else if op == 8 {
        (logical(cpsr, true, value1 & value2), None)
    } else if op == 9 {
        (logical(cpsr, true, value1 ^ value2), None)
    } else if op == 10 {
        (add_flags(cpsr, value1, !value2, true), None)
    } else if op == 11 {
        (add_flags(cpsr, value1, value2, false), None)
    } else if op == 12 {
        (logical(cpsr, update_cond, value1 | value2), Some(value1 | value2))
    } else if op == 13 {
        (logical(cpsr, update_cond, value2), Some(value2))
    } else if op == 14 {
        (logical(cpsr, update_cond, value1 & !value2), Some(value1 & !value2))
    } else {
        (logical(cpsr, update_cond, !value2), Some(!value2))
    }
}

/// The two operands of a data-processing instruction and the flags after the operand shift.
/// Operand 2 is an immediate rotated right by twice a 4-bit amount, or a register shifted by an
/// immediate or by the low byte of a register; with a register shift, a PC operand reads one
/// instruction further ahead.
pub open spec fn data_processing_operands(cpu: CpuModel, instr: u32, update_cond: bool) -> (
    StatusRegister,
    u32,
    u32,
) {
    let r_value1 = reg_at(instr, 16);
    let value1 = cpu.r(r_value1);
    if flag(instr, 25) {
        let (c, v) = ror(
            cpu.cpsr(),
            update_cond,
            false,
            instr & 0xff,
            (2 * ((instr >> 8u32) & 0xf)) as u8,
        );
        (c, value1, v)
    } else {
        let offset_from_reg = flag(instr, 4);
        let offset: u8 = if offset_from_reg {
            (cpu.r(reg_at(instr, 8)) & 0xff) as u8
        } else {
            ((instr >> 7u32) & 0x1f) as u8
        };
        let r_value2 = reg_at(instr, 0);
        let size = cpu.cpsr().state.size();
        let v1 = if offset_from_reg && r_value1 == PC_INDEX {
            value1.wrapping_add(size)
        } else {
            value1
        };
        let v2 = if offset_from_reg && r_value2 == PC_INDEX {
            cpu.r(r_value2).wrapping_add(size)
        } else {
            cpu.r(r_value2)
        };
        let (c, v) = shift_operand(
            cpu.cpsr(),
            ((instr >> 5u32) & 3) as u8,
            update_cond,
            !offset_from_reg,
            v2,
            offset,
        );
        (c, v1, v)
    }
}

/// Data-processing instructions (AND ... MVN). With S and Rd = PC the CPSR is restored from the
/// SPSR (outside User mode); writing the PC refills the pipeline.
#[verifier::opaque]
pub open spec fn arm_data_processing<B: Bus>(cpu: CpuModel, bus: B::V, instr: u32) -> (
    CpuModel,
    B::V,
) {
    let r_dst = reg_at(instr, 12);
    let update_cond = flag(instr, 20) && r_dst != PC_INDEX;
    let set_cpsr = flag(instr, 20) && r_dst == PC_INDEX;
    let old_carry = cpu.cpsr().carry;
    let (cpsr1, value1, value2) = data_processing_operands(cpu, instr, update_cond);
    let op = (instr >> 21u32) & 0xf;
    let (cpsr2, result) = data_processing_op(cpsr1, op, update_cond, old_carry, value1, value2);
    let c2 = match result {
        Some(v) => cpu.with_cpsr(cpsr2).set_r(r_dst, v),
        None => cpu.with_cpsr(cpsr2),
    };
    let c3 = if set_cpsr && c2.cpsr().mode != OperationMode::User {
        c2.with_reg(c2.reg.with_cpsr_bits(c2.reg.spsr_value()))
    } else {
        c2
    };
    if r_dst == PC_INDEX && !(8 <= op <= 11) {
        reloaded::<B>(c3, bus)
    } else {
        (c3, bus)
    }
}

/// The 64-bit result of a long multiply: `op` 0 UMULL, 1 UMLAL, 2 SMULL, 3 SMLAL.
pub open spec fn long_product(op: u32, a: u32, b: u32, accum: u64) -> u64 {
    if op == 0 {
        (a as u64).wrapping_mul(b as u64).wrapping_add(0)
    } else if op == 1 {
        (a as u64).wrapping_mul(b as u64).wrapping_add(accum)
    } else if op == 2 {
        (((a as i32) as i64).wrapping_mul((b as i32) as i64).wrapping_add(0)) as u64
    } else {
        (((a as i32) as i64).wrapping_mul((b as i32) as i64).wrapping_add(accum as i64)) as u64
    }
}

/// Multiply (MUL, MLA) and multiply long (UMULL, UMLAL, SMULL, SMLAL). The long forms
/// accumulate into, and write, the register pair RdHi:RdLo.
#[verifier::opaque]
pub open spec fn arm_multiply(cpu: CpuModel, instr: u32) -> CpuModel {
    let update_cond = flag(instr, 20);
    let r_hi = reg_at(instr, 16);
    let r_lo = reg_at(instr, 12);
    let a = cpu.r(reg_at(instr, 0));
    let b = cpu.r(reg_at(instr, 8));
    if flag(instr, 23) {
        let accum = (cpu.r(r_lo) as u64) | ((cpu.r(r_hi) as u64) << 32u64);
        let result = long_product((instr >> 21u32) & 3, a, b, accum);
        let cpsr = if update_cond {
            nz_dword(cpu.cpsr(), result)
        } else {
            cpu.cpsr()
        };
        cpu.with_cpsr(cpsr).set_r(r_lo, result as u32).set_r(r_hi, (result >> 32u64) as u32)
    } else {
        let accum: u32 = if flag(instr, 21) {
            cpu.r(r_lo)
        } else {
            0
        };
        let result = a.wrapping_mul(b).wrapping_add(accum);
        cpu.with_cpsr(logical(cpu.cpsr(), update_cond, result)).set_r(r_hi, result)
    }
}

/// MRS copies the CPSR or SPSR into a register; MSR writes an immediate (rotated as in
/// data processing) or a register to the flags and/or control fields of one of them.
pub open spec fn arm_psr_transfer(cpu: CpuModel, instr: u32) -> CpuModel {
    let use_spsr = flag(instr, 22);
    if flag(instr, 21) {
        let value = if flag(instr, 25) {
            ror(cpu.cpsr(), false, false, instr & 0xff, (2 * ((instr >> 8u32) & 0xf)) as u8).1
        } else {
            cpu.r(reg_at(instr, 0))
        };
        msr(cpu, use_spsr, flag(instr, 19), flag(instr, 16), value)
    } else {
        cpu.set_r(
            reg_at(instr, 12),
            if use_spsr {
                cpu.reg.spsr_value()
            } else {
                cpu.cpsr().psr_bits()
            },
        )
    }
}

/// The address `offset` above (or below, when `up` is clear) `base_addr`, wrapping.
pub open spec fn offset_addr(base_addr: u32, up: bool, offset: u32) -> u32 {
    if up {
        base_addr.wrapping_add(offset)
    } else {
        base_addr.wrapping_sub(offset)
    }
}

/// The value a store takes from register `r`: the PC reads one instruction further ahead.
pub open spec fn store_value(cpu: CpuModel, r: int) -> u32 {
    if r == PC_INDEX {
        cpu.r(r).wrapping_add(cpu.cpsr().state.size())
    } else {
        cpu.r(r)
    }
}

/// The processor with register `r` set to `v`, refilling the pipeline when `r` is the PC.
pub open spec fn written_back<B: Bus>(cpu: CpuModel, bus: B::V, r: int, v: u32) -> (
    CpuModel,
    B::V,
) {
    let c = cpu.set_r(r, v);
    if r == PC_INDEX {
        reloaded::<B>(c, bus)
    } else {
        (c, bus)
    }
}

/// The base register after a transfer: written with `final_addr` when post-indexing or with
/// write-back, unless a load went to the base register itself.
pub open spec fn base_written_back<B: Bus>(
    cpu: CpuModel,
    bus: B::V,
    instr: u32,
    final_addr: u32,
) -> (CpuModel, B::V) {
    let r_base = reg_at(instr, 16);
    if (flag(instr, 21) || !flag(instr, 24)) && !(flag(instr, 20) && r_base == reg_at(instr, 12)) {
        written_back::<B>(cpu, bus, r_base, final_addr)
    } else {
        (cpu, bus)
    }
}

/// The offset of a single data transfer: a 12-bit immediate, or a register shifted by an
/// immediate (with the shift's special zero amounts).
pub open spec fn single_transfer_offset(cpu: CpuModel, instr: u32) -> u32 {
    if flag(instr, 25) {
        shift_operand(
            cpu.cpsr(),
            ((instr >> 5u32) & 3) as u8,
            false,
            true,
            cpu.r(reg_at(instr, 0)),
            ((instr >> 7u32) & 0x1f) as u8,
        ).1
    } else {
        instr & 0xfff
    }
}

/// The access of a single data transfer at `addr`: a word or byte load into Rd, or a store of
/// Rd's word or low byte.
pub open spec fn single_access<B: Bus>(cpu: CpuModel, bus: B::V, instr: u32, addr: u32) -> (
    CpuModel,
    B::V,
) {
    let r_sd = reg_at(instr, 12);
    if flag(instr, 20) {
        let (b, v) = if flag(instr, 22) {
            ldrb::<B>(bus, addr, false)
        } else {
            ldr::<B>(bus, addr)
        };
        written_back::<B>(cpu, b, r_sd, v)
    } else {
        let v = store_value(cpu, r_sd);
        (
            cpu,
            if flag(instr, 22) {
                B::after_write(bus, addr, (v & 0xff) as u8)
            } else {
                word_write::<B>(bus, addr & !3u32, v)
            },
        )
    }
}

/// Single data transfer (LDR, STR, LDRB, STRB, and their T forms). Post-indexing with
/// write-back makes the access with the User bank.
#[verifier::opaque]
pub open spec fn arm_single_transfer<B: Bus>(cpu: CpuModel, bus: B::V, instr: u32) -> (
    CpuModel,
    B::V,
) {
    let preindex = flag(instr, 24);
    let force_user = !preindex && flag(instr, 21);
    let base_addr = cpu.r(reg_at(instr, 16));
    let final_addr = offset_addr(base_addr, flag(instr, 23), single_transfer_offset(cpu, instr));
    let addr = if preindex {
        final_addr
    } else {
        base_addr
    };
    let saved_mode = cpu.cpsr().mode;
    let c1 = if force_user {
        cpu.with_reg(cpu.reg.changed_mode(OperationMode::User))
    } else {
        cpu
    };
    let (c2, b2) = single_access::<B>(c1, bus, instr, addr);
    let c3 = if force_user {
        c2.with_reg(c2.reg.changed_mode(saved_mode))
    } else {
        c2
    };
    base_written_back::<B>(c3, b2, instr, final_addr)
}

/// Half-word and signed data transfer (LDRH, STRH, LDRSB, LDRSH). The offset is an 8-bit
/// immediate split over two nibbles, or a register; the reserved opcodes load the register
/// unchanged and store nothing.
#[verifier::opaque]
pub open spec fn arm_hword_transfer<B: Bus>(cpu: CpuModel, bus: B::V, instr: u32) -> (
    CpuModel,
    B::V,
) {
    let r_sd = reg_at(instr, 12);
    let offset = if flag(instr, 22) {
        (instr & 0xf) | (((instr >> 8u32) & 0xf) << 4u32)
    } else {
        cpu.r(reg_at(instr, 0))
    };
    let base_addr = cpu.r(reg_at(instr, 16));
    let final_addr = offset_addr(base_addr, flag(instr, 23), offset);
    let addr = if flag(instr, 24) {
        final_addr
    } else {
        base_addr
    };
    let op = (instr >> 5u32) & 3;
    let (c2, b2) = if flag(instr, 20) {
        let (b, v) = if op == 0 {
            (bus, cpu.r(r_sd))
        } else if op == 1 {
            ldrh::<B>(bus, addr, false)
        } else if op == 2 {
            ldrb::<B>(bus, addr, true)
        } else {
            ldrh::<B>(bus, addr, true)
        };
        written_back::<B>(cpu, b, r_sd, v)
    } else {
        let v = store_value(cpu, r_sd);
        (
            cpu,
            if op == 1 {
                hword_write::<B>(bus, addr & !1u32, (v & 0xffff) as u16)
            } else {
                bus
            },
        )
    };
    base_written_back::<B>(c2, b2, instr, final_addr)
}

/// The addressing options held in bits 21 to 24 of a block transfer.
pub open spec fn block_flags(instr: u32) -> BlockTransferFlags {
    BlockTransferFlags {
        preindex: flag(instr, 24),
        ascend: flag(instr, 23),
        load_psr_or_force_user: flag(instr, 22),
        writeback: flag(instr, 21),
    }
}

/// Block data transfer (LDM, STM).
pub open spec fn arm_block_transfer<B: Bus>(cpu: CpuModel, bus: B::V, instr: u32) -> (
    CpuModel,
    B::V,
) {
    if flag(instr, 20) {
        ldm::<B>(cpu, bus, block_flags(instr), reg_at(instr, 16), (instr & 0xffff) as u16)
    } else {
        stm::<B>(cpu, bus, block_flags(instr), reg_at(instr, 16), (instr & 0xffff) as u16)
    }
}

/// Single data swap (SWP, SWPB): Rd gets the old memory value and memory gets Rm. The word
/// form loads as LDR does and stores to the aligned word.
pub open spec fn arm_swap<B: Bus>(cpu: CpuModel, bus: B::V, instr: u32) -> (CpuModel, B::V) {
    let base_addr = cpu.r(reg_at(instr, 16));
    let value = cpu.r(reg_at(instr, 0));
    let r_dst = reg_at(instr, 12);
    if flag(instr, 22) {
        let old_value = B::read_value(bus, base_addr);
        let b1 = B::after_read(bus, base_addr);
        (cpu.set_r(r_dst, old_value as u32), B::after_write(b1, base_addr, (value & 0xff) as u8))
    } else {
        let (b1, old_value) = ldr::<B>(bus, base_addr);
        (cpu.set_r(r_dst, old_value), word_write::<B>(b1, base_addr & !3u32, value))
    }
}

/// The processor after entering `exception` (an exception that is never masked).
pub open spec fn trapped<B: Bus>(cpu: CpuModel, bus: B::V, exception: Exception) -> (
    CpuModel,
    B::V,
) {
    let (_, c, b) = entered_exception::<B>(cpu, bus, exception);
    (c, b)
}

/// The instruction classes of the ARM instruction set, told apart by bits 4 to 27.
pub enum ArmClass {
    BranchExchange,
    Swap,
    Multiply,
    HwordTransfer,
    PsrTransfer,
    SoftwareInterrupt,
    Undefined,
    BlockTransfer,
    Branch,
    DataProcessing,
    SingleTransfer,
    Coprocessor,
}

/// The class of `instr`; the first pattern that matches wins.
pub open spec fn arm_class(instr: u32) -> ArmClass {
    let i = instr & 0x0fff_ffff;
    if i & 0x0fff_ff00 == 0x012f_ff00 {
        ArmClass::BranchExchange
    } else if i & 0x0fb0_0ff0 == 0x0100_0090 {
        ArmClass::Swap
    } else if i & 0x0f00_00f0 == 0x0000_0090 {
        ArmClass::Multiply
    } else if i & 0x0e00_0090 == 0x0000_0090 {
        ArmClass::HwordTransfer
    } else if i & 0x0d90_0000 == 0x0100_0000 {
        ArmClass::PsrTransfer
    } else if i & 0x0f00_0000 == 0x0f00_0000 {
        ArmClass::SoftwareInterrupt
    } else if i & 0x0e00_0010 == 0x0600_0010 {
        ArmClass::Undefined
    } else if i & 0x0e00_0000 == 0x0800_0000 {
        ArmClass::BlockTransfer
    } else if i & 0x0e00_0000 == 0x0a00_0000 {
        ArmClass::Branch
    } else if i & 0x0c00_0000 == 0 {
        ArmClass::DataProcessing
    } else if i & 0x0c00_0000 == 0x0400_0000 {
        ArmClass::SingleTransfer
    } else {
        ArmClass::Coprocessor
    }
}

/// Executing the ARM instruction `instr`: nothing happens when its condition (bits 28 to 31)
/// fails; coprocessor instructions do nothing (there is no coprocessor).
#[verifier::opaque]
pub open spec fn arm_executed<B: Bus>(cpu: CpuModel, bus: B::V, instr: u32) -> (CpuModel, B::V) {
    if !condition_holds(cpu.cpsr(), (instr >> 28u32) as u8) {
        (cpu, bus)
    } else {
        match arm_class(instr) {
            ArmClass::BranchExchange => branch_exchange::<B>(cpu, bus, cpu.r(reg_at(instr, 0))),
            ArmClass::Swap => arm_swap::<B>(cpu, bus, instr),
            ArmClass::Multiply => (arm_multiply(cpu, instr), bus),
            ArmClass::HwordTransfer => arm_hword_transfer::<B>(cpu, bus, instr),
            ArmClass::PsrTransfer => (arm_psr_transfer(cpu, instr), bus),
            ArmClass::SoftwareInterrupt => trapped::<B>(cpu, bus, Exception::SoftwareInterrupt),
            ArmClass::Undefined => trapped::<B>(cpu, bus, Exception::UndefinedInstr),
            ArmClass::BlockTransfer => arm_block_transfer::<B>(cpu, bus, instr),
            ArmClass::Branch => arm_b_bl::<B>(cpu, bus, instr),
            ArmClass::DataProcessing => arm_data_processing::<B>(cpu, bus, instr),
            ArmClass::SingleTransfer => arm_single_transfer::<B>(cpu, bus, instr),
            ArmClass::Coprocessor => (cpu, bus),
        }
    }
}

impl Cpu {
    /// Branch and branch with link.
    pub fn execute_arm_b_bl<B: Bus>(&mut self, bus: &mut B, instr: u32)
        requires
            old(bus).ready(),
        ensures
            final(bus).ready(),
            (final(self)@, final(bus)@) == arm_b_bl::<B>(old(self)@, old(bus)@, instr),
    {
        let v = instr & 0xff_ffff;
        let s: i64 = if v >= 0x80_0000 {
            v as i64 - 0x100_0000
        } else {
            v as i64
        };
        let addr_offset = (4 * s) as i32;
        if (instr >> 24u32) & 1 == 1 {
            self.reg.r[LR_INDEX] = self.reg.r[PC_INDEX].wrapping_sub(
                self.reg.cpsr.state.instr_size(),
            );
        }
        let pc = self.reg.r[PC_INDEX];
        self.op_branch(bus, pc, addr_offset);
    }

    /// Branch and exchange.
    pub fn execute_arm_bx<B: Bus>(&mut self, bus: &mut B, instr: u32)
        requires
            old(bus).ready(),
        ensures
            final(bus).ready(),
            (final(self)@, final(bus)@) == branch_exchange::<B>(
                old(self)@,
                old(bus)@,
                old(self)@.r(reg_at(instr, 0)),
            ),
    {
        let addr = self.reg.r[r_index(instr, 0)];
        self.op_bx(bus, addr);
    }

    fn data_processing_operands(&mut self, instr: u32, update_cond: bool) -> (r: (u32, u32))
        ensures
            (final(self)@.cpsr(), r.0, r.1) == data_processing_operands(
                old(self)@,
                instr,
                update_cond,
            ),
            final(self)@ == old(self)@.with_cpsr(final(self)@.cpsr()),
    {
        let r_value1 = r_index(instr, 16);
        let value1 = self.reg.r[r_value1];
        if (instr >> 25u32) & 1 == 1 {
            proof {
                lemma_and_le(instr >> 8u32, 0xf);
            }
            let amount = (2 * ((instr >> 8u32) & 0xf)) as u8;
            let v = self.op_ror(update_cond, false, instr & 0xff, amount);
            (value1, v)
        } else {
            let offset_from_reg = (instr >> 4u32) & 1 == 1;
            proof {
                lemma_and_le(instr >> 7u32, 0x1f);
                lemma_and_le(instr >> 5u32, 3);
            }
            let offset: u8 = if offset_from_reg {
                (self.reg.r[r_index(instr, 8)] & 0xff) as u8
            } else {
                ((instr >> 7u32) & 0x1f) as u8
            };
            let r_value2 = r_index(instr, 0);
            let size = self.reg.cpsr.state.instr_size();
            let v1 = if offset_from_reg && r_value1 == PC_INDEX {
                value1.wrapping_add(size)
            } else {
                value1
            };
            let v2 = if offset_from_reg && r_value2 == PC_INDEX {
                self.reg.r[r_value2].wrapping_add(size)
            } else {
                self.reg.r[r_value2]
            };
            let v = self.op_shift_operand(
                ((instr >> 5u32) & 3) as u8,
                update_cond,
                !offset_from_reg,
                v2,
                offset,
            );
            (v1, v)
        }
    }

    #[verifier::rlimit(50)]
    fn data_processing_op(
        &mut self,
        op: u32,
        update_cond: bool,
        old_carry: bool,
        value1: u32,
        value2: u32,
    ) -> (r: Option<u32>)
        requires
            op < 16,
        ensures
            (final(self)@.cpsr(), r) == data_processing_op(
                old(self)@.cpsr(),
                op,
                update_cond,
                old_carry,
                value1,
                value2,
            ),
            final(self)@ == old(self)@.with_cpsr(final(self)@.cpsr()),
    {
        if op == 0 {
            Some(self.op_and(update_cond, value1, value2))
        } else if op == 1 {
            Some(self.op_eor(update_cond, value1, value2))
        } else if op == 2 {
            Some(self.op_sub(update_cond, value1, value2))
        } else if op == 3 {
            Some(self.op_sub(update_cond, value2, value1))
        } else if op == 4 {
            Some(self.op_add(update_cond, value1, value2))
        } else if op == 5 {
            self.reg.cpsr.carry = old_carry;
            Some(self.op_adc(update_cond, value1, value2))
        } else if op == 6 {
            self.reg.cpsr.carry = old_carry;
            Some(self.op_sbc(update_cond, value1, value2))
        } else if op == 7 {
            Some(self.op_sbc(update_cond, value2, value1))
        } else if op == 8 {
            self.op_and(true, value1, value2);
            None
        } else if op == 9 {
            self.op_eor(true, value1, value2);
            None
        } else if op == 10 {
            self.op_sub(true, value1, value2);
            None
        } else if op == 11 {
            self.op_add(true, value1, value2);
            None
        } else if op == 12 {
            Some(self.op_orr(update_cond, value1, value2))
        } else if op == 13 {
            Some(self.op_mov(update_cond, value2))
        } else if op == 14 {
            Some(self.op_bic(update_cond, value1, value2))
        } else {
            Some(self.op_mvn(update_cond, value2))
        }
    }

    /// Data processing operations.
    #[verifier::spinoff_prover]
    #[verifier::rlimit(60)]
    pub fn execute_arm_data_processing<B: Bus>(&mut self, bus: &mut B, instr: u32)
        requires
            old(bus).ready(),
        ensures
            final(bus).ready(),
            (final(self)@, final(bus)@) == arm_data_processing::<B>(old(self)@, old(bus)@, instr),
    {
        reveal(arm_data_processing);
        let r_dst = r_index(instr, 12);
        let s = (instr >> 20u32) & 1 == 1;
        let update_cond = s && r_dst != PC_INDEX;
        let set_cpsr = s && r_dst == PC_INDEX;
        let old_carry = self.reg.cpsr.carry;
        let (value1, value2) = self.data_processing_operands(instr, update_cond);
        proof {
            lemma_and_le(instr >> 21u32, 0xf);
        }
        let op = (instr >> 21u32) & 0xf;
        let result = self.data_processing_op(op, update_cond, old_carry, value1, value2);
        match result {
            Some(v) => {
                self.reg.r[r_dst] = v;
            },
            None => {},
        }
        if set_cpsr && self.reg.cpsr.mode() != OperationMode::User {
            let spsr = self.reg.spsr();
            self.reg.set_cpsr(spsr);
        }
        if r_dst == PC_INDEX && !(8 <= op && op <= 11) {
            self.reload_pipeline(bus);
        }
    }
}

impl Cpu {
    fn long_multiply(&mut self, update_cond: bool, op: u32, a: u32, b: u32, accum: u64) -> (r: u64)
        requires
            op < 4,
        ensures
            r == long_product(op, a, b, accum),
            final(self)@ == old(self)@.with_cpsr(
                if update_cond {
                    nz_dword(old(self)@.cpsr(), r)
                } else {
                    old(self)@.cpsr()
                },
            ),
    {
        if op == 0 {
            self.op_umlal(update_cond, a, b, 0)
        } else if op == 1 {
            self.op_umlal(update_cond, a, b, accum)
        } else if op == 2 {
            self.op_smlal(update_cond, a as i32, b as i32, 0)
        } else {
            self.op_smlal(update_cond, a as i32, b as i32, accum as i64)
        }
    }

    /// Multiply and multiply-accumulate.
    pub fn execute_arm_multiply(&mut self, instr: u32)
        ensures
            final(self)@ == arm_multiply(old(self)@, instr),
    {
        reveal(arm_multiply);
        let update_cond = (instr >> 20u32) & 1 == 1;
        let r_dst_or_hi = r_index(instr, 16);
        let r_accum_or_lo = r_index(instr, 12);
        let value1 = self.reg.r[r_index(instr, 0)];
        let value2 = self.reg.r[r_index(instr, 8)];
        let accum1 = self.reg.r[r_accum_or_lo];
        let accum2 = self.reg.r[r_dst_or_hi];
        if (instr >> 23u32) & 1 == 1 {
            let accum_dword = (accum1 as u64) | ((accum2 as u64) << 32u64);
            proof {
                lemma_and_le(instr >> 21u32, 3);
            }
            let result = self.long_multiply(update_cond, (instr >> 21u32) & 3, value1, value2, accum_dword);
            let ghost c1 = self@;
            self.reg.r[r_accum_or_lo] = result as u32;
            self.reg.r[r_dst_or_hi] = (result >> 32u64) as u32;
            assert(self@ =~= c1.set_r(r_accum_or_lo as int, result as u32).set_r(r_dst_or_hi as int, (result >> 32u64) as u32));
        } else {
            let result = if (instr >> 21u32) & 1 == 1 {
                self.op_mla(update_cond, value1, value2, accum1)
            } else {
                self.op_mla(update_cond, value1, value2, 0)
            };
            let ghost c1 = self@;
            self.reg.r[r_dst_or_hi] = result;
            assert(self@ =~= c1.set_r(r_dst_or_hi as int, result));
        }
    }

    /// PSR transfer.
    pub fn execute_arm_psr_transfer(&mut self, instr: u32)
        ensures
            final(self)@ == arm_psr_transfer(old(self)@, instr),
    {
        let use_spsr = (instr >> 22u32) & 1 == 1;
        if (instr >> 21u32) & 1 == 1 {
            let value = if (instr >> 25u32) & 1 == 1 {
                proof {
                    lemma_and_le(instr >> 8u32, 0xf);
                }
                let amount = (2 * ((instr >> 8u32) & 0xf)) as u8;
                self.op_ror(false, false, instr & 0xff, amount)
            } else {
                self.reg.r[r_index(instr, 0)]
            };
            self.op_msr(use_spsr, (instr >> 19u32) & 1 == 1, (instr >> 16u32) & 1 == 1, value);
        } else {
            let value = if use_spsr {
                self.reg.spsr()
            } else {
                self.reg.cpsr.bits()
            };
            self.reg.r[r_index(instr, 12)] = value;
        }
    }

    /// Writes `value` to register `r`, refilling the pipeline when `r` is the PC.
    fn write_back<B: Bus>(&mut self, bus: &mut B, r: usize, value: u32)
        requires
            old(bus).ready(),
            r < 16,
        ensures
            final(bus).ready(),
            (final(self)@, final(bus)@) == written_back::<B>(old(self)@, old(bus)@, r as int, value),
    {
        self.reg.r[r] = value;
        if r == PC_INDEX {
            self.reload_pipeline(bus);
        }
    }

    fn store_value(&self, r: usize) -> (v: u32)
        requires
            r < 16,
        ensures
            v == store_value(self@, r as int),
    {
        if r == PC_INDEX {
            self.reg.r[r].wrapping_add(self.reg.cpsr.state.instr_size())
        } else {
            self.reg.r[r]
        }
    }

    fn write_back_base<B: Bus>(&mut self, bus: &mut B, instr: u32, final_addr: u32)
        requires
            old(bus).ready(),
        ensures
            final(bus).ready(),
            (final(self)@, final(bus)@) == base_written_back::<B>(
                old(self)@,
                old(bus)@,
                instr,
                final_addr,
            ),
    {
        let r_base_addr = r_index(instr, 16);
        let writeback = (instr >> 21u32) & 1 == 1;
        let preindex = (instr >> 24u32) & 1 == 1;
        let load = (instr >> 20u32) & 1 == 1;
        if (writeback || !preindex) && !(load && r_base_addr == r_index(instr, 12)) {
            self.write_back(bus, r_base_addr, final_addr);
        }
    }

    fn single_transfer_offset(&mut self, instr: u32) -> (r: u32)
        ensures
            r == single_transfer_offset(old(self)@, instr),
            final(self)@ == old(self)@,
    {
        if (instr >> 25u32) & 1 == 1 {
            proof {
                lemma_and_le(instr >> 7u32, 0x1f);
                lemma_and_le(instr >> 5u32, 3);
            }
            let shift_offset = ((instr >> 7u32) & 0x1f) as u8;
            let value = self.reg.r[r_index(instr, 0)];
            self.op_shift_operand(((instr >> 5u32) & 3) as u8, false, true, value, shift_offset)
        } else {
            instr & 0xfff
        }
    }

    fn single_access<B: Bus>(&mut self, bus: &mut B, instr: u32, addr: u32)
        requires
            old(bus).ready(),
        ensures
            final(bus).ready(),
            (final(self)@, final(bus)@) == single_access::<B>(old(self)@, old(bus)@, instr, addr),
    {
        let r_src_or_dst = r_index(instr, 12);
        let transfer_byte = (instr >> 22u32) & 1 == 1;
        if (instr >> 20u32) & 1 == 1 {
            let value = if transfer_byte {
                Self::op_ldrb_or_ldsb(bus, addr, false)
            } else {
                Self::op_ldr(bus, addr)
            };
            self.write_back(bus, r_src_or_dst, value);
        } else {
            let value = self.store_value(r_src_or_dst);
            if transfer_byte {
                Self::op_strb(bus, addr, (value & 0xff) as u8);
            } else {
                Self::op_str(bus, addr, value);
            }
        }
    }

    /// Single data transfer.
    pub fn execute_arm_single_transfer<B: Bus>(&mut self, bus: &mut B, instr: u32)
        requires
            old(bus).ready(),
        ensures
            final(bus).ready(),
            (final(self)@, final(bus)@) == arm_single_transfer::<B>(old(self)@, old(bus)@, instr),
    {
        reveal(arm_single_transfer);
        let preindex = (instr >> 24u32) & 1 == 1;
        let force_user = !preindex && (instr >> 21u32) & 1 == 1;
        let offset = self.single_transfer_offset(instr);
        let base_addr = self.reg.r[r_index(instr, 16)];
        let final_addr = if (instr >> 23u32) & 1 == 1 {
            base_addr.wrapping_add(offset)
        } else {
            base_addr.wrapping_sub(offset)
        };
        let transfer_addr = if preindex {
            final_addr
        } else {
            base_addr
        };
        let saved_mode = self.reg.cpsr.mode();
        if force_user {
            self.reg.change_mode(OperationMode::User);
        }
        self.single_access(bus, instr, transfer_addr);
        if force_user {
            self.reg.change_mode(saved_mode);
        }
        self.write_back_base(bus, instr, final_addr);
    }

    /// Half-word and signed data transfer.
    pub fn execute_arm_hword_and_signed_transfer<B: Bus>(&mut self, bus: &mut B, instr: u32)
        requires
            old(bus).ready(),
        ensures
            final(bus).ready(),
            (final(self)@, final(bus)@) == arm_hword_transfer::<B>(old(self)@, old(bus)@, instr),
    {
        reveal(arm_hword_transfer);
        let preindex = (instr >> 24u32) & 1 == 1;
        let load = (instr >> 20u32) & 1 == 1;
        let r_src_or_dst = r_index(instr, 12);
        let offset = if (instr >> 22u32) & 1 == 1 {
            (instr & 0xf) | (((instr >> 8u32) & 0xf) << 4u32)
        } else {
            self.reg.r[r_index(instr, 0)]
        };
        let base_addr = self.reg.r[r_index(instr, 16)];
        let final_addr = if (instr >> 23u32) & 1 == 1 {
            base_addr.wrapping_add(offset)
        } else {
            base_addr.wrapping_sub(offset)
        };
        let transfer_addr = if preindex {
            final_addr
        } else {
            base_addr
        };
        let op = (instr >> 5u32) & 3;
        if load {
            let value = if op == 0 {
                self.reg.r[r_src_or_dst]
            } else if op == 1 {
                Self::op_ldrh_or_ldsh(bus, transfer_addr, false)
            } else if op == 2 {
                Self::op_ldrb_or_ldsb(bus, transfer_addr, true)
            } else {
                Self::op_ldrh_or_ldsh(bus, transfer_addr, true)
            };
            self.write_back(bus, r_src_or_dst, value);
        } else {
            let value = self.store_value(r_src_or_dst);
            if op == 1 {
                Self::op_strh(bus, transfer_addr, (value & 0xffff) as u16);
            }
        }
        self.write_back_base(bus, instr, final_addr);
    }

    /// Block data transfer.
    pub fn execute_arm_block_transfer<B: Bus>(&mut self, bus: &mut B, instr: u32)
        requires
            old(bus).ready(),
        ensures
            final(bus).ready(),
            (final(self)@, final(bus)@) == arm_block_transfer::<B>(old(self)@, old(bus)@, instr),
    {
        let flags = BlockTransferFlags {
            preindex: (instr >> 24u32) & 1 == 1,
            ascend: (instr >> 23u32) & 1 == 1,
            load_psr_or_force_user: (instr >> 22u32) & 1 == 1,
            writeback: (instr >> 21u32) & 1 == 1,
        };
        let r_base_addr = r_index(instr, 16);
        let r_list = (instr & 0xffff) as u16;
        if (instr >> 20u32) & 1 == 1 {
            self.op_ldm(bus, &flags, r_base_addr, r_list);
        } else {
            self.op_stm(bus, &flags, r_base_addr, r_list);
        }
    }

    /// Single data swap.
    pub fn execute_arm_swap<B: Bus>(&mut self, bus: &mut B, instr: u32)
        requires
            old(bus).ready(),
        ensures
            final(bus).ready(),
            (final(self)@, final(bus)@) == arm_swap::<B>(old(self)@, old(bus)@, instr),
    {
        let base_addr = self.reg.r[r_index(instr, 16)];
        let value = self.reg.r[r_index(instr, 0)];
        let old_value = if (instr >> 22u32) & 1 == 1 {
            let old_value = bus.read_byte(base_addr);
            bus.write_byte(base_addr, (value & 0xff) as u8);
            old_value as u32
        } else {
            let old_value = Self::op_ldr(bus, base_addr);
            bus.write_word_aligned(base_addr, value);
            old_value
        };
        self.reg.r[r_index(instr, 12)] = old_value;
    }

    /// Executes the ARM instruction `instr`, if its condition holds.
    #[verifier::spinoff_prover]
    #[verifier::rlimit(60)]
    pub fn execute_arm<B: Bus>(&mut self, bus: &mut B, instr: u32)
        requires
            old(bus).ready(),
            old(self)@.cpsr().state == OperationState::Arm,
        ensures
            final(bus).ready(),
            (final(self)@, final(bus)@) == arm_executed::<B>(old(self)@, old(bus)@, instr),
    {
        reveal(arm_executed);
        proof {
            lemma_shr_28(instr);
        }
        if !self.meets_condition((instr >> 28u32) as u8) {
            return;
        }
        let i = instr & 0x0fff_ffff;
        if i & 0x0fff_ff00 == 0x012f_ff00 {
            self.execute_arm_bx(bus, instr);
        } else if i & 0x0fb0_0ff0 == 0x0100_0090 {
            self.execute_arm_swap(bus, instr);
        } else if i & 0x0f00_00f0 == 0x0000_0090 {
            self.execute_arm_multiply(instr);
        } else if i & 0x0e00_0090 == 0x0000_0090 {
            self.execute_arm_hword_and_signed_transfer(bus, instr);
        } else if i & 0x0d90_0000 == 0x0100_0000 {
            self.execute_arm_psr_transfer(instr);
        } else if i & 0x0f00_0000 == 0x0f00_0000 {
            self.enter_exception(bus, Exception::SoftwareInterrupt);
        } else if i & 0x0e00_0010 == 0x0600_0010 {
            self.enter_exception(bus, Exception::UndefinedInstr);
        } else if i & 0x0e00_0000 == 0x0800_0000 {
            self.execute_arm_block_transfer(bus, instr);
        } else if i & 0x0e00_0000 == 0x0a00_0000 {
            self.execute_arm_b_bl(bus, instr);
        } else if i & 0x0c00_0000 == 0 {
            self.execute_arm_data_processing(bus, instr);
        } else if i & 0x0c00_0000 == 0x0400_0000 {
            self.execute_arm_single_transfer(bus, instr);
        }
    }
}

} // verus!
