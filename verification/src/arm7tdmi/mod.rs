pub mod isa;
pub mod reg;

use vstd::prelude::*;

use crate::bus::{hword_read, word_read, Bus, BusExt};

use self::isa::arm::arm_executed;
use self::isa::thumb::thumb_executed;
use self::reg::{
    Bank, OperationMode, OperationState, RegisterFile, Registers, StatusRegister, LR_INDEX,
    PC_INDEX, SP_INDEX,
};

verus! {

/// 280,896 cycles per frame at ~59.737 Hz.
pub const CYCLES_PER_SECOND: u32 = 16_779_884;

/// The number of exception kinds.
pub const EXCEPTION_COUNT: usize = 7;

/// A processor exception, listed from the highest priority (serviced first) to the lowest.
#[derive(Copy, Clone, PartialEq, Eq, Structural, Debug)]
pub enum Exception {
    Reset,
    DataAbort,
    FastInterrupt,
    Interrupt,
    PrefetchAbort,
    SoftwareInterrupt,
    UndefinedInstr,
}

impl Exception {
    /// The priority of the exception: its position in the list (0 is serviced first).
    pub open spec fn spec_priority(self) -> usize {
        match self {
            Exception::Reset => 0,
            Exception::DataAbort => 1,
            Exception::FastInterrupt => 2,
            Exception::Interrupt => 3,
            Exception::PrefetchAbort => 4,
            Exception::SoftwareInterrupt => 5,
            Exception::UndefinedInstr => 6,
        }
    }

    /// The exception with priority `priority`, if any.
    pub open spec fn spec_from_priority(priority: usize) -> Option<Exception> {
        if priority == 0 {
            Some(Exception::Reset)
        } else if priority == 1 {
            Some(Exception::DataAbort)
        } else if priority == 2 {
            Some(Exception::FastInterrupt)
        } else if priority == 3 {
            Some(Exception::Interrupt)
        } else if priority == 4 {
            Some(Exception::PrefetchAbort)
        } else if priority == 5 {
            Some(Exception::SoftwareInterrupt)
        } else if priority == 6 {
            Some(Exception::UndefinedInstr)
        } else {
            None
        }
    }

    /// The address the processor jumps to when entering the exception.
    pub open spec fn spec_vector_addr(self) -> u32 {
        match self {
            Exception::Reset => 0x00,
            Exception::UndefinedInstr => 0x04,
            Exception::SoftwareInterrupt => 0x08,
            Exception::PrefetchAbort => 0x0c,
            Exception::DataAbort => 0x10,
            Exception::Interrupt => 0x18,
            Exception::FastInterrupt => 0x1c,
        }
    }

    /// What is added to the address of the current instruction to form the return address
    /// stored in LR on entry.
    pub open spec fn spec_return_addr_offset(self, state: OperationState) -> u32 {
        let (arm_offset, thumb_offset) = match self {
            Exception::Reset => (8u32, 4u32),
            Exception::DataAbort => (8u32, 8u32),
            Exception::FastInterrupt | Exception::Interrupt | Exception::PrefetchAbort => (
                4u32,
                4u32,
            ),
            Exception::SoftwareInterrupt | Exception::UndefinedInstr => (4u32, 2u32),
        };
        match state {
            OperationState::Arm => arm_offset,
            OperationState::Thumb => thumb_offset,
        }
    }

    /// The mode the processor enters with the exception.
    pub open spec fn spec_entry_mode(self) -> OperationMode {
        match self {
            Exception::Reset | Exception::SoftwareInterrupt => OperationMode::Supervisor,
            Exception::PrefetchAbort | Exception::DataAbort => OperationMode::Abort,
            Exception::Interrupt => OperationMode::Interrupt,
            Exception::FastInterrupt => OperationMode::FastInterrupt,
            Exception::UndefinedInstr => OperationMode::UndefinedInstr,
        }
    }

    /// Whether entering the exception masks fast interrupts.
    pub open spec fn spec_disables_fiq(self) -> bool {
        self == Exception::Reset || self == Exception::FastInterrupt
    }

    pub fn from_priority(priority: usize) -> (r: Option<Exception>)
        ensures
            r == Self::spec_from_priority(priority),
    {
        if priority == 0 {
            Some(Exception::Reset)
        } else if priority == 1 {
            Some(Exception::DataAbort)
        } else if priority == 2 {
            Some(Exception::FastInterrupt)
        } else if priority == 3 {
            Some(Exception::Interrupt)
        } else if priority == 4 {
            Some(Exception::PrefetchAbort)
        } else if priority == 5 {
            Some(Exception::SoftwareInterrupt)
        } else if priority == 6 {
            Some(Exception::UndefinedInstr)
        } else {
            None
        }
    }

    pub fn priority(self) -> (r: usize)
        ensures
            r == self.spec_priority(),
            r < EXCEPTION_COUNT,
    {
        match self {
            Exception::Reset => 0,
            Exception::DataAbort => 1,
            Exception::FastInterrupt => 2,
            Exception::Interrupt => 3,
            Exception::PrefetchAbort => 4,
            Exception::SoftwareInterrupt => 5,
            Exception::UndefinedInstr => 6,
        }
    }

    pub fn vector_addr(self) -> (r: u32)
        ensures
            r == self.spec_vector_addr(),
    {
        match self {
            Exception::Reset => 0x00,
            Exception::UndefinedInstr => 0x04,
            Exception::SoftwareInterrupt => 0x08,
            Exception::PrefetchAbort => 0x0c,
            Exception::DataAbort => 0x10,
            Exception::Interrupt => 0x18,
            Exception::FastInterrupt => 0x1c,
        }
    }

    pub fn return_addr_offset(self, state: OperationState) -> (r: u32)
        ensures
            r == self.spec_return_addr_offset(state),
    {
        let (arm_offset, thumb_offset) = match self {
            Exception::Reset => (8u32, 4u32),
            Exception::DataAbort => (8u32, 8u32),
            Exception::FastInterrupt | Exception::Interrupt | Exception::PrefetchAbort => (
                4u32,
                4u32,
            ),
            Exception::SoftwareInterrupt | Exception::UndefinedInstr => (4u32, 2u32),
        };
        match state {
            OperationState::Arm => arm_offset,
            OperationState::Thumb => thumb_offset,
        }
    }

    pub fn entry_mode(self) -> (r: OperationMode)
        ensures
            r == self.spec_entry_mode(),
    {
        match self {
            Exception::Reset | Exception::SoftwareInterrupt => OperationMode::Supervisor,
            Exception::PrefetchAbort | Exception::DataAbort => OperationMode::Abort,
            Exception::Interrupt => OperationMode::Interrupt,
            Exception::FastInterrupt => OperationMode::FastInterrupt,
            Exception::UndefinedInstr => OperationMode::UndefinedInstr,
        }
    }

    pub fn disables_fiq(self) -> (r: bool)
        ensures
            r == self.spec_disables_fiq(),
    {
        self == Exception::Reset || self == Exception::FastInterrupt
    }
}

/// An exception's priority identifies it: looking the priority up gives the exception back,
/// and exactly the priorities below `EXCEPTION_COUNT` name an exception.
pub proof fn lemma_exception_priority_round_trip(exception: Exception, priority: usize)
    ensures
        Exception::spec_from_priority(exception.spec_priority()) == Some(exception),
        exception.spec_priority() < EXCEPTION_COUNT,
        Exception::spec_from_priority(priority) is Some <==> priority < EXCEPTION_COUNT,
        Exception::spec_from_priority(priority) matches Some(e) ==> e.spec_priority() == priority,
{
}

/// The ARM7TDMI processor: its registers, its two-instruction prefetch pipeline and the
/// exceptions raised but not yet serviced.
#[derive(Copy, Clone, Debug)]
pub struct Cpu {
    pub reg: Registers,
    pub pipeline_instrs: [u32; 2],
    pub pipeline_reloaded: bool,
    pub pending_exceptions: [bool; 7],
}

/// The mathematical model of the processor.
#[verifier::ext_equal]
pub struct CpuModel {
    pub reg: RegisterFile,
    pub pipeline: Seq<u32>,
    pub reloaded: bool,
    pub pending: Seq<bool>,
}

impl View for Cpu {
    type V = CpuModel;

    open spec fn view(&self) -> CpuModel {
        CpuModel {
            reg: self.reg@,
            pipeline: self.pipeline_instrs@,
            reloaded: self.pipeline_reloaded,
            pending: self.pending_exceptions@,
        }
    }
}

impl CpuModel {
    pub open spec fn with_reg(self, reg: RegisterFile) -> CpuModel {
        CpuModel { reg, ..self }
    }

    pub open spec fn set_r(self, i: int, v: u32) -> CpuModel {
        self.with_reg(self.reg.set_r(i, v))
    }

    pub open spec fn with_cpsr(self, cpsr: StatusRegister) -> CpuModel {
        self.with_reg(self.reg.with_cpsr(cpsr))
    }

    pub open spec fn r(self, i: int) -> u32 {
        self.reg.r[i]
    }

    pub open spec fn cpsr(self) -> StatusRegister {
        self.reg.cpsr
    }
}

/// The instruction fetched at the PC (announcing the prefetch to the bus first), and the bus
/// state after fetching it.
pub open spec fn fetch<B: Bus>(cpu: CpuModel, bus: B::V) -> (B::V, u32) {
    let pc = cpu.reg.pc();
    let b1 = B::after_prefetch(bus, pc);
    match cpu.reg.cpsr.state {
        OperationState::Thumb => {
            let (b2, h) = hword_read::<B>(b1, pc);
            (b2, h as u32)
        },
        OperationState::Arm => word_read::<B>(b1, pc),
    }
}

/// The processor after refilling its pipeline: the PC is aligned, the instructions at PC and
/// PC + one instruction are fetched, and the PC ends two instructions ahead.
#[verifier::opaque]
pub open spec fn reloaded<B: Bus>(cpu: CpuModel, bus: B::V) -> (CpuModel, B::V) {
    let c1 = cpu.with_reg(cpu.reg.aligned_pc());
    let (b1, first) = fetch::<B>(c1, bus);
    let c2 = c1.with_reg(c1.reg.advanced_pc());
    let (b2, second) = fetch::<B>(c2, b1);
    let c3 = c2.with_reg(c2.reg.advanced_pc());
    (CpuModel { pipeline: seq![first, second], reloaded: true, ..c3 }, b2)
}

/// Entering `exception`: refused (returning false, nothing changed) when it is a masked
/// interrupt; otherwise the processor switches to the exception's mode, masks interrupts, enters
/// ARM state, saves the return address in LR and the old CPSR in the SPSR, and jumps to the
/// exception's vector.
pub open spec fn entered_exception<B: Bus>(cpu: CpuModel, bus: B::V, exception: Exception) -> (
    bool,
    CpuModel,
    B::V,
) {
    if (cpu.reg.cpsr.irq_disabled && exception == Exception::Interrupt) || (
    cpu.reg.cpsr.fiq_disabled && exception == Exception::FastInterrupt) {
        (false, cpu, bus)
    } else {
        let old_cpsr = cpu.reg.cpsr;
        let r1 = cpu.reg.changed_mode(exception.spec_entry_mode());
        let r2 = r1.with_cpsr(
            StatusRegister {
                fiq_disabled: r1.cpsr.fiq_disabled || exception.spec_disables_fiq(),
                irq_disabled: true,
                state: OperationState::Arm,
                ..r1.cpsr
            },
        );
        let base_pc = cpu.reg.pc().wrapping_sub((2 * old_cpsr.state.size()) as u32);
        let r3 = r2.set_r(
            LR_INDEX as int,
            base_pc.wrapping_add(exception.spec_return_addr_offset(old_cpsr.state)),
        );
        let r4 = r3.with_spsr(old_cpsr.psr_bits());
        let r5 = r4.set_r(PC_INDEX as int, exception.spec_vector_addr());
        let (c, b) = reloaded::<B>(cpu.with_reg(r5), bus);
        (true, c, b)
    }
}

/// The processor and bus after a reset: pending exceptions are cleared and the Reset exception
/// is entered. When skipping the BIOS, the registers are then set up as the BIOS leaves them:
/// R0-R12 zero, interrupts enabled, the Supervisor and IRQ stacks and LRs set, and execution
/// starting at the cartridge (0x0800_0000) in System mode.
#[verifier::opaque]
pub open spec fn reset_state<B: Bus>(cpu: CpuModel, bus: B::V, skip_bios: bool) -> (
    CpuModel,
    B::V,
) {
    let c0 = CpuModel { pending: Seq::new(EXCEPTION_COUNT as nat, |i: int| false), ..cpu };
    let (_, c1, b1) = entered_exception::<B>(c0, bus, Exception::Reset);
    if !skip_bios {
        (c1, b1)
    } else {
        let r1 = RegisterFile {
            r: Seq::new(
                16,
                |i: int|
                    if i <= 12 {
                        0u32
                    } else {
                        c1.reg.r[i]
                    },
            ),
            cpsr: StatusRegister { irq_disabled: false, fiq_disabled: false, ..c1.reg.cpsr },
            ..c1.reg
        };
        let r2 = r1.changed_mode(OperationMode::Supervisor).set_r(SP_INDEX as int, 0x0300_7fe0).set_r(
            LR_INDEX as int,
            0,
        ).with_spsr(0);
        let r3 = r2.changed_mode(OperationMode::Interrupt).set_r(SP_INDEX as int, 0x0300_7fa0).set_r(
            LR_INDEX as int,
            0,
        ).with_spsr(0);
        let r4 = r3.changed_mode(OperationMode::System).set_r(SP_INDEX as int, 0x0300_7f00).set_r(
            PC_INDEX as int,
            0x0800_0000,
        );
        reloaded::<B>(c1.with_reg(r4), b1)
    }
}

/// Servicing the pending exceptions from priority `p` on: each pending one is cleared in turn
/// and entered; the first that is entered ends the search (`true`). A masked interrupt is
/// cleared without being entered.
pub open spec fn serviced<B: Bus>(cpu: CpuModel, bus: B::V, p: nat) -> (bool, CpuModel, B::V)
    decreases EXCEPTION_COUNT - p,
{
    if p >= EXCEPTION_COUNT {
        (false, cpu, bus)
    } else {
        let c0 = CpuModel { pending: cpu.pending.update(p as int, false), ..cpu };
        if cpu.pending[p as int] {
            let (entered, c1, b1) = entered_exception::<B>(
                c0,
                bus,
                Exception::spec_from_priority(p as usize).unwrap(),
            );
            if entered {
                (true, c1, b1)
            } else {
                serviced::<B>(c1, b1, p + 1)
            }
        } else {
            serviced::<B>(c0, bus, p + 1)
        }
    }
}

/// One step of the processor: service the highest-priority pending exception that can be
/// entered; otherwise execute the instruction at the head of the pipeline (fetching the next
/// one behind it) and, unless it refilled the pipeline, move the PC on by one instruction.
#[verifier::opaque]
pub open spec fn stepped<B: Bus>(cpu: CpuModel, bus: B::V) -> (CpuModel, B::V) {
    let (done, c1, b1) = serviced::<B>(cpu, bus, 0);
    if done {
        (c1, b1)
    } else {
        executed_next::<B>(c1, b1)
    }
}

/// Executing the instruction at the head of the pipeline, fetching the next one behind it,
/// and, unless the instruction refilled the pipeline, moving the PC on by one instruction.
pub open spec fn executed_next<B: Bus>(cpu: CpuModel, bus: B::V) -> (CpuModel, B::V) {
    let instr = cpu.pipeline[0];
    let (b2, next) = fetch::<B>(cpu, bus);
    let c2 = CpuModel { pipeline: seq![cpu.pipeline[1], next], reloaded: false, ..cpu };
    let (c3, b3) = match c2.reg.cpsr.state {
        OperationState::Arm => arm_executed::<B>(c2, b2, instr),
        OperationState::Thumb => thumb_executed::<B>(c2, b2, (instr & 0xffff) as u16),
    };
    if c3.reloaded {
        (c3, b3)
    } else {
        (c3.with_reg(c3.reg.aligned_pc().advanced_pc()), b3)
    }
}

/// The register file after a reset.
pub open spec fn initial_registers() -> RegisterFile {
    RegisterFile {
        r: Seq::new(16, |i: int| 0u32),
        cpsr: initial_cpsr(),
        spsr: 0,
        banks: Seq::new(6, |i: int| Bank { sp: 0, lr: 0, spsr: 0 }),
        fiq_r8_12_bank: Seq::new(5, |i: int| 0u32),
    }
}

pub open spec fn initial_cpsr() -> StatusRegister {
    StatusRegister {
        signed: false,
        zero: false,
        carry: false,
        overflow: false,
        irq_disabled: false,
        fiq_disabled: false,
        state: OperationState::Arm,
        mode: OperationMode::Supervisor,
    }
}

impl Registers {
    /// Registers with every register zero, in Supervisor mode and ARM state.
    pub fn new() -> (r: Registers)
        ensures
            r@ == initial_registers(),
    {
        let b = Bank { sp: 0, lr: 0, spsr: 0 };
        let r = Registers {
            r: [0u32; 16],
            cpsr: StatusRegister {
                signed: false,
                zero: false,
                carry: false,
                overflow: false,
                irq_disabled: false,
                fiq_disabled: false,
                state: OperationState::Arm,
                mode: OperationMode::Supervisor,
            },
            spsr: 0,
            banks: [b, b, b, b, b, b],
            fiq_r8_12_bank: [0u32; 5],
        };
        assert(r.r@ =~= Seq::new(16, |i: int| 0u32));
        assert(r.banks@ =~= Seq::new(6, |i: int| Bank { sp: 0, lr: 0, spsr: 0 }));
        assert(r.fiq_r8_12_bank@ =~= Seq::new(5, |i: int| 0u32));
        r
    }
}

impl Cpu {
    /// The processor at power-on: registers as `Registers::new` makes them, an empty pipeline
    /// and no pending exception.
    pub open spec fn new_model() -> CpuModel {
        CpuModel {
            reg: initial_registers(),
            pipeline: seq![0u32, 0u32],
            reloaded: false,
            pending: Seq::new(7, |i: int| false),
        }
    }

    pub fn new() -> (r: Cpu)
        ensures
            r@ == Cpu::new_model(),
    {
        let r = Cpu {
            reg: Registers::new(),
            pipeline_instrs: [0u32; 2],
            pipeline_reloaded: false,
            pending_exceptions: [false; 7],
        };
        assert(r.pipeline_instrs@ =~= seq![0u32, 0u32]);
        assert(r.pending_exceptions@ =~= Seq::new(7, |i: int| false));
        r
    }

    fn prefetch_instr<B: Bus>(&self, bus: &mut B) -> (r: u32)
        requires
            old(bus).ready(),
        ensures
            final(bus).ready(),
            (final(bus)@, r) == fetch::<B>(self@, old(bus)@),
    {
        let pc = self.reg.r[PC_INDEX];
        bus.prefetch_instr(pc);
        match self.reg.cpsr.state {
            OperationState::Thumb => bus.read_hword(pc) as u32,
            OperationState::Arm => bus.read_word(pc),
        }
    }

    /// Refills the pipeline from the (aligned) PC, leaving the PC two instructions ahead.
    pub fn reload_pipeline<B: Bus>(&mut self, bus: &mut B)
        requires
            old(bus).ready(),
        ensures
            final(bus).ready(),
            (final(self)@, final(bus)@) == reloaded::<B>(old(self)@, old(bus)@),
    {
        reveal(reloaded);
        self.reg.align_pc();
        let first = self.prefetch_instr(bus);
        self.pipeline_instrs[0] = first;
        self.reg.advance_pc();
        let second = self.prefetch_instr(bus);
        self.pipeline_instrs[1] = second;
        self.reg.advance_pc();
        self.pipeline_reloaded = true;
        assert(self.pipeline_instrs@ =~= seq![first, second]);
    }

    /// Resets the processor by entering the Reset exception; with `skip_bios`, the registers are
    /// then set up as the BIOS would leave them and execution starts at the cartridge.
    pub fn reset<B: Bus>(&mut self, bus: &mut B, skip_bios: bool)
        requires
            old(bus).ready(),
        ensures
            final(bus).ready(),
            (final(self)@, final(bus)@) == reset_state::<B>(old(self)@, old(bus)@, skip_bios),
    {
        reveal(reset_state);
        self.pending_exceptions = [false; 7];
        assert(self.pending_exceptions@ =~= Seq::new(EXCEPTION_COUNT as nat, |i: int| false));
        self.enter_exception(bus, Exception::Reset);
        if skip_bios {
            let ghost c1 = self@;
            let mut i: usize = 0;
            while i <= 12
                invariant
                    bus.ready(),
                    i <= 13,
                    self@ == (CpuModel {
                        reg: RegisterFile {
                            r: Seq::new(
                                16,
                                |j: int|
                                    if j < i {
                                        0u32
                                    } else {
                                        c1.reg.r[j]
                                    },
                            ),
                            ..c1.reg
                        },
                        ..c1
                    }),
                    c1.reg.r.len() == 16,
                decreases 13 - i,
            {
                let ghost before = self.reg.r@;
                self.reg.r[i] = 0;
                assert(self.reg.r@ =~= Seq::new(
                    16,
                    |j: int|
                        if j < i + 1 {
                            0u32
                        } else {
                            c1.reg.r[j]
                        },
                ));
                i = i + 1;
            }
            self.reg.cpsr.irq_disabled = false;
            self.reg.cpsr.fiq_disabled = false;
            assert(self.reg.r@ =~= Seq::new(
                16,
                |j: int|
                    if j <= 12 {
                        0u32
                    } else {
                        c1.reg.r[j]
                    },
            ));
            self.reg.change_mode(OperationMode::Supervisor);
            self.reg.r[SP_INDEX] = 0x0300_7fe0;
            self.reg.r[LR_INDEX] = 0;
            self.reg.set_spsr(0);
            self.reg.change_mode(OperationMode::Interrupt);
            self.reg.r[SP_INDEX] = 0x0300_7fa0;
            self.reg.r[LR_INDEX] = 0;
            self.reg.set_spsr(0);
            self.reg.change_mode(OperationMode::System);
            self.reg.r[SP_INDEX] = 0x0300_7f00;
            self.reg.r[PC_INDEX] = 0x0800_0000;
            self.reload_pipeline(bus);
        }
    }

    /// Services the highest-priority pending exception that can be entered, or else executes
    /// the next instruction.
    pub fn step<B: Bus>(&mut self, bus: &mut B)
        requires
            old(bus).ready(),
        ensures
            final(bus).ready(),
            (final(self)@, final(bus)@) == stepped::<B>(old(self)@, old(bus)@),
    {
        reveal(stepped);
        let mut priority: usize = 0;
        while priority < EXCEPTION_COUNT
            invariant
                bus.ready(),
                priority <= EXCEPTION_COUNT,
                serviced::<B>(self@, bus@, priority as nat) == serviced::<B>(
                    old(self)@,
                    old(bus)@,
                    0,
                ),
            decreases EXCEPTION_COUNT - priority,
        {
            let ghost c_pre = self@;
            let ghost b_pre = bus@;
            let raised = self.pending_exceptions[priority];
            self.pending_exceptions[priority] = false;
            proof {
                lemma_exception_priority_round_trip(Exception::Reset, priority);
            }
            let exception = match Exception::from_priority(priority) {
                Some(e) => e,
                None => Exception::Reset,
            };
            assert(exception == Exception::spec_from_priority(priority).unwrap());
            assert(self@ =~= CpuModel {
                pending: c_pre.pending.update(priority as int, false),
                ..c_pre
            });
            if raised {
                let entered = self.enter_exception(bus, exception);
                if entered {
                    assert(serviced::<B>(c_pre, b_pre, priority as nat) == (true, self@, bus@));
                    proof {
                        reveal(stepped);
                    }
                    return;
                }
            }
            priority = priority + 1;
        }
        assert(serviced::<B>(self@, bus@, EXCEPTION_COUNT as nat) == (false, self@, bus@));
        self.execute_next(bus);
    }

    fn execute_next<B: Bus>(&mut self, bus: &mut B)
        requires
            old(bus).ready(),
        ensures
            final(bus).ready(),
            (final(self)@, final(bus)@) == executed_next::<B>(old(self)@, old(bus)@),
    {
        let instr = self.pipeline_instrs[0];
        self.pipeline_instrs[0] = self.pipeline_instrs[1];
        let next = self.prefetch_instr(bus);
        self.pipeline_instrs[1] = next;
        self.pipeline_reloaded = false;
        assert(self.pipeline_instrs@ =~= seq![old(self)@.pipeline[1], next]);
        match self.reg.cpsr.state {
            OperationState::Arm => self.execute_arm(bus, instr),
            OperationState::Thumb => self.execute_thumb(bus, (instr & 0xffff) as u16),
        }
        if !self.pipeline_reloaded {
            self.reg.align_pc();
            self.reg.advance_pc();
        }
    }

    /// Marks `exception` as pending; it is serviced by a later `step`.
    pub fn raise_exception(&mut self, exception: Exception)
        ensures
            final(self)@ == (CpuModel {
                pending: old(self)@.pending.update(exception.spec_priority() as int, true),
                ..old(self)@
            }),
    {
        let p = exception.priority();
        self.pending_exceptions[p] = true;
    }

    /// Enters `exception` unless it is a masked interrupt; returns whether it was entered.
    pub fn enter_exception<B: Bus>(&mut self, bus: &mut B, exception: Exception) -> (r: bool)
        requires
            old(bus).ready(),
        ensures
            final(bus).ready(),
            (r, final(self)@, final(bus)@) == entered_exception::<B>(
                old(self)@,
                old(bus)@,
                exception,
            ),
    {
        if (self.reg.cpsr.irq_disabled && exception == Exception::Interrupt) || (
        self.reg.cpsr.fiq_disabled && exception == Exception::FastInterrupt) {
            return false;
        }
        let ghost c0 = self@;
        let old_cpsr = self.reg.cpsr;
        let base_pc = self.reg.r[PC_INDEX].wrapping_sub(2 * old_cpsr.state.instr_size());
        self.reg.change_mode(exception.entry_mode());
        let ghost r1 = self.reg@;
        let mut cpsr = self.reg.cpsr;
        cpsr.fiq_disabled = cpsr.fiq_disabled || exception.disables_fiq();
        cpsr.irq_disabled = true;
        cpsr.state = OperationState::Arm;
        self.reg.cpsr = cpsr;
        let ghost r2 = self.reg@;
        assert(r2 =~= r1.with_cpsr(cpsr));
        self.reg.r[LR_INDEX] = base_pc.wrapping_add(exception.return_addr_offset(old_cpsr.state));
        let ghost r3 = self.reg@;
        assert(r3 =~= r2.set_r(LR_INDEX as int, base_pc.wrapping_add(exception.spec_return_addr_offset(old_cpsr.state))));
        self.reg.set_spsr(old_cpsr.bits());
        self.reg.r[PC_INDEX] = exception.vector_addr();
        let ghost r5 = self.reg@;
        assert(r5 =~= r3.with_spsr(old_cpsr.psr_bits()).set_r(PC_INDEX as int, exception.spec_vector_addr()));
        assert(self@ =~= c0.with_reg(r5));
        self.reload_pipeline(bus);
        true
    }
}

} // verus!
