use vstd::prelude::*;

verus! {

/// Index of the stack pointer register.
pub const SP_INDEX: usize = 13;

/// Index of the link register.
pub const LR_INDEX: usize = 14;

/// Index of the program counter register.
pub const PC_INDEX: usize = 15;

/// The processor's operating mode, as encoded in the low 5 bits of a program status register.
#[derive(Default, Copy, Clone, PartialEq, Eq, Structural, Debug)]
pub enum OperationMode {
    User,
    FastInterrupt,
    Interrupt,
    #[default]
    Supervisor,
    Abort,
    UndefinedInstr,
    System,
}

impl OperationMode {
    /// The 5-bit encoding of the mode.
    pub open spec fn mode_bits(self) -> u32 {
        match self {
            OperationMode::User => 0b10000,
            OperationMode::FastInterrupt => 0b10001,
            OperationMode::Interrupt => 0b10010,
            OperationMode::Supervisor => 0b10011,
            OperationMode::Abort => 0b10111,
            OperationMode::UndefinedInstr => 0b11011,
            OperationMode::System => 0b11111,
        }
    }

    /// The mode whose encoding equals the low 5 bits of `bits`, if there is one.
    pub open spec fn mode_from_bits(bits: u32) -> Option<OperationMode> {
        let low = bits & 0x1f;
        if low == 0b10000 {
            Some(OperationMode::User)
        } else if low == 0b10001 {
            Some(OperationMode::FastInterrupt)
        } else if low == 0b10010 {
            Some(OperationMode::Interrupt)
        } else if low == 0b10011 {
            Some(OperationMode::Supervisor)
        } else if low == 0b10111 {
            Some(OperationMode::Abort)
        } else if low == 0b11011 {
            Some(OperationMode::UndefinedInstr)
        } else if low == 0b11111 {
            Some(OperationMode::System)
        } else {
            None
        }
    }

    /// Which register bank the mode uses; User and System share the unbanked registers.
    pub open spec fn bank_idx(self) -> usize {
        match self {
            OperationMode::User | OperationMode::System => 0,
            OperationMode::FastInterrupt => 1,
            OperationMode::Interrupt => 2,
            OperationMode::Supervisor => 3,
            OperationMode::Abort => 4,
            OperationMode::UndefinedInstr => 5,
        }
    }

    /// Whether the mode has a saved program status register.
    pub open spec fn spec_has_spsr(self) -> bool {
        self != OperationMode::User && self != OperationMode::System
    }

    pub fn bits(self) -> (r: u32)
        ensures
            r == self.mode_bits(),
    {
        match self {
            OperationMode::User => 0b10000,
            OperationMode::FastInterrupt => 0b10001,
            OperationMode::Interrupt => 0b10010,
            OperationMode::Supervisor => 0b10011,
            OperationMode::Abort => 0b10111,
            OperationMode::UndefinedInstr => 0b11011,
            OperationMode::System => 0b11111,
        }
    }

    pub fn from_bits(bits: u32) -> (r: Option<OperationMode>)
        ensures
            r == Self::mode_from_bits(bits),
    {
        let low = bits & 0x1f;
        if low == 0b10000 {
            Some(OperationMode::User)
        } else if low == 0b10001 {
            Some(OperationMode::FastInterrupt)
        } else if low == 0b10010 {
            Some(OperationMode::Interrupt)
        } else if low == 0b10011 {
            Some(OperationMode::Supervisor)
        } else if low == 0b10111 {
            Some(OperationMode::Abort)
        } else if low == 0b11011 {
            Some(OperationMode::UndefinedInstr)
        } else if low == 0b11111 {
            Some(OperationMode::System)
        } else {
            None
        }
    }

    pub fn has_spsr(self) -> (r: bool)
        ensures
            r == self.spec_has_spsr(),
    {
        !(self == OperationMode::User || self == OperationMode::System)
    }

    pub fn bank_index(self) -> (r: usize)
        ensures
            r == self.bank_idx(),
            r < 6,
    {
        match self {
            OperationMode::User | OperationMode::System => 0,
            OperationMode::FastInterrupt => 1,
            OperationMode::Interrupt => 2,
            OperationMode::Supervisor => 3,
            OperationMode::Abort => 4,
            OperationMode::UndefinedInstr => 5,
        }
    }
}

/// Decoding a mode's own encoding gives the mode back, and every successful decoding
/// gives a mode whose encoding is exactly the low 5 bits that were decoded.
pub proof fn lemma_mode_bits_round_trip(mode: OperationMode, bits: u32)
    ensures
        OperationMode::mode_from_bits(mode.mode_bits()) == Some(mode),
        OperationMode::mode_from_bits(bits) matches Some(m) ==> m.mode_bits() == bits & 0x1f,
        mode.mode_bits() & 0x1f == mode.mode_bits(),
{
    assert(0b10000u32 & 0x1f == 0b10000 && 0b10001u32 & 0x1f == 0b10001 && 0b10010u32 & 0x1f
        == 0b10010 && 0b10011u32 & 0x1f == 0b10011 && 0b10111u32 & 0x1f == 0b10111 && 0b11011u32
        & 0x1f == 0b11011 && 0b11111u32 & 0x1f == 0b11111) by (bit_vector);
}

/// The instruction set the processor executes: 32-bit ARM or 16-bit Thumb.
#[derive(Default, Copy, Clone, PartialEq, Eq, Structural, Debug)]
pub enum OperationState {
    #[default]
    Arm,
    Thumb,
}

impl OperationState {
    /// The encoding of the state in a program status register (the T bit, bit 5).
    pub open spec fn state_bits(self) -> u32 {
        match self {
            OperationState::Arm => 0,
            OperationState::Thumb => 0x20,
        }
    }

    /// The size in bytes of one instruction in this state.
    pub open spec fn size(self) -> u32 {
        match self {
            OperationState::Arm => 4,
            OperationState::Thumb => 2,
        }
    }

    /// The state selected by the T bit (bit 5) of `bits`.
    pub open spec fn state_from_bits(bits: u32) -> OperationState {
        if bits & 0x20 != 0 {
            OperationState::Thumb
        } else {
            OperationState::Arm
        }
    }

    pub fn from_bits(bits: u32) -> (r: Option<OperationState>)
        ensures
            r == Some(Self::state_from_bits(bits)),
    {
        if bits & 0x20 != 0 {
            Some(OperationState::Thumb)
        } else {
            Some(OperationState::Arm)
        }
    }

    pub fn bits(self) -> (r: u32)
        ensures
            r == self.state_bits(),
    {
        match self {
            OperationState::Arm => 0,
            OperationState::Thumb => 0x20,
        }
    }

    pub fn instr_size(self) -> (r: u32)
        ensures
            r == self.size(),
    {
        match self {
            OperationState::Arm => 4,
            OperationState::Thumb => 2,
        }
    }
}

/// A program status register: condition flags, interrupt masks, state and mode.
#[derive(Default, Copy, Clone, PartialEq, Eq, Structural, Debug)]
pub struct StatusRegister {
    pub signed: bool,
    pub zero: bool,
    pub carry: bool,
    pub overflow: bool,
    pub irq_disabled: bool,
    pub fiq_disabled: bool,
    pub state: OperationState,
    pub mode: OperationMode,
}

/// The word with exactly the given flag and control bits set.
pub open spec fn psr_word(
    signed: bool,
    zero: bool,
    carry: bool,
    overflow: bool,
    irq_disabled: bool,
    fiq_disabled: bool,
    state_bits: u32,
    mode_bits: u32,
) -> u32 {
    (if signed { 0x8000_0000u32 } else { 0u32 }) | (if zero { 0x4000_0000u32 } else { 0u32 }) | (
    if carry { 0x2000_0000u32 } else { 0u32 }) | (if overflow { 0x1000_0000u32 } else { 0u32 }) | (
    if irq_disabled { 0x80u32 } else { 0u32 }) | (if fiq_disabled { 0x40u32 } else { 0u32 })
        | state_bits | mode_bits
}

impl StatusRegister {
    /// The 32-bit encoding of the register.
    pub open spec fn psr_bits(self) -> u32 {
        psr_word(
            self.signed,
            self.zero,
            self.carry,
            self.overflow,
            self.irq_disabled,
            self.fiq_disabled,
            self.state.state_bits(),
            self.mode.mode_bits(),
        )
    }

    /// The register that a 32-bit encoding describes; an invalid mode reads as the
    /// undefined-instruction mode.
    pub open spec fn from_psr_bits(bits: u32) -> StatusRegister {
        StatusRegister {
            signed: bits & 0x8000_0000 != 0,
            zero: bits & 0x4000_0000 != 0,
            carry: bits & 0x2000_0000 != 0,
            overflow: bits & 0x1000_0000 != 0,
            irq_disabled: bits & 0x80 != 0,
            fiq_disabled: bits & 0x40 != 0,
            state: OperationState::state_from_bits(bits),
            mode: match OperationMode::mode_from_bits(bits) {
                Some(m) => m,
                None => OperationMode::UndefinedInstr,
            },
        }
    }

    /// The register with its condition flags taken from bits 28 to 31 of `bits`.
    pub open spec fn with_flags_from(self, bits: u32) -> StatusRegister {
        StatusRegister {
            signed: bits & 0x8000_0000 != 0,
            zero: bits & 0x4000_0000 != 0,
            carry: bits & 0x2000_0000 != 0,
            overflow: bits & 0x1000_0000 != 0,
            ..self
        }
    }

    /// The register with its interrupt masks and (if valid) mode taken from the low byte of
    /// `bits`.
    pub open spec fn with_control_from(self, bits: u32) -> StatusRegister {
        StatusRegister {
            irq_disabled: bits & 0x80 != 0,
            fiq_disabled: bits & 0x40 != 0,
            mode: match OperationMode::mode_from_bits(bits) {
                Some(m) => m,
                None => self.mode,
            },
            ..self
        }
    }

    pub fn mode(self) -> (r: OperationMode)
        ensures
            r == self.mode,
    {
        self.mode
    }

    pub fn bits(self) -> (r: u32)
        ensures
            r == self.psr_bits(),
    {
        (if self.signed { 0x8000_0000u32 } else { 0u32 }) | (if self.zero { 0x4000_0000u32 } else { 0u32 }) | (
        if self.carry { 0x2000_0000u32 } else { 0u32 }) | (if self.overflow { 0x1000_0000u32 } else { 0u32 }) | (
        if self.irq_disabled { 0x80u32 } else { 0u32 }) | (if self.fiq_disabled { 0x40u32 } else { 0u32 })
            | self.state.bits() | self.mode.bits()
    }

    pub fn from_bits(bits: u32) -> (r: StatusRegister)
        ensures
            r == Self::from_psr_bits(bits),
    {
        let state = match OperationState::from_bits(bits) {
            Some(s) => s,
            None => OperationState::Arm,
        };
        let mode = match OperationMode::from_bits(bits) {
            Some(m) => m,
            None => OperationMode::UndefinedInstr,
        };
        StatusRegister {
            signed: bits & 0x8000_0000 != 0,
            zero: bits & 0x4000_0000 != 0,
            carry: bits & 0x2000_0000 != 0,
            overflow: bits & 0x1000_0000 != 0,
            irq_disabled: bits & 0x80 != 0,
            fiq_disabled: bits & 0x40 != 0,
            state,
            mode,
        }
    }

    pub fn set_flags_from_bits(&mut self, bits: u32)
        ensures
            *final(self) == old(self).with_flags_from(bits),
    {
        self.signed = bits & 0x8000_0000 != 0;
        self.zero = bits & 0x4000_0000 != 0;
        self.carry = bits & 0x2000_0000 != 0;
        self.overflow = bits & 0x1000_0000 != 0;
    }

    /// Sets the interrupt masks and the mode from the low byte of `bits`; an invalid mode
    /// leaves the mode unchanged and is reported as an error.
    pub fn set_control_from_bits(&mut self, bits: u32) -> (r: Result<OperationMode, ()>)
        ensures
            *final(self) == old(self).with_control_from(bits),
            r == (match OperationMode::mode_from_bits(bits) {
                Some(m) => Ok::<OperationMode, ()>(m),
                None => Err(()),
            }),
    {
        self.irq_disabled = bits & 0x80 != 0;
        self.fiq_disabled = bits & 0x40 != 0;
        match OperationMode::from_bits(bits) {
            Some(m) => {
                self.mode = m;
                Ok(m)
            },
            None => Err(()),
        }
    }
}

proof fn lemma_psr_word_fields(
    signed: bool,
    zero: bool,
    carry: bool,
    overflow: bool,
    irq_disabled: bool,
    fiq_disabled: bool,
    state_bits: u32,
    mode_bits: u32,
)
    requires
        state_bits == 0 || state_bits == 0x20,
        mode_bits & 0x1f == mode_bits,
    ensures
        ({
            let w = psr_word(
                signed,
                zero,
                carry,
                overflow,
                irq_disabled,
                fiq_disabled,
                state_bits,
                mode_bits,
            );
            &&& (w & 0x8000_0000 != 0) == signed
            &&& (w & 0x4000_0000 != 0) == zero
            &&& (w & 0x2000_0000 != 0) == carry
            &&& (w & 0x1000_0000 != 0) == overflow
            &&& (w & 0x80 != 0) == irq_disabled
            &&& (w & 0x40 != 0) == fiq_disabled
            &&& (w & 0x20) == state_bits
            &&& (w & 0x1f) == mode_bits
        }),
{
    let a: u32 = if signed { 0x8000_0000u32 } else { 0u32 };
    let b: u32 = if zero { 0x4000_0000u32 } else { 0u32 };
    let c: u32 = if carry { 0x2000_0000u32 } else { 0u32 };
    let d: u32 = if overflow { 0x1000_0000u32 } else { 0u32 };
    let e: u32 = if irq_disabled { 0x80u32 } else { 0u32 };
    let f: u32 = if fiq_disabled { 0x40u32 } else { 0u32 };
    assert({
        let w = a | b | c | d | e | f | state_bits | mode_bits;
        &&& (w & 0x8000_0000 != 0) == (a != 0)
        &&& (w & 0x4000_0000 != 0) == (b != 0)
        &&& (w & 0x2000_0000 != 0) == (c != 0)
        &&& (w & 0x1000_0000 != 0) == (d != 0)
        &&& (w & 0x80 != 0) == (e != 0)
        &&& (w & 0x40 != 0) == (f != 0)
        &&& (w & 0x20) == state_bits
        &&& (w & 0x1f) == mode_bits
    }) by (bit_vector)
        requires
            a == 0 || a == 0x8000_0000,
            b == 0 || b == 0x4000_0000,
            c == 0 || c == 0x2000_0000,
            d == 0 || d == 0x1000_0000,
            e == 0 || e == 0x80,
            f == 0 || f == 0x40,
            state_bits == 0 || state_bits == 0x20,
            mode_bits & 0x1f == mode_bits,
    ;
}

/// Encoding a status register and decoding the result gives the same register back.
pub proof fn lemma_status_register_round_trip(psr: StatusRegister)
    ensures
        StatusRegister::from_psr_bits(psr.psr_bits()) == psr,
{
    lemma_mode_bits_round_trip(psr.mode, 0);
    lemma_psr_word_fields(
        psr.signed,
        psr.zero,
        psr.carry,
        psr.overflow,
        psr.irq_disabled,
        psr.fiq_disabled,
        psr.state.state_bits(),
        psr.mode.mode_bits(),
    );
}


/// The banked stack pointer, link register and saved status register of one mode.
#[derive(Default, Copy, Clone, PartialEq, Eq, Structural, Debug)]
pub struct Bank {
    pub sp: u32,
    pub lr: u32,
    pub spsr: u32,
}

/// The register file: the 16 visible registers, the current and saved status registers, and the
/// banks holding the registers of the modes that are not current.
#[derive(Default, Copy, Clone, Debug)]
pub struct Registers {
    pub r: [u32; 16],
    pub cpsr: StatusRegister,
    pub spsr: u32,
    pub banks: [Bank; 6],
    pub fiq_r8_12_bank: [u32; 5],
}

/// The mathematical model of a register file.
#[verifier::ext_equal]
pub struct RegisterFile {
    pub r: Seq<u32>,
    pub cpsr: StatusRegister,
    pub spsr: u32,
    pub banks: Seq<Bank>,
    pub fiq_r8_12_bank: Seq<u32>,
}

impl View for Registers {
    type V = RegisterFile;

    open spec fn view(&self) -> RegisterFile {
        RegisterFile {
            r: self.r@,
            cpsr: self.cpsr,
            spsr: self.spsr,
            banks: self.banks@,
            fiq_r8_12_bank: self.fiq_r8_12_bank@,
        }
    }
}

impl RegisterFile {
    /// The sizes that every register file has.
    pub open spec fn wf(self) -> bool {
        &&& self.r.len() == 16
        &&& self.banks.len() == 6
        &&& self.fiq_r8_12_bank.len() == 5
    }

    pub open spec fn set_r(self, i: int, v: u32) -> RegisterFile {
        RegisterFile { r: self.r.update(i, v), ..self }
    }

    pub open spec fn with_cpsr(self, cpsr: StatusRegister) -> RegisterFile {
        RegisterFile { cpsr, ..self }
    }

    pub open spec fn pc(self) -> u32 {
        self.r[PC_INDEX as int]
    }

    /// The registers after switching to the banks of `mode` (the current mode field itself is
    /// left unchanged). Entering or leaving FIQ mode also swaps R8-R12 with their FIQ copies.
    pub open spec fn changed_bank(self, mode: OperationMode) -> RegisterFile {
        let old_idx = self.cpsr.mode.bank_idx();
        let new_idx = mode.bank_idx();
        if old_idx == new_idx {
            self
        } else {
            let fiq = self.cpsr.mode == OperationMode::FastInterrupt || mode
                == OperationMode::FastInterrupt;
            let r = Seq::new(
                16,
                |i: int|
                    if fiq && 8 <= i < 13 {
                        self.fiq_r8_12_bank[i - 8]
                    } else {
                        self.r[i]
                    },
            );
            let fiq_bank = if fiq {
                self.r.subrange(8, 13)
            } else {
                self.fiq_r8_12_bank
            };
            let banks = self.banks.update(
                old_idx as int,
                Bank { sp: self.r[SP_INDEX as int], lr: self.r[LR_INDEX as int], spsr: self.spsr },
            );
            RegisterFile {
                r: r.update(SP_INDEX as int, banks[new_idx as int].sp).update(
                    LR_INDEX as int,
                    banks[new_idx as int].lr,
                ),
                cpsr: self.cpsr,
                spsr: banks[new_idx as int].spsr,
                banks,
                fiq_r8_12_bank: fiq_bank,
            }
        }
    }

    /// The registers after switching to `mode`.
    pub open spec fn changed_mode(self, mode: OperationMode) -> RegisterFile {
        let b = self.changed_bank(mode);
        b.with_cpsr(StatusRegister { mode, ..b.cpsr })
    }

    /// The registers with the PC aligned down to the current instruction size.
    pub open spec fn aligned_pc(self) -> RegisterFile {
        let pc = self.r[PC_INDEX as int];
        self.set_r(
            PC_INDEX as int,
            match self.cpsr.state {
                OperationState::Thumb => pc & !1u32,
                OperationState::Arm => pc & !3u32,
            },
        )
    }

    /// The registers with the PC advanced by one instruction.
    pub open spec fn advanced_pc(self) -> RegisterFile {
        self.set_r(
            PC_INDEX as int,
            self.r[PC_INDEX as int].wrapping_add(self.cpsr.state.size()),
        )
    }

    /// The registers after loading the CPSR from `bits` (switching banks as needed).
    pub open spec fn with_cpsr_bits(self, bits: u32) -> RegisterFile {
        let new_cpsr = StatusRegister::from_psr_bits(bits);
        self.changed_bank(new_cpsr.mode).with_cpsr(new_cpsr)
    }

    /// The value the SPSR reads as: the CPSR's in modes without an SPSR.
    pub open spec fn spsr_value(self) -> u32 {
        if self.cpsr.mode.spec_has_spsr() {
            self.spsr
        } else {
            self.cpsr.psr_bits()
        }
    }

    /// The registers after writing `bits` to the SPSR, which has no effect in modes without one.
    pub open spec fn with_spsr(self, bits: u32) -> RegisterFile {
        if self.cpsr.mode.spec_has_spsr() {
            RegisterFile { spsr: bits, ..self }
        } else {
            self
        }
    }
}

/// Switching to another mode and back restores the registers and the SPSR: the banked R13
/// and R14 (and, around FIQ mode, R8-R12) come back from their banks.
pub proof fn lemma_change_mode_round_trip(rf: RegisterFile, mode: OperationMode)
    requires
        rf.wf(),
    ensures
        rf.changed_mode(mode).changed_mode(rf.cpsr.mode).r == rf.r,
        rf.changed_mode(mode).changed_mode(rf.cpsr.mode).spsr == rf.spsr,
        rf.changed_mode(mode).changed_mode(rf.cpsr.mode).cpsr == rf.cpsr,
        rf.changed_mode(mode).changed_mode(rf.cpsr.mode).fiq_r8_12_bank == rf.fiq_r8_12_bank,
{
    let a = rf.changed_mode(mode);
    let b = a.changed_mode(rf.cpsr.mode);
    if rf.cpsr.mode.bank_idx() != mode.bank_idx() {
        assert(b.r =~= rf.r);
        assert(b.fiq_r8_12_bank =~= rf.fiq_r8_12_bank);
    } else {
        assert(b.r =~= rf.r);
    }
}

impl Registers {
    pub fn change_mode(&mut self, mode: OperationMode)
        ensures
            final(self)@ == old(self)@.changed_mode(mode),
    {
        self.change_bank(mode);
        self.cpsr.mode = mode;
    }

    fn change_bank(&mut self, mode: OperationMode)
        ensures
            final(self)@ == old(self)@.changed_bank(mode),
    {
        reveal(RegisterFile::changed_bank);
        let old_bank_idx = self.cpsr.mode.bank_index();
        let new_bank_idx = mode.bank_index();
        if old_bank_idx == new_bank_idx {
            return;
        }
        let ghost old_r = self.r@;
        let ghost old_fiq = self.fiq_r8_12_bank@;
        if self.cpsr.mode == OperationMode::FastInterrupt || mode == OperationMode::FastInterrupt {
            let mut i: usize = 0;
            while i < 5
                invariant
                    0 <= i <= 5,
                    self.r@.len() == 16,
                    self.fiq_r8_12_bank@.len() == 5,
                    self.banks@ == old(self).banks@,
                    self.spsr == old(self).spsr,
                    self.cpsr == old(self).cpsr,
                    old_fiq.len() == 5,
                    old_r.len() == 16,
                    forall|j: int| 8 <= j < 8 + i ==> #[trigger] self.r@[j] == old_fiq[j - 8],
                    forall|j: int| 0 <= j < i ==> #[trigger] self.fiq_r8_12_bank@[j] == old_r[j + 8],
                    forall|j: int| 8 + i <= j < 13 ==> #[trigger] self.r@[j] == old_r[j],
                    forall|j: int| i <= j < 5 ==> #[trigger] self.fiq_r8_12_bank@[j] == old_fiq[j],
                    forall|j: int| 0 <= j < 16 && !(8 <= j < 13) ==> self.r@[j] == old_r[j],
                decreases 5 - i,
            {
                let tmp = self.r[8 + i];
                self.r[8 + i] = self.fiq_r8_12_bank[i];
                self.fiq_r8_12_bank[i] = tmp;
                i = i + 1;
            }
            assert(self.fiq_r8_12_bank@ =~= old_r.subrange(8, 13));
        }
        let ghost fiq = old(self).cpsr.mode == OperationMode::FastInterrupt || mode
            == OperationMode::FastInterrupt;
        assert(self.r@ =~= Seq::new(
            16,
            |i: int|
                if fiq && 8 <= i < 13 {
                    old_fiq[i - 8]
                } else {
                    old_r[i]
                },
        ));
        let saved = Bank { sp: self.r[SP_INDEX], lr: self.r[LR_INDEX], spsr: self.spsr };
        self.banks[old_bank_idx] = saved;
        self.r[SP_INDEX] = self.banks[new_bank_idx].sp;
        self.r[LR_INDEX] = self.banks[new_bank_idx].lr;
        self.spsr = self.banks[new_bank_idx].spsr;
        proof {
            let expected = old(self)@.changed_bank(mode);
            assert(self.r@ =~= expected.r);
            assert(self.banks@ =~= expected.banks);
            assert(self.fiq_r8_12_bank@ =~= expected.fiq_r8_12_bank);
        }
    }

    pub fn align_pc(&mut self)
        ensures
            final(self)@ == old(self)@.aligned_pc(),
    {
        let mask = match self.cpsr.state {
            OperationState::Thumb => !1u32,
            OperationState::Arm => !3u32,
        };
        self.r[PC_INDEX] = self.r[PC_INDEX] & mask;
    }

    pub fn advance_pc(&mut self)
        ensures
            final(self)@ == old(self)@.advanced_pc(),
    {
        self.r[PC_INDEX] = self.r[PC_INDEX].wrapping_add(self.cpsr.state.instr_size());
    }

    pub fn set_cpsr(&mut self, bits: u32)
        ensures
            final(self)@ == old(self)@.with_cpsr_bits(bits),
    {
        let new_cpsr = StatusRegister::from_bits(bits);
        self.change_bank(new_cpsr.mode());
        self.cpsr = new_cpsr;
    }

    pub fn cpsr(&self) -> (r: &StatusRegister)
        ensures
            *r == self.cpsr,
    {
        &self.cpsr
    }

    pub fn set_spsr(&mut self, bits: u32)
        ensures
            final(self)@ == old(self)@.with_spsr(bits),
    {
        if self.cpsr.mode().has_spsr() {
            self.spsr = bits;
        }
    }

    pub fn spsr(&self) -> (r: u32)
        ensures
            r == self@.spsr_value(),
    {
        if self.cpsr.mode().has_spsr() {
            self.spsr
        } else {
            self.cpsr.bits()
        }
    }
}

} // verus!
