//! The processor: the banked register file and the executor.
use crate::cpu::cond::{condition_holds, condition_passes, flags_after_move, move_flags};
use crate::cpu::opcode::{
    condition_field, condition_of, decode, rotate_amount, rotation_of, sets_flags, updates_flags,
    Op, OP_SIZE,
};
use crate::fault::Fault;
use crate::mem::{read_from, read_word, word_of_bytes, Memory};
use vstd::prelude::*;

pub mod cond;
pub mod laws;
pub mod opcode;

verus! {

/// Logical index of the stack pointer.
pub const REG_SP: usize = 13;

/// Logical index of the link register.
pub const REG_LR: usize = 14;

/// Logical index of the program counter.
pub const REG_PC: usize = 15;

/// Number of logical registers visible in every mode.
pub const REG_COUNT: usize = 16;

/// Number of mode-independent general registers, `r0` to `r7`.
pub const GENERAL_COUNT: usize = 8;

/// Number of register banks, one per mode.
pub const MODE_COUNT: usize = 7;

/// Bank of System mode.
pub const MODE_SYS: usize = 0;

/// Bank of Fiq mode.
pub const MODE_FIQ: usize = 1;

/// Bank of Supervisor mode.
pub const MODE_SVC: usize = 2;

/// Bank of User mode, which no register resolves to.
pub const MODE_USR: usize = 3;

/// Bank of Abort mode.
pub const MODE_ABT: usize = 4;

/// Bank of Irq mode.
pub const MODE_IRQ: usize = 5;

/// Bank of Undefined mode.
pub const MODE_UND: usize = 6;

/// Operating mode of the processor.
///
/// User shares every register with System. It is a mode of its own all the
/// same, with its own saved status register.
#[derive(Clone, Copy, Debug, PartialEq, Eq, Structural)]
pub enum Mode {
    System,
    Fiq,
    Supervisor,
    User,
    Abort,
    Irq,
    Undefined,
}

impl Mode {
    /// The bank that belongs to the mode.
    pub open spec fn bank(self) -> int {
        match self {
            Mode::System => MODE_SYS as int,
            Mode::Fiq => MODE_FIQ as int,
            Mode::Supervisor => MODE_SVC as int,
            Mode::User => MODE_USR as int,
            Mode::Abort => MODE_ABT as int,
            Mode::Irq => MODE_IRQ as int,
            Mode::Undefined => MODE_UND as int,
        }
    }

    /// Whether logical register `reg` has storage of its own in this mode.
    ///
    /// Fiq keeps `r8` to `r14` to itself; Supervisor, Abort, Irq and
    /// Undefined keep `r13` and `r14`; System and User keep nothing.
    pub open spec fn keeps_private(self, reg: int) -> bool {
        match self {
            Mode::System | Mode::User => false,
            Mode::Fiq => 8 <= reg <= 14,
            Mode::Supervisor | Mode::Abort | Mode::Irq | Mode::Undefined => 13 <= reg <= 14,
        }
    }

    /// The bank that holds logical register `reg`, for `reg` in `8..16`,
    /// when the processor is in this mode.
    pub open spec fn bank_of(self, reg: int) -> int {
        if self.keeps_private(reg) {
            self.bank()
        } else {
            Mode::System.bank()
        }
    }

    /// The index of the mode's bank.
    pub fn index(self) -> (i: usize)
        ensures
            i == self.bank(),
            i < MODE_COUNT,
    {
        match self {
            Mode::System => MODE_SYS,
            Mode::Fiq => MODE_FIQ,
            Mode::Supervisor => MODE_SVC,
            Mode::User => MODE_USR,
            Mode::Abort => MODE_ABT,
            Mode::Irq => MODE_IRQ,
            Mode::Undefined => MODE_UND,
        }
    }

    /// Tells whether logical register `reg` has storage of its own in this mode.
    pub fn is_private(self, reg: usize) -> (b: bool)
        ensures
            b == self.keeps_private(reg as int),
    {
        match self {
            Mode::System | Mode::User => false,
            Mode::Fiq => 8 <= reg && reg <= 14,
            Mode::Supervisor | Mode::Abort | Mode::Irq | Mode::Undefined => 13 <= reg && reg
                <= 14,
        }
    }

    /// The index of the bank that holds logical register `reg` in this mode.
    pub fn bank_index(self, reg: usize) -> (i: usize)
        ensures
            i == self.bank_of(reg as int),
            i < MODE_COUNT,
    {
        if self.is_private(reg) {
            self.index()
        } else {
            MODE_SYS
        }
    }
}

/// The register file as a mathematical value: what [`CPUState`] stands for.
#[verifier::ext_equal]
pub struct RegisterFile {
    /// The active mode.
    pub mode: Mode,
    /// The eight general registers `r0` to `r7`.
    pub general: Seq<u32>,
    /// Seven banks of sixteen slots; slot `i` of a bank stands for `r`*i*.
    pub banks: Seq<Seq<u32>>,
    /// The current program status register.
    pub cpsr: u32,
    /// One saved program status register per bank.
    pub spsr: Seq<u32>,
}

impl RegisterFile {
    /// The shape every register file has.
    pub open spec fn well_formed(self) -> bool {
        &&& self.general.len() == GENERAL_COUNT
        &&& self.banks.len() == MODE_COUNT
        &&& forall|b: int| 0 <= b < MODE_COUNT ==> (#[trigger] self.banks[b]).len() == REG_COUNT
        &&& self.spsr.len() == MODE_COUNT
    }

    /// The register file after a reset: everything zero, mode System.
    pub open spec fn zeroed() -> RegisterFile {
        RegisterFile {
            mode: Mode::System,
            general: Seq::new(GENERAL_COUNT as nat, |i: int| 0u32),
            banks: Seq::new(
                MODE_COUNT as nat,
                |b: int| Seq::new(REG_COUNT as nat, |i: int| 0u32),
            ),
            cpsr: 0,
            spsr: Seq::new(MODE_COUNT as nat, |b: int| 0u32),
        }
    }

    /// The register file with the bank and the saved status register of
    /// `mode` zeroed.
    pub open spec fn reset_mode(self, mode: Mode) -> RegisterFile {
        RegisterFile {
            banks: self.banks.update(mode.bank(), Seq::new(REG_COUNT as nat, |i: int| 0u32)),
            spsr: self.spsr.update(mode.bank(), 0),
            ..self
        }
    }

    /// The register file a reset leaves behind, whatever it was before.
    pub open spec fn reset(self) -> RegisterFile {
        RegisterFile::zeroed()
    }

    /// The value of logical register `reg`, for `reg` in `0..16`.
    pub open spec fn get(self, reg: int) -> u32 {
        if reg < GENERAL_COUNT {
            self.general[reg]
        } else {
            self.banks[self.mode.bank_of(reg)][reg]
        }
    }

    /// The register file with logical register `reg` set to `val`, for
    /// `reg` in `0..16`. Only the one slot that `reg` resolves to changes.
    pub open spec fn set(self, reg: int, val: u32) -> RegisterFile {
        if reg < GENERAL_COUNT {
            RegisterFile { general: self.general.update(reg, val), ..self }
        } else {
            let b = self.mode.bank_of(reg);
            RegisterFile { banks: self.banks.update(b, self.banks[b].update(reg, val)), ..self }
        }
    }

    /// The register file in another mode; no register changes.
    pub open spec fn with_mode(self, mode: Mode) -> RegisterFile {
        RegisterFile { mode, ..self }
    }

    /// The register file with another current status word.
    pub open spec fn with_cpsr(self, val: u32) -> RegisterFile {
        RegisterFile { cpsr: val, ..self }
    }

    /// The saved status register of the active mode, which System lacks.
    pub open spec fn get_spsr(self) -> Result<u32, Fault> {
        if self.mode == Mode::System {
            Err(Fault::InvalidInSystemMode)
        } else {
            Ok(self.spsr[self.mode.bank()])
        }
    }

    /// The register file with the saved status register of the active mode
    /// set to `val`; System has none to set.
    pub open spec fn set_spsr(self, val: u32) -> Result<RegisterFile, Fault> {
        if self.mode == Mode::System {
            Err(Fault::InvalidInSystemMode)
        } else {
            Ok(RegisterFile { spsr: self.spsr.update(self.mode.bank(), val), ..self })
        }
    }
}

/// The banked register set, the active mode and the status registers.
///
/// Storage is eight general registers, seven banks of sixteen slots, one
/// current status word and seven saved ones. Which slot a logical register
/// reads and writes is decided by [`Mode::bank_of`].
#[derive(PartialEq, Copy, Clone, Debug)]
pub struct CPUState {
    pub mode: Mode,
    pub gpreg: [u32; 8],
    pub regbank: [[u32; 16]; 7],
    pub cpsr: u32,
    pub spsr: [u32; 7],
}

impl View for CPUState {
    type V = RegisterFile;

    open spec fn view(&self) -> RegisterFile {
        RegisterFile {
            mode: self.mode,
            general: self.gpreg@,
            banks: Seq::new(MODE_COUNT as nat, |b: int| self.regbank[b]@),
            cpsr: self.cpsr,
            spsr: self.spsr@,
        }
    }
}

impl CPUState {
    /// The value a state stands for always has the shape of a register file.
    pub proof fn lemma_view_well_formed(self)
        ensures
            self@.well_formed(),
    {
    }

    /// A register file with everything zero, in System mode.
    pub fn new() -> (s: CPUState)
        ensures
            s@ == RegisterFile::zeroed(),
    {
        let s = CPUState {
            mode: Mode::System,
            gpreg: [0; 8],
            regbank: [[0; 16]; 7],
            cpsr: 0,
            spsr: [0; 7],
        };
        assert(s@ =~~= RegisterFile::zeroed());
        s
    }

    /// Zeroes every general register, every bank, every saved status
    /// register and the current status word, and enters System mode.
    pub fn reset(&mut self)
        ensures
            final(self)@ == old(self)@.reset(),
    {
        self.mode = Mode::System;
        self.cpsr = 0;
        self.gpreg = [0; 8];
        self.reset_mode(Mode::System);
        self.reset_mode(Mode::Fiq);
        self.reset_mode(Mode::Supervisor);
        self.reset_mode(Mode::User);
        self.reset_mode(Mode::Abort);
        self.reset_mode(Mode::Irq);
        self.reset_mode(Mode::Undefined);
        assert(self@ =~~= RegisterFile::zeroed());
    }

    /// Zeroes the bank and the saved status register of one mode.
    pub fn reset_mode(&mut self, mode: Mode)
        ensures
            final(self)@ == old(self)@.reset_mode(mode),
    {
        let b: usize = mode.index();
        self.spsr[b] = 0;
        self.regbank[b] = [0; 16];
        assert(self@ =~~= old(self)@.reset_mode(mode));
    }

    /// Writes logical register `reg` as the active mode sees it.
    pub fn set_reg(&mut self, reg: usize, val: u32)
        requires
            reg < REG_COUNT,
        ensures
            final(self)@ == old(self)@.set(reg as int, val),
    {
        if reg < GENERAL_COUNT {
            self.gpreg[reg] = val;
        } else {
            let b: usize = self.mode.bank_index(reg);
            self.regbank[b][reg] = val;
        }
        assert(self@ =~~= old(self)@.set(reg as int, val));
    }

    /// Reads logical register `reg` as the active mode sees it.
    pub fn get_reg(&self, reg: usize) -> (val: u32)
        requires
            reg < REG_COUNT,
        ensures
            val == self@.get(reg as int),
    {
        if reg < GENERAL_COUNT {
            self.gpreg[reg]
        } else {
            let b: usize = self.mode.bank_index(reg);
            self.regbank[b][reg]
        }
    }

    /// The active mode.
    pub fn mode(&self) -> (mode: Mode)
        ensures
            mode == self@.mode,
    {
        self.mode
    }

    /// Enters `mode`. No register is cleared and no status word is saved:
    /// a bank keeps what it held when its mode was last left.
    pub fn set_mode(&mut self, mode: Mode)
        ensures
            final(self)@ == old(self)@.with_mode(mode),
    {
        self.mode = mode;
        assert(self@ =~~= old(self)@.with_mode(mode));
    }

    /// The current program status register.
    pub fn cpsr(&self) -> (val: u32)
        ensures
            val == self@.cpsr,
    {
        self.cpsr
    }

    /// Sets the current program status register, in any mode.
    pub fn set_cpsr(&mut self, val: u32)
        ensures
            final(self)@ == old(self)@.with_cpsr(val),
    {
        self.cpsr = val;
        assert(self@ =~~= old(self)@.with_cpsr(val));
    }

    /// Reads the saved program status register of the active mode.
    ///
    /// Fails in System mode, and only there.
    pub fn get_spsr(&self) -> (r: Result<u32, Fault>)
        ensures
            r == self@.get_spsr(),
            r is Err <==> self@.mode == Mode::System,
    {
        match self.mode {
            Mode::System => Err(Fault::InvalidInSystemMode),
            _ => Ok(self.spsr[self.mode.index()]),
        }
    }

    /// Writes the saved program status register of the active mode.
    ///
    /// Fails in System mode, and only there; the state is then unchanged.
    pub fn set_spsr(&mut self, val: u32) -> (r: Result<(), Fault>)
        ensures
            match r {
                Ok(()) => old(self)@.set_spsr(val) == Ok::<RegisterFile, Fault>(final(self)@),
                Err(e) => old(self)@.set_spsr(val) == Err::<RegisterFile, Fault>(e) && final(self)@
                    == old(self)@,
            },
            r is Err <==> old(self)@.mode == Mode::System,
    {
        match self.mode {
            Mode::System => Err(Fault::InvalidInSystemMode),
            _ => {
                let b: usize = self.mode.index();
                self.spsr[b] = val;
                assert(self@ =~~= old(self)@.set_spsr(val)->Ok_0);
                Ok(())
            },
        }
    }
}

/// `pc` moved by `offset` bytes, in 32-bit arithmetic that wraps around.
pub open spec fn displaced(pc: u32, offset: int) -> u32 {
    ((pc + offset) % 0x1_0000_0000) as u32
}

/// Moves `pc` by `offset` bytes, wrapping around at 32 bits.
pub fn displace(pc: u32, offset: i32) -> (target: u32)
    ensures
        target == displaced(pc, offset as int),
{
    let sum: i64 = pc as i64 + offset as i64;
    if sum < 0 {
        (sum + 0x1_0000_0000) as u32
    } else if sum >= 0x1_0000_0000 {
        (sum - 0x1_0000_0000) as u32
    } else {
        sum as u32
    }
}

/// The bits of a status word that a 4-bit field mask selects: bit 0 of the
/// mask selects the lowest byte, bit 3 the highest.
pub open spec fn field_bits(mask: u8) -> u32 {
    (if mask & 1 != 0 {
        0x0000_00FFu32
    } else {
        0
    }) | (if mask & 2 != 0 {
        0x0000_FF00u32
    } else {
        0
    }) | (if mask & 4 != 0 {
        0x00FF_0000u32
    } else {
        0
    }) | (if mask & 8 != 0 {
        0xFF00_0000u32
    } else {
        0
    })
}

/// The status word after a transfer: the selected bytes come from `value`,
/// the others stay as they are in `status`.
pub open spec fn transferred(status: u32, value: u32, mask: u8) -> u32 {
    (status & !field_bits(mask)) | (value & field_bits(mask))
}

/// Computes the status word after a transfer.
pub fn transfer(status: u32, value: u32, mask: u8) -> (r: u32)
    ensures
        r == transferred(status, value, mask),
{
    let low: u32 = if mask & 1 != 0 {
        0x0000_00FF
    } else {
        0
    };
    let mid: u32 = if mask & 2 != 0 {
        0x0000_FF00
    } else {
        0
    };
    let high: u32 = if mask & 4 != 0 {
        0x00FF_0000
    } else {
        0
    };
    let top: u32 = if mask & 8 != 0 {
        0xFF00_0000
    } else {
        0
    };
    let bits: u32 = low | mid | high | top;
    (status & !bits) | (value & bits)
}

/// Whether an operation sets the program counter itself, so that it must
/// not be advanced afterwards.
pub open spec fn redirects(op: Op) -> bool {
    match op {
        Op::B(_) | Op::Bl(_) => true,
        Op::Mov(rd, _) => rd == REG_PC,
        _ => false,
    }
}

/// What applying `op` makes of a register file, or the fault that keeps it
/// from being applied.
///
/// * A branch moves the program counter by its offset.
/// * A branch with link first keeps the old program counter in the link
///   register.
/// * A move sets its destination register.
/// * A status-register transfer replaces the selected bytes of the current
///   or the saved status register by those of an immediate or a register.
/// * The other operations have no semantics yet.
pub open spec fn execute(rf: RegisterFile, op: Op) -> Result<RegisterFile, Fault> {
    match op {
        Op::B(offset) => Ok(rf.set(REG_PC as int, displaced(rf.get(REG_PC as int), offset as int))),
        Op::Bl(offset) => Ok(
            rf.set(REG_LR as int, rf.get(REG_PC as int)).set(
                REG_PC as int,
                displaced(rf.get(REG_PC as int), offset as int),
            ),
        ),
        Op::Mov(rd, value) => Ok(rf.set(rd as int, value)),
        Op::Msr(immediate, saved, mask, source) => {
            let value = if immediate {
                source
            } else {
                rf.get(source as int)
            };
            if saved {
                match rf.get_spsr() {
                    Ok(status) => rf.set_spsr(transferred(status, value, mask)),
                    Err(fault) => Err(fault),
                }
            } else {
                Ok(rf.with_cpsr(transferred(rf.cpsr, value, mask)))
            }
        },
        Op::Bx | Op::Blx | Op::Swi | Op::Bkpt => Err(Fault::NotImplemented),
    }
}

/// What completes an instruction that was applied: a move whose word asks
/// for it updates the flags, and the program counter goes on to the next
/// instruction unless the operation set it.
pub open spec fn retired(rf: RegisterFile, word: u32, op: Op) -> RegisterFile {
    let flagged = match op {
        Op::Mov(_, value) => if updates_flags(word) {
            rf.with_cpsr(flags_after_move(rf.cpsr, value, rotate_amount(word)))
        } else {
            rf
        },
        _ => rf,
    };
    if redirects(op) {
        flagged
    } else {
        flagged.set(REG_PC as int, displaced(flagged.get(REG_PC as int), OP_SIZE as int))
    }
}

/// What one step makes of a register file, given the address space it
/// fetches from, or the fault that leaves the register file as it is.
///
/// The word at the program counter is fetched and decoded. If its
/// condition does not hold, the program counter moves on and nothing else
/// happens. Otherwise the operation is applied and completed.
pub open spec fn stepped(rf: RegisterFile, space: Map<u32, Seq<u8>>) -> Result<
    RegisterFile,
    Fault,
> {
    let pc = rf.get(REG_PC as int);
    match read_from(space, pc, OP_SIZE as nat) {
        None => Err(Fault::OutOfRange),
        Some(bytes) => {
            let word = word_of_bytes(bytes);
            match decode(word) {
                None => Err(Fault::DecodeMiss),
                Some(op) => if !condition_passes(condition_field(word), rf.cpsr) {
                    Ok(rf.set(REG_PC as int, displaced(pc, OP_SIZE as int)))
                } else {
                    match execute(rf, op) {
                        Ok(applied) => Ok(retired(applied, word, op)),
                        Err(fault) => Err(fault),
                    }
                },
            }
        },
    }
}

/// The processor: a register file and the logic that runs instructions on it.
pub struct ARM7TDMI {
    pub state: CPUState,
}

impl View for ARM7TDMI {
    type V = RegisterFile;

    open spec fn view(&self) -> RegisterFile {
        self.state@
    }
}

impl ARM7TDMI {
    /// The value a processor stands for always has the shape of a register file.
    pub proof fn lemma_view_well_formed(self)
        ensures
            self@.well_formed(),
    {
        self.state.lemma_view_well_formed();
    }

    /// A processor after reset: everything zero, mode System.
    pub fn new() -> (cpu: ARM7TDMI)
        ensures
            cpu@ == RegisterFile::zeroed(),
    {
        let mut cpu = ARM7TDMI { state: CPUState::new() };
        cpu.state.reset();
        cpu
    }

    /// Runs one instruction: fetches the word at the program counter from
    /// `m`, decodes it, and applies it if its condition holds.
    ///
    /// A fetch outside memory, a word that decodes to nothing, an operation
    /// without semantics and a saved-status access in System mode are
    /// reported; the processor is then as it was before the step.
    pub fn step(&mut self, m: &Memory) -> (r: Result<(), Fault>)
        ensures
            match r {
                Ok(()) => stepped(old(self)@, m@) == Ok::<RegisterFile, Fault>(final(self)@),
                Err(fault) => stepped(old(self)@, m@) == Err::<RegisterFile, Fault>(fault)
                    && final(self)@ == old(self)@,
            },
    {
        // Get the op at the current pc
        let pc: u32 = self.get_reg(REG_PC);
        match m.read(pc, OP_SIZE) {
            Some(data) => {
                let word: u32 = read_word(data.as_slice());
                match Op::from_word(word) {
                    Some(op) => {
                        if !condition_holds(condition_of(word), self.state.cpsr()) {
                            self.set_reg(REG_PC, displace(pc, 4));
                            Ok(())
                        } else {
                            match self.exec_op(m, &op) {
                                Ok(()) => {
                                    self.retire(word, &op);
                                    Ok(())
                                },
                                Err(fault) => Err(fault),
                            }
                        }
                    },
                    None => Err(Fault::DecodeMiss),
                }
            },
            None => Err(Fault::OutOfRange),
        }
    }

    /// Applies one decoded operation, whatever the flags say.
    ///
    /// The operation's register indices must lie in `0..16`, as those of
    /// every decoded operation do. The memory bus is there for operations
    /// that load and store; none of those that have semantics so far
    /// touches it.
    pub fn exec_op(&mut self, _m: &Memory, op: &Op) -> (r: Result<(), Fault>)
        requires
            op.well_formed(),
        ensures
            match r {
                Ok(()) => execute(old(self)@, *op) == Ok::<RegisterFile, Fault>(final(self)@),
                Err(fault) => execute(old(self)@, *op) == Err::<RegisterFile, Fault>(fault)
                    && final(self)@ == old(self)@,
            },
    {
        match op {
            Op::B(offset) => {
                let old_pc: u32 = self.get_reg(REG_PC);

                let next_pc: u32 = displace(old_pc, *offset);
                self.set_reg(REG_PC, next_pc);
                Ok(())
            },
            Op::Bl(offset) => {
                let old_pc: u32 = self.get_reg(REG_PC);
                self.set_reg(REG_LR, old_pc);

                let next_pc: u32 = displace(old_pc, *offset);
                self.set_reg(REG_PC, next_pc);
                Ok(())
            },
            Op::Mov(rd, value) => {
                self.set_reg(*rd, *value);
                Ok(())
            },
            Op::Msr(immediate, saved, mask, source) => {
                let value: u32 = if *immediate {
                    *source
                } else {
                    self.get_reg(*source as usize)
                };
                if *saved {
                    match self.state.get_spsr() {
                        Ok(status) => self.state.set_spsr(transfer(status, value, *mask)),
                        Err(fault) => Err(fault),
                    }
                } else {
                    let status: u32 = self.state.cpsr();
                    self.state.set_cpsr(transfer(status, value, *mask));
                    Ok(())
                }
            },
            _ => Err(Fault::NotImplemented),
        }
    }

    /// Completes an instruction that was applied: updates the flags for a
    /// move that asks for it, and advances the program counter unless the
    /// operation set it.
    fn retire(&mut self, word: u32, op: &Op)
        ensures
            final(self)@ == retired(old(self)@, word, *op),
    {
        match op {
            Op::Mov(_, value) => {
                if sets_flags(word) {
                    let status: u32 = self.state.cpsr();
                    self.state.set_cpsr(move_flags(status, *value, rotation_of(word)));
                }
            },
            _ => {},
        }
        let redirected: bool = match op {
            Op::B(_) | Op::Bl(_) => true,
            Op::Mov(rd, _) => *rd == REG_PC,
            _ => false,
        };
        if !redirected {
            let pc: u32 = self.get_reg(REG_PC);
            self.set_reg(REG_PC, displace(pc, 4));
        }
    }

    /// A copy of the register file.
    pub fn state(&self) -> (state: CPUState)
        ensures
            state@ == self@,
    {
        self.state
    }

    /// Puts the processor back into its state after reset.
    pub fn reset(&mut self)
        ensures
            final(self)@ == old(self)@.reset(),
    {
        self.state.reset()
    }

    /// Reads logical register `reg` as the active mode sees it.
    pub fn get_reg(&self, reg: usize) -> (val: u32)
        requires
            reg < REG_COUNT,
        ensures
            val == self@.get(reg as int),
    {
        self.state.get_reg(reg)
    }

    /// Writes logical register `reg` as the active mode sees it.
    pub fn set_reg(&mut self, reg: usize, val: u32)
        requires
            reg < REG_COUNT,
        ensures
            final(self)@ == old(self)@.set(reg as int, val),
    {
        self.state.set_reg(reg, val)
    }
}

} // verus!
