//! What holds of the register file and of the executor, whatever the state.
use crate::cpu::opcode::Op;
use crate::cpu::{
    displaced, execute, transferred, Mode, RegisterFile, GENERAL_COUNT, MODE_COUNT, REG_COUNT,
    REG_LR, REG_PC,
};
use crate::fault::Fault;
use vstd::prelude::*;

verus! {

/// Every mode has a bank of its own, and the banks are numbered `0..7`.
pub proof fn lemma_banks_are_distinct(first: Mode, second: Mode)
    ensures
        0 <= first.bank() < MODE_COUNT,
        first.bank() == second.bank() <==> first == second,
{
}

/// A register that was set reads back as the value it was set to, in every
/// mode and for every logical index. Setting changes neither the mode nor
/// the status registers nor the shape of the register file.
pub proof fn lemma_set_then_get(rf: RegisterFile, reg: int, val: u32)
    requires
        rf.well_formed(),
        0 <= reg < REG_COUNT,
    ensures
        rf.set(reg, val).get(reg) == val,
        rf.set(reg, val).well_formed(),
        rf.set(reg, val).mode == rf.mode,
        rf.set(reg, val).cpsr == rf.cpsr,
        rf.set(reg, val).spsr == rf.spsr,
{
    if reg >= GENERAL_COUNT {
        lemma_banks_are_distinct(rf.mode, Mode::System);
    }
}

/// Setting a register leaves every other logical register of the active
/// mode as it was.
pub proof fn lemma_set_leaves_others(rf: RegisterFile, reg: int, val: u32, other: int)
    requires
        rf.well_formed(),
        0 <= reg < REG_COUNT,
        0 <= other < REG_COUNT,
        other != reg,
    ensures
        rf.set(reg, val).get(other) == rf.get(other),
{
    lemma_banks_are_distinct(rf.mode, Mode::System);
}

/// What a register set in one mode looks like from another mode.
///
/// The value shows in the other mode exactly when both modes resolve the
/// index to the same slot: always for `r0` to `r7` and for `r15`, and for
/// the rest when both modes name the same bank. Where it does not show,
/// the other mode still reads what it read before.
pub proof fn lemma_set_seen_from(rf: RegisterFile, reg: int, val: u32, other: Mode)
    requires
        rf.well_formed(),
        0 <= reg < REG_COUNT,
    ensures
        rf.set(reg, val).with_mode(other).get(reg) == if reg < GENERAL_COUNT || rf.mode.bank_of(
            reg,
        ) == other.bank_of(reg) {
            val
        } else {
            rf.with_mode(other).get(reg)
        },
{
    lemma_banks_are_distinct(rf.mode, Mode::System);
    lemma_banks_are_distinct(other, Mode::System);
    lemma_banks_are_distinct(rf.mode, other);
}

/// Two modes resolve an index to the same slot exactly when neither keeps
/// the register private, or when they are the same mode.
pub proof fn lemma_shared_slots(first: Mode, second: Mode, reg: int)
    requires
        GENERAL_COUNT <= reg < REG_COUNT,
    ensures
        first.bank_of(reg) == second.bank_of(reg) <==> first == second || (!first.keeps_private(reg)
            && !second.keeps_private(reg)),
        !first.keeps_private(REG_PC as int),
        first.bank_of(REG_PC as int) == Mode::System.bank(),
{
    lemma_banks_are_distinct(first, second);
    lemma_banks_are_distinct(first, Mode::System);
    lemma_banks_are_distinct(second, Mode::System);
}

/// The program counter is one register: every mode reads what System reads.
pub proof fn lemma_pc_is_shared(rf: RegisterFile, mode: Mode)
    ensures
        rf.with_mode(mode).get(REG_PC as int) == rf.with_mode(Mode::System).get(REG_PC as int),
{
}

/// Entering a mode clears nothing: the registers of every mode read as
/// before once that mode is entered again, and so do the status registers.
pub proof fn lemma_mode_switch_keeps_registers(rf: RegisterFile, entered: Mode, back: Mode)
    ensures
        rf.with_mode(entered).with_mode(back) == rf.with_mode(back),
        rf.with_mode(entered).with_mode(rf.mode) == rf,
        rf.with_mode(entered).cpsr == rf.cpsr,
        rf.with_mode(entered).spsr == rf.spsr,
{
}

/// The saved status register can be read and written in every mode but
/// System; there both fail, and with the same fault. What was written is
/// what is read back.
pub proof fn lemma_spsr_outside_system_only(rf: RegisterFile, val: u32)
    requires
        rf.well_formed(),
    ensures
        rf.get_spsr() is Ok <==> rf.mode != Mode::System,
        rf.set_spsr(val) is Ok <==> rf.mode != Mode::System,
        rf.mode == Mode::System ==> rf.get_spsr() == Err::<u32, Fault>(Fault::InvalidInSystemMode)
            && rf.set_spsr(val) == Err::<RegisterFile, Fault>(Fault::InvalidInSystemMode),
        rf.mode != Mode::System ==> rf.set_spsr(val)->Ok_0.get_spsr() == Ok::<u32, Fault>(val)
            && rf.set_spsr(val)->Ok_0.well_formed(),
{
    lemma_banks_are_distinct(rf.mode, Mode::System);
}

/// After a reset every logical register reads zero in every mode, both
/// kinds of status register are zero, and the mode is System.
pub proof fn lemma_reset_zeroes(rf: RegisterFile, mode: Mode, reg: int)
    requires
        0 <= reg < REG_COUNT,
    ensures
        rf.reset().well_formed(),
        rf.reset().mode == Mode::System,
        rf.reset().cpsr == 0,
        rf.reset().with_mode(mode).get(reg) == 0,
        rf.reset().spsr[mode.bank()] == 0,
{
    lemma_banks_are_distinct(mode, Mode::System);
}

/// A second reset changes nothing: resetting twice leaves what resetting
/// once leaves.
pub proof fn lemma_reset_idempotent(rf: RegisterFile)
    ensures
        rf.reset().reset() == rf.reset(),
{
}

/// Where the sum stays within 32 bits, displacing is plain addition.
pub proof fn lemma_displaced_without_wrap(pc: u32, offset: int)
    requires
        0 <= pc + offset < 0x1_0000_0000,
    ensures
        displaced(pc, offset) == pc + offset,
{
}

/// A branch moves the program counter by its offset and touches nothing
/// else: every other register, the link register among them, the mode and
/// the status registers stay.
pub proof fn lemma_branch_moves_the_pc_only(rf: RegisterFile, offset: i32, reg: int)
    requires
        rf.well_formed(),
        0 <= reg < REG_PC,
    ensures
        execute(rf, Op::B(offset)) is Ok,
        execute(rf, Op::B(offset))->Ok_0.get(REG_PC as int) == displaced(
            rf.get(REG_PC as int),
            offset as int,
        ),
        execute(rf, Op::B(offset))->Ok_0.get(reg) == rf.get(reg),
        execute(rf, Op::B(offset))->Ok_0.mode == rf.mode,
        execute(rf, Op::B(offset))->Ok_0.cpsr == rf.cpsr,
        execute(rf, Op::B(offset))->Ok_0.spsr == rf.spsr,
{
    let target = displaced(rf.get(REG_PC as int), offset as int);
    lemma_set_then_get(rf, REG_PC as int, target);
    lemma_set_leaves_others(rf, REG_PC as int, target, reg);
}

/// A branch with link keeps the address of the branch in the link
/// register and moves the program counter by its offset; the registers
/// below the link register stay.
pub proof fn lemma_branch_with_link_keeps_the_pc(rf: RegisterFile, offset: i32, reg: int)
    requires
        rf.well_formed(),
        0 <= reg < REG_LR,
    ensures
        execute(rf, Op::Bl(offset)) is Ok,
        execute(rf, Op::Bl(offset))->Ok_0.get(REG_PC as int) == displaced(
            rf.get(REG_PC as int),
            offset as int,
        ),
        execute(rf, Op::Bl(offset))->Ok_0.get(REG_LR as int) == rf.get(REG_PC as int),
        execute(rf, Op::Bl(offset))->Ok_0.get(reg) == rf.get(reg),
        execute(rf, Op::Bl(offset))->Ok_0.cpsr == rf.cpsr,
{
    let pc = rf.get(REG_PC as int);
    let target = displaced(pc, offset as int);
    let linked = rf.set(REG_LR as int, pc);
    lemma_set_then_get(rf, REG_LR as int, pc);
    lemma_set_leaves_others(rf, REG_LR as int, pc, reg);
    lemma_set_then_get(linked, REG_PC as int, target);
    lemma_set_leaves_others(linked, REG_PC as int, target, reg);
    lemma_set_leaves_others(linked, REG_PC as int, target, REG_LR as int);
}

/// A status-register transfer works byte by byte: bit `byte` of the field
/// mask decides whether byte `byte` of the status word comes from the
/// value or stays. Mask bits above the fourth decide nothing.
pub proof fn lemma_transfer_selects_bytes(status: u32, value: u32, mask: u8, byte: u32)
    requires
        byte < 4,
    ensures
        (transferred(status, value, mask) >> (8 * byte) as u32) & 0xFF == if (mask >> byte) & 1
            != 0 {
            (value >> (8 * byte) as u32) & 0xFF
        } else {
            (status >> (8 * byte) as u32) & 0xFF
        },
        transferred(status, value, mask) == transferred(status, value, mask & 0xF),
{
    let after = transferred(status, value, mask);
    assert((after >> (8 * byte) as u32) & 0xFF == if (mask >> byte) & 1 != 0 {
        (value >> (8 * byte) as u32) & 0xFF
    } else {
        (status >> (8 * byte) as u32) & 0xFF
    }) by (bit_vector)
        requires
            byte < 4,
            after == transferred(status, value, mask),
    ;
    assert(transferred(status, value, mask) == transferred(status, value, mask & 0xF))
        by (bit_vector);
}

/// An operation is applied or it is refused, and it is refused for one of
/// two reasons only: it has no semantics yet, or it asks for the saved
/// status register in System mode.
pub proof fn lemma_execute_faults(rf: RegisterFile, op: Op)
    ensures
        execute(rf, op) == Err::<RegisterFile, Fault>(Fault::NotImplemented) <==> (op is Bx || op
            is Blx || op is Swi || op is Bkpt),
        execute(rf, op) == Err::<RegisterFile, Fault>(Fault::InvalidInSystemMode) <==> (op
            matches Op::Msr(_, saved, _, _) && saved && rf.mode == Mode::System),
        execute(rf, op) is Ok || execute(rf, op) == Err::<RegisterFile, Fault>(
            Fault::NotImplemented,
        ) || execute(rf, op) == Err::<RegisterFile, Fault>(Fault::InvalidInSystemMode),
{
}

} // verus!
