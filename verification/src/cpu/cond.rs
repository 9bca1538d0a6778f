//! Condition codes and the flags they are evaluated against.
use vstd::prelude::*;

verus! {

/// Negative flag of a status word.
pub const FLAG_N: u32 = 0x8000_0000;

/// Zero flag of a status word.
pub const FLAG_Z: u32 = 0x4000_0000;

/// Carry flag of a status word.
pub const FLAG_C: u32 = 0x2000_0000;

/// Overflow flag of a status word.
pub const FLAG_V: u32 = 0x1000_0000;

/// Equal: zero set.
pub const COND_EQ: u8 = 0b0000;

/// Not equal: zero clear.
pub const COND_NE: u8 = 0b0001;

/// Carry set, or unsigned higher or same.
pub const COND_CSHS: u8 = 0b0010;

/// Carry clear, or unsigned lower.
pub const COND_CCLO: u8 = 0b0011;

/// Minus: negative set.
pub const COND_MI: u8 = 0b0100;

/// Plus: negative clear.
pub const COND_PL: u8 = 0b0101;

/// Overflow set.
pub const COND_VS: u8 = 0b0110;

/// Overflow clear.
pub const COND_VC: u8 = 0b0111;

/// Unsigned higher: carry set and zero clear.
pub const COND_HI: u8 = 0b1000;

/// Unsigned lower or same: carry clear or zero set.
pub const COND_LS: u8 = 0b1001;

/// Signed greater or equal: negative equals overflow.
pub const COND_GE: u8 = 0b1010;

/// Signed less: negative differs from overflow.
pub const COND_LT: u8 = 0b1011;

/// Signed greater: zero clear, and negative equals overflow.
pub const COND_GT: u8 = 0b1100;

/// Signed less or equal: zero set, or negative differs from overflow.
pub const COND_LE: u8 = 0b1101;

/// Always.
pub const COND_AL: u8 = 0b1110;

/// Reserved; an instruction that carries it never executes.
pub const COND_UNDEF: u8 = 0b1111;

/// Whether the negative flag is set.
pub open spec fn negative(cpsr: u32) -> bool {
    cpsr & FLAG_N != 0
}

/// Whether the zero flag is set.
pub open spec fn zero(cpsr: u32) -> bool {
    cpsr & FLAG_Z != 0
}

/// Whether the carry flag is set.
pub open spec fn carry(cpsr: u32) -> bool {
    cpsr & FLAG_C != 0
}

/// Whether the overflow flag is set.
pub open spec fn overflow(cpsr: u32) -> bool {
    cpsr & FLAG_V != 0
}

/// Whether a 4-bit condition holds of the flags in `cpsr`.
pub open spec fn condition_passes(cond: u8, cpsr: u32) -> bool {
    let n = negative(cpsr);
    let z = zero(cpsr);
    let c = carry(cpsr);
    let v = overflow(cpsr);
    if cond == COND_EQ {
        z
    } else if cond == COND_NE {
        !z
    } else if cond == COND_CSHS {
        c
    } else if cond == COND_CCLO {
        !c
    } else if cond == COND_MI {
        n
    } else if cond == COND_PL {
        !n
    } else if cond == COND_VS {
        v
    } else if cond == COND_VC {
        !v
    } else if cond == COND_HI {
        c && !z
    } else if cond == COND_LS {
        !c || z
    } else if cond == COND_GE {
        n == v
    } else if cond == COND_LT {
        n != v
    } else if cond == COND_GT {
        !z && n == v
    } else if cond == COND_LE {
        z || n != v
    } else {
        cond == COND_AL
    }
}

/// Evaluates a 4-bit condition against the flags in `cpsr`.
pub fn condition_holds(cond: u8, cpsr: u32) -> (b: bool)
    ensures
        b == condition_passes(cond, cpsr),
{
    let n: bool = cpsr & FLAG_N != 0;
    let z: bool = cpsr & FLAG_Z != 0;
    let c: bool = cpsr & FLAG_C != 0;
    let v: bool = cpsr & FLAG_V != 0;
    if cond == COND_EQ {
        z
    } else if cond == COND_NE {
        !z
    } else if cond == COND_CSHS {
        c
    } else if cond == COND_CCLO {
        !c
    } else if cond == COND_MI {
        n
    } else if cond == COND_PL {
        !n
    } else if cond == COND_VS {
        v
    } else if cond == COND_VC {
        !v
    } else if cond == COND_HI {
        c && !z
    } else if cond == COND_LS {
        !c || z
    } else if cond == COND_GE {
        n == v
    } else if cond == COND_LT {
        n != v
    } else if cond == COND_GT {
        !z && n == v
    } else if cond == COND_LE {
        z || n != v
    } else {
        cond == COND_AL
    }
}

/// The sixteen conditions come in pairs that differ in their lowest bit.
/// The two of a pair are opposites, but for the last pair: `COND_AL` always
/// holds and `COND_UNDEF` never does, and neither does any value above it.
pub proof fn lemma_opposite_conditions(cond: u8, cpsr: u32)
    ensures
        cond < COND_AL && cond % 2 == 0 ==> condition_passes((cond + 1) as u8, cpsr)
            == !condition_passes(cond, cpsr),
        condition_passes(COND_AL, cpsr),
        cond > COND_AL ==> !condition_passes(cond, cpsr),
{
}

/// The status word a flag-updating move leaves behind.
///
/// Negative and zero describe `result`. Carry takes bit 31 of `result` when
/// the operand was rotated by a non-zero `rotation`, and stays otherwise.
/// Overflow and every bit below the flags stay.
pub open spec fn flags_after_move(cpsr: u32, result: u32, rotation: u32) -> u32 {
    let n = if result & 0x8000_0000 != 0 {
        FLAG_N
    } else {
        0
    };
    let z = if result == 0 {
        FLAG_Z
    } else {
        0
    };
    let c = if rotation == 0 {
        cpsr & FLAG_C
    } else if result & 0x8000_0000 != 0 {
        FLAG_C
    } else {
        0
    };
    (cpsr & 0x1FFF_FFFF) | n | z | c
}

/// Computes the status word a flag-updating move leaves behind.
pub fn move_flags(cpsr: u32, result: u32, rotation: u32) -> (r: u32)
    ensures
        r == flags_after_move(cpsr, result, rotation),
{
    let n: u32 = if result & 0x8000_0000 != 0 {
        FLAG_N
    } else {
        0
    };
    let z: u32 = if result == 0 {
        FLAG_Z
    } else {
        0
    };
    let c: u32 = if rotation == 0 {
        cpsr & FLAG_C
    } else if result & 0x8000_0000 != 0 {
        FLAG_C
    } else {
        0
    };
    (cpsr & 0x1FFF_FFFF) | n | z | c
}

/// What a flag-updating move does to each flag, read back through the flag
/// predicates: negative and zero follow the result, carry follows the
/// rotation rule, overflow is kept, and so are the bits below the flags.
pub proof fn lemma_flags_after_move(cpsr: u32, result: u32, rotation: u32)
    ensures
        negative(flags_after_move(cpsr, result, rotation)) == (result & 0x8000_0000 != 0),
        zero(flags_after_move(cpsr, result, rotation)) == (result == 0),
        carry(flags_after_move(cpsr, result, rotation)) == if rotation == 0 {
            carry(cpsr)
        } else {
            result & 0x8000_0000 != 0
        },
        overflow(flags_after_move(cpsr, result, rotation)) == overflow(cpsr),
        flags_after_move(cpsr, result, rotation) & 0x0FFF_FFFF == cpsr & 0x0FFF_FFFF,
{
    let after = flags_after_move(cpsr, result, rotation);
    assert(negative(after) == (result & 0x8000_0000 != 0)) by (bit_vector)
        requires
            after == flags_after_move(cpsr, result, rotation),
    ;
    assert(zero(after) == (result == 0)) by (bit_vector)
        requires
            after == flags_after_move(cpsr, result, rotation),
    ;
    assert(carry(after) == if rotation == 0 {
        carry(cpsr)
    } else {
        result & 0x8000_0000 != 0
    }) by (bit_vector)
        requires
            after == flags_after_move(cpsr, result, rotation),
    ;
    assert(overflow(after) == overflow(cpsr) && after & 0x0FFF_FFFF == cpsr & 0x0FFF_FFFF)
        by (bit_vector)
        requires
            after == flags_after_move(cpsr, result, rotation),
    ;
}

} // verus!
