//! The decoded operations and the decoder that reads them from
//! instruction words by mask and compare.
use crate::mem::{read_word, word_of_bytes};
use vstd::prelude::*;

verus! {

/// Width of one instruction, in bytes.
pub const OP_SIZE: usize = 4;

/// Branch and exchange: every bit but the condition and the source register is fixed.
pub const MASK_BX: u32 = 0x0FFF_FFF0;

/// What a branch and exchange has under its mask.
pub const OP_BX: u32 = 0x012F_FF10;

/// Branch, link and exchange shares the mask of branch and exchange.
pub const OP_BLX: u32 = 0x012F_FF30;

/// Breakpoint: the comment field in between is left open.
pub const MASK_BKPT: u32 = 0x0FF0_00F0;

/// What a breakpoint has under its mask.
pub const OP_BKPT: u32 = 0x0120_0070;

/// Software interrupt: bits 27 to 24 are all set.
pub const MASK_SWI: u32 = 0x0F00_0000;

/// What a software interrupt has under its mask.
pub const OP_SWI: u32 = 0x0F00_0000;

/// Branch, with or without link: bits 27 to 25.
pub const MASK_B: u32 = 0x0E00_0000;

/// What a branch has under its mask.
pub const OP_B: u32 = 0x0A00_0000;

/// The link bit of a branch.
pub const MASK_B_L: u32 = 0x0100_0000;

/// The 24-bit word offset of a branch.
pub const MASK_B_OFFSET: u32 = 0x00FF_FFFF;

/// The sign bit of the 24-bit word offset.
pub const MASK_SIGNED24: u32 = 0x0080_0000;

/// Move of a rotated immediate; the flag-update bit is left open.
pub const MASK_MOV: u32 = 0x0FE0_0000;

/// What a move of an immediate has under its mask.
pub const OP_MOV: u32 = 0x03A0_0000;

/// Status-register transfer; the immediate bit and the target bit are left open.
pub const MASK_MSR: u32 = 0x0DB0_0000;

/// What a status-register transfer has under its mask.
pub const OP_MSR: u32 = 0x0120_0000;

/// Set when a status-register transfer targets the saved status register.
pub const MASK_MSR_R: u32 = 0x0040_0000;

/// Set when the source of a status-register transfer is an immediate.
pub const MASK_MSR_25: u32 = 0x0200_0000;

/// The flag-update bit of a data-processing instruction.
pub const MASK_S: u32 = 0x0010_0000;

/// One decoded operation, with the operands that applying it needs.
///
/// The condition field is not part of the operation: the executor reads it
/// from the instruction word, see [`condition_field`].
#[derive(Clone, Copy, Debug, PartialEq, Eq, Structural)]
pub enum Op {
    /// Branch by a signed byte offset, relative to the branch's own address.
    B(i32),
    /// Branch by a signed byte offset and keep the return address.
    Bl(i32),
    /// Branch and exchange instruction set.
    Bx,
    /// Branch, link and exchange instruction set.
    Blx,
    /// Move an operand value into a destination register.
    Mov(usize, u32),
    /// Status-register transfer: whether the source is an immediate, whether
    /// the target is the saved status register, the 4-bit field mask, and the
    /// source, which is the immediate's value or the index of a register.
    Msr(bool, bool, u8, u32),
    /// Software interrupt.
    Swi,
    /// Breakpoint.
    Bkpt,
}

/// The 4-bit condition field, bits 31 to 28 of every instruction word.
pub open spec fn condition_field(word: u32) -> u8 {
    (word >> 28) as u8
}

/// Whether the word asks for the condition flags to be updated.
pub open spec fn updates_flags(word: u32) -> bool {
    word & MASK_S != 0
}

/// The value of a 24-bit field read as a two's-complement number.
pub open spec fn sign_extend_24(field: u32) -> int {
    if field & MASK_SIGNED24 != 0 {
        field - 0x0100_0000
    } else {
        field as int
    }
}

/// The byte offset a branch word encodes: its signed word offset times four,
/// plus eight for the two instructions the pipeline has already fetched.
pub open spec fn branch_offset(word: u32) -> int {
    4 * sign_extend_24(word & MASK_B_OFFSET) + 8
}

/// `value` rotated right by `amount` bit positions, for `amount` below 32.
pub open spec fn rotate_right(value: u32, amount: u32) -> u32 {
    if amount == 0 {
        value
    } else {
        (value >> amount) | (value << ((32 - amount) as u32))
    }
}

/// The rotate amount of an immediate operand: twice the 4-bit field in bits 11 to 8.
pub open spec fn rotate_amount(word: u32) -> u32 {
    ((word >> 8) & 0xF) << 1
}

/// The immediate operand of a word: its low byte rotated right by its rotate amount.
pub open spec fn immediate_operand(word: u32) -> u32 {
    rotate_right(word & 0xFF, rotate_amount(word))
}

/// The destination register of a data-processing word, bits 15 to 12.
pub open spec fn destination_register(word: u32) -> u32 {
    (word >> 12) & 0xF
}

/// The field mask of a status-register transfer, bits 19 to 16.
pub open spec fn field_mask(word: u32) -> u32 {
    (word >> 16) & 0xF
}

/// The source register of a status-register transfer, bits 3 to 0.
pub open spec fn source_register(word: u32) -> u32 {
    word & 0xF
}

/// The operation a word decodes to, or `None` when no class matches.
///
/// The classes are tried in this order and the first match wins, so the
/// fully fixed encodings come before the status-register transfer whose
/// mask they also meet.
pub open spec fn decode(word: u32) -> Option<Op> {
    if word & MASK_BX == OP_BX {
        Some(Op::Bx)
    } else if word & MASK_BX == OP_BLX {
        Some(Op::Blx)
    } else if word & MASK_BKPT == OP_BKPT {
        Some(Op::Bkpt)
    } else if word & MASK_SWI == OP_SWI {
        Some(Op::Swi)
    } else if word & MASK_B == OP_B {
        if word & MASK_B_L != 0 {
            Some(Op::Bl(branch_offset(word) as i32))
        } else {
            Some(Op::B(branch_offset(word) as i32))
        }
    } else if word & MASK_MOV == OP_MOV {
        Some(Op::Mov(destination_register(word) as usize, immediate_operand(word)))
    } else if word & MASK_MSR == OP_MSR {
        if word & MASK_MSR_25 != 0 {
            Some(
                Op::Msr(
                    true,
                    word & MASK_MSR_R != 0,
                    field_mask(word) as u8,
                    immediate_operand(word),
                ),
            )
        } else {
            Some(
                Op::Msr(
                    false,
                    word & MASK_MSR_R != 0,
                    field_mask(word) as u8,
                    source_register(word),
                ),
            )
        }
    } else {
        None
    }
}

/// Extracts the condition field of a word.
pub fn condition_of(word: u32) -> (cond: u8)
    ensures
        cond == condition_field(word),
        cond < 16,
{
    let top: u32 = word >> 28;
    assert(top < 16) by (bit_vector)
        requires
            top == word >> 28,
    ;
    top as u8
}

/// Tells whether a word asks for the condition flags to be updated.
pub fn sets_flags(word: u32) -> (b: bool)
    ensures
        b == updates_flags(word),
{
    word & MASK_S != 0
}

/// Rotates `value` right by `amount` bit positions.
pub fn rotate(value: u32, amount: u32) -> (r: u32)
    requires
        amount < 32,
    ensures
        r == rotate_right(value, amount),
{
    if amount == 0 {
        value
    } else {
        (value >> amount) | (value << (32 - amount))
    }
}

/// Extracts the rotate amount of an immediate operand.
pub fn rotation_of(word: u32) -> (amount: u32)
    ensures
        amount == rotate_amount(word),
        amount < 32,
{
    let amount: u32 = ((word >> 8) & 0xF) << 1;
    assert(amount < 32) by (bit_vector)
        requires
            amount == ((word >> 8) & 0xF) << 1,
    ;
    amount
}

/// Decodes the rotated immediate of a word.
pub fn immediate_of(word: u32) -> (value: u32)
    ensures
        value == immediate_operand(word),
{
    rotate(word & 0xFF, rotation_of(word))
}

impl Op {
    /// Whether every register index the operation names lies in `0..16`.
    pub open spec fn well_formed(self) -> bool {
        match self {
            Op::Mov(rd, _) => rd < 16,
            Op::Msr(immediate, _, _, source) => !immediate ==> source < 16,
            _ => true,
        }
    }

    /// Decodes one instruction word.
    pub fn from_word(word: u32) -> (r: Option<Op>)
        ensures
            r == decode(word),
            r matches Some(op) ==> op.well_formed(),
    {
        if word & MASK_BX == OP_BX {
            Some(Op::Bx)
        } else if word & MASK_BX == OP_BLX {
            Some(Op::Blx)
        } else if word & MASK_BKPT == OP_BKPT {
            Some(Op::Bkpt)
        } else if word & MASK_SWI == OP_SWI {
            Some(Op::Swi)
        } else if word & MASK_B == OP_B {
            let field: u32 = word & MASK_B_OFFSET;
            assert(field <= 0x00FF_FFFF) by (bit_vector)
                requires
                    field == word & 0x00FF_FFFF,
            ;
            let words: i32 = if field & MASK_SIGNED24 != 0 {
                field as i32 - 0x0100_0000
            } else {
                field as i32
            };
            let offset: i32 = words * 4 + 8;
            if word & MASK_B_L != 0 {
                Some(Op::Bl(offset))
            } else {
                Some(Op::B(offset))
            }
        } else if word & MASK_MOV == OP_MOV {
            let rd: u32 = (word >> 12) & 0xF;
            assert(rd < 16) by (bit_vector)
                requires
                    rd == (word >> 12) & 0xF,
            ;
            Some(Op::Mov(rd as usize, immediate_of(word)))
        } else if word & MASK_MSR == OP_MSR {
            let saved: bool = word & MASK_MSR_R != 0;
            let mask: u32 = (word >> 16) & 0xF;
            assert(mask < 16) by (bit_vector)
                requires
                    mask == (word >> 16) & 0xF,
            ;
            if word & MASK_MSR_25 != 0 {
                Some(Op::Msr(true, saved, mask as u8, immediate_of(word)))
            } else {
                let source: u32 = word & 0xF;
                assert(source < 16) by (bit_vector)
                    requires
                        source == word & 0xF,
                ;
                Some(Op::Msr(false, saved, mask as u8, source))
            }
        } else {
            None
        }
    }

    /// Decodes the instruction held, in little-endian order, in the first
    /// four bytes of `data`.
    ///
    /// A word that matches no encoding gives `None`; that is an ordinary
    /// outcome, not a failure of the decoder.
    pub fn parse(data: &[u8]) -> (r: Option<Op>)
        requires
            data@.len() >= OP_SIZE,
        ensures
            r == decode(word_of_bytes(data@)),
            r matches Some(op) ==> op.well_formed(),
    {
        Op::from_word(read_word(data))
    }
}

/// Every operation that a word decodes to names registers in `0..16` only,
/// and a field mask of four bits.
pub proof fn lemma_decoded_is_well_formed(word: u32)
    ensures
        decode(word) matches Some(op) ==> op.well_formed(),
        decode(word) matches Some(Op::Msr(_, _, mask, _)) ==> mask < 16,
{
    assert((word >> 12) & 0xF < 16) by (bit_vector);
    assert((word >> 16) & 0xF < 16) by (bit_vector);
    assert(word & 0xF < 16) by (bit_vector);
}

/// A branch word with a 24-bit field below `0x800000` encodes the byte
/// offset `4 * field + 8`; one whose field has bit 23 set encodes
/// `4 * (field - 0x1000000) + 8`. Either way the offset is a multiple of
/// four and fits in 32 bits with room to spare.
pub proof fn lemma_branch_offset_range(word: u32)
    ensures
        -0x0200_0000 + 8 <= branch_offset(word) <= 0x01FF_FFFC + 8,
        branch_offset(word) % 4 == 0,
        word & MASK_SIGNED24 == 0 ==> branch_offset(word) == 4 * (word & MASK_B_OFFSET) + 8,
        word & MASK_SIGNED24 != 0 ==> branch_offset(word) == 4 * ((word & MASK_B_OFFSET)
            - 0x0100_0000) + 8,
{
    let field: u32 = word & MASK_B_OFFSET;
    assert(field <= 0x00FF_FFFF) by (bit_vector)
        requires
            field == word & 0x00FF_FFFF,
    ;
    assert(field & 0x0080_0000 != 0 ==> field >= 0x0080_0000) by (bit_vector);
    assert(field & 0x0080_0000 == 0 ==> field < 0x0080_0000) by (bit_vector)
        requires
            field <= 0x00FF_FFFF,
    ;
    assert((word & 0x00FF_FFFF) & 0x0080_0000 == word & 0x0080_0000) by (bit_vector);
}

/// A branch whose 24-bit field has its sign bit set goes backwards: it
/// decodes to a negative byte offset. The two fields nearest to zero,
/// `0xFFFFFE` and `0xFFFFFF`, are left out: the pipeline's eight bytes
/// bring their offsets to 0 and 4.
pub proof fn lemma_backward_branch_is_negative(word: u32)
    requires
        word & MASK_B == OP_B,
        word & MASK_SIGNED24 != 0,
        (word & MASK_B_OFFSET) < 0x00FF_FFFE,
    ensures
        branch_offset(word) < 0,
        match decode(word) {
            Some(Op::B(offset)) | Some(Op::Bl(offset)) => offset == branch_offset(word),
            _ => false,
        },
{
    lemma_branch_offset_range(word);
    assert(word & 0x0E00_0000 == 0x0A00_0000 ==> word & 0x0FFF_FFF0 != 0x012F_FF10 && word
        & 0x0FFF_FFF0 != 0x012F_FF30 && word & 0x0FF0_00F0 != 0x0120_0070 && word & 0x0F00_0000
        != 0x0F00_0000) by (bit_vector);
}

} // verus!
