//! What holds of every address space, and of the documented address map.
use crate::mem::blocks::owns;
use crate::mem::{
    cleared, default_layout, fits, fixed_block, laid_out, owner, read_from, rom_window,
    with_cartridge, word_of_bytes, write_to, zeros, EXT_WRAM, EXT_WRAM_SIZE, INT_WRAM,
    INT_WRAM_SIZE, IORAM, IORAM_SIZE, OAM, OAM_SIZE, PAK_RAM_SIZE, PAK_ROM, PAK_ROM1, PAK_ROM2,
    PAL_RAM, PAL_RAM_SIZE, SYS_ROM, SYS_ROM_SIZE, VRAM, VRAM_SIZE,
};
use vstd::prelude::*;

verus! {

/// Little-endian order: the first byte counts least, the fourth most.
pub proof fn lemma_word_of_bytes_value(bytes: Seq<u8>)
    requires
        bytes.len() >= 4,
    ensures
        word_of_bytes(bytes) == bytes[0] + 0x100 * bytes[1] + 0x1_0000 * bytes[2] + 0x100_0000
            * bytes[3],
{
    let b0 = bytes[0];
    let b1 = bytes[1];
    let b2 = bytes[2];
    let b3 = bytes[3];
    assert((b0 as u32) | ((b1 as u32) << 8) | ((b2 as u32) << 16) | ((b3 as u32) << 24) == b0
        + 0x100 * b1 + 0x1_0000 * b2 + 0x100_0000 * b3) by (bit_vector);
}

/// An address has at most one owner.
pub proof fn lemma_owner_unique(bases: Set<u32>, first: u32, second: u32, addr: u32)
    requires
        owns(bases, first, addr),
        owns(bases, second, addr),
    ensures
        first == second,
{
}

/// The base that owns an address is the one [`owner`] names, and `owner`
/// names no base that does not own it.
pub proof fn lemma_owner_is(space: Map<u32, Seq<u8>>, base: u32, addr: u32)
    ensures
        owns(space.dom(), base, addr) <==> owner(space, addr) == Some(base),
{
    if owns(space.dom(), base, addr) {
        let chosen = choose|b: u32| owns(space.dom(), b, addr);
        lemma_owner_unique(space.dom(), base, chosen, addr);
    }
}

/// A block that is written to stays where it is and keeps its size, so
/// every address keeps its owner.
pub proof fn lemma_write_keeps_owners(
    space: Map<u32, Seq<u8>>,
    addr: u32,
    data: Seq<u8>,
    other: u32,
)
    requires
        write_to(space, addr, data) is Some,
    ensures
        write_to(space, addr, data)->Some_0.dom() == space.dom(),
        owner(write_to(space, addr, data)->Some_0, other) == owner(space, other),
        forall|base: u32|
            space.contains_key(base) ==> (#[trigger] write_to(
                space,
                addr,
                data,
            )->Some_0[base]).len() == space[base].len(),
{
    let after = write_to(space, addr, data)->Some_0;
    let base = owner(space, addr)->Some_0;
    lemma_owner_is(space, base, addr);
    assert(after.dom() =~= space.dom());
}

/// What was written is what is read back: a read of as many bytes at the
/// address of a write that succeeded returns the bytes written.
pub proof fn lemma_write_then_read(space: Map<u32, Seq<u8>>, addr: u32, data: Seq<u8>)
    requires
        write_to(space, addr, data) is Some,
    ensures
        read_from(write_to(space, addr, data)->Some_0, addr, data.len()) == Some(data),
{
    let after = write_to(space, addr, data)->Some_0;
    let base = owner(space, addr)->Some_0;
    lemma_owner_is(space, base, addr);
    lemma_write_keeps_owners(space, addr, data, addr);
    assert(after[base].subrange(addr - base, addr - base + data.len()) =~= data);
}

/// A write changes the bytes it covers and nothing else: a read that
/// succeeded before and does not overlap the written range returns the
/// same bytes afterwards.
pub proof fn lemma_write_leaves_the_rest(
    space: Map<u32, Seq<u8>>,
    addr: u32,
    data: Seq<u8>,
    other: u32,
    size: nat,
)
    requires
        write_to(space, addr, data) is Some,
        other + size <= addr || addr + data.len() <= other,
    ensures
        read_from(write_to(space, addr, data)->Some_0, other, size) == read_from(
            space,
            other,
            size,
        ),
{
    let after = write_to(space, addr, data)->Some_0;
    let base = owner(space, addr)->Some_0;
    lemma_owner_is(space, base, addr);
    lemma_write_keeps_owners(space, addr, data, other);
    match owner(space, other) {
        Some(other_base) => {
            lemma_owner_is(space, other_base, other);
            if fits(space, other_base, other, size) {
                assert(after[other_base].subrange(other - other_base, other - other_base + size)
                    =~= space[other_base].subrange(other - other_base, other - other_base + size));
            }
        },
        None => {},
    }
}

/// A read and a write are refused on the same terms.
pub proof fn lemma_read_and_write_agree(space: Map<u32, Seq<u8>>, addr: u32, data: Seq<u8>)
    ensures
        write_to(space, addr, data) is Some <==> read_from(space, addr, data.len()) is Some,
{
}

/// A read never returns fewer bytes than were asked for, and an access
/// that runs over the end of the block that owns its address is refused.
pub proof fn lemma_read_is_whole_or_refused(space: Map<u32, Seq<u8>>, addr: u32, size: nat)
    ensures
        read_from(space, addr, size) matches Some(bytes) ==> bytes.len() == size,
        owner(space, addr) matches Some(base) ==> (read_from(space, addr, size) is Some <==> addr
            - base + size <= space[base].len()),
        owner(space, addr) is None ==> read_from(space, addr, size) is None,
{
}

/// The default layout is the documented address map.
pub proof fn lemma_default_is_laid_out()
    ensures
        laid_out(default_layout()),
{
    let space = default_layout();
    assert forall|base: u32| #[trigger] space.contains_key(base) implies rom_window(base)
        || exists|size: nat| fixed_block(base, size) by {
        if base == SYS_ROM {
            assert(fixed_block(base, SYS_ROM_SIZE as nat));
        } else if base == EXT_WRAM {
            assert(fixed_block(base, EXT_WRAM_SIZE as nat));
        } else if base == INT_WRAM {
            assert(fixed_block(base, INT_WRAM_SIZE as nat));
        } else if base == IORAM {
            assert(fixed_block(base, IORAM_SIZE as nat));
        } else if base == PAL_RAM {
            assert(fixed_block(base, PAL_RAM_SIZE as nat));
        } else if base == VRAM {
            assert(fixed_block(base, VRAM_SIZE as nat));
        } else if base == OAM {
            assert(fixed_block(base, OAM_SIZE as nat));
        } else {
            assert(fixed_block(base, PAK_RAM_SIZE as nat));
        }
    }
}

/// Installing a cartridge keeps the documented address map.
pub proof fn lemma_cartridge_keeps_layout(space: Map<u32, Seq<u8>>, data: Seq<u8>)
    requires
        laid_out(space),
    ensures
        laid_out(with_cartridge(space, data)),
{
    let after = with_cartridge(space, data);
    assert forall|base: u32| #[trigger] after.contains_key(base) implies rom_window(base)
        || exists|size: nat| fixed_block(base, size) by {
        if !rom_window(base) {
            assert(space.contains_key(base));
        }
    }
}

/// A write keeps the documented address map.
pub proof fn lemma_write_keeps_layout(space: Map<u32, Seq<u8>>, addr: u32, data: Seq<u8>)
    requires
        laid_out(space),
        write_to(space, addr, data) is Some,
    ensures
        laid_out(write_to(space, addr, data)->Some_0),
{
    let after = write_to(space, addr, data)->Some_0;
    lemma_write_keeps_owners(space, addr, data, addr);
    assert forall|base: u32| #[trigger] after.contains_key(base) implies rom_window(base)
        || exists|size: nat| fixed_block(base, size) by {
        assert(space.contains_key(base));
    }
    assert forall|base: u32, size: nat| #[trigger]
        fixed_block(base, size) implies after.contains_key(base) && after[base].len() == size by {
        assert(space.contains_key(base));
    }
}

/// No two fixed blocks overlap, and no fixed block reaches into a cartridge
/// ROM window.
pub proof fn lemma_fixed_blocks_are_disjoint(first: u32, first_size: nat, second: u32)
    requires
        fixed_block(first, first_size),
        rom_window(second) || exists|second_size: nat| fixed_block(second, second_size),
        first != second,
    ensures
        second < first || first + first_size <= second,
{
    if !rom_window(second) {
        let second_size = choose|second_size: nat| fixed_block(second, second_size);
        assert(fixed_block(second, second_size));
    }
}

/// Every address of a fixed block resolves to that block and to no other,
/// with or without a cartridge, whatever the cartridge's size.
pub proof fn lemma_fixed_block_owns(space: Map<u32, Seq<u8>>, base: u32, size: nat, addr: u32)
    requires
        laid_out(space),
        fixed_block(base, size),
        base <= addr < base + size,
    ensures
        owner(space, addr) == Some(base),
        forall|other: u32| owns(space.dom(), other, addr) ==> other == base,
        read_from(space, addr, 1) == Some(seq![space[base][addr - base]]),
{
    assert forall|other: u32| space.contains_key(other) && other <= addr implies other <= base by {
        if !rom_window(other) {
            let other_size = choose|other_size: nat| fixed_block(other, other_size);
            assert(fixed_block(other, other_size));
        }
    }
    assert(owns(space.dom(), base, addr));
    lemma_owner_is(space, base, addr);
    assert forall|other: u32| owns(space.dom(), other, addr) implies other == base by {
        lemma_owner_unique(space.dom(), other, base, addr);
    }
    assert(space[base].subrange(addr - base, addr - base + 1) =~= seq![space[base][addr - base]]);
}

/// The three cartridge ROM windows show the same bytes: reading a range of
/// the image through any window returns that range of the image. The
/// range must end within the image and start within the window, whose
/// width is the distance to the next base.
pub proof fn lemma_windows_mirror(
    space: Map<u32, Seq<u8>>,
    data: Seq<u8>,
    window: u32,
    offset: nat,
    size: nat,
)
    requires
        laid_out(space),
        rom_window(window),
        offset < 0x0200_0000,
        offset + size <= data.len(),
    ensures
        read_from(with_cartridge(space, data), (window + offset) as u32, size) == Some(
            data.subrange(offset as int, (offset + size) as int),
        ),
{
    let after = with_cartridge(space, data);
    let addr = (window + offset) as u32;
    lemma_cartridge_keeps_layout(space, data);
    assert forall|other: u32| after.contains_key(other) && other <= addr implies other
        <= window by {
        if !rom_window(other) {
            assert(space.contains_key(other));
            let other_size = choose|other_size: nat| fixed_block(other, other_size);
            assert(fixed_block(other, other_size));
        }
    }
    assert(owns(after.dom(), window, addr));
    lemma_owner_is(after, window, addr);
}

/// Clearing twice leaves what clearing once leaves: the default layout.
pub proof fn lemma_clear_idempotent(space: Map<u32, Seq<u8>>)
    ensures
        cleared(cleared(space)) == cleared(space),
        cleared(space) == default_layout(),
        laid_out(cleared(space)),
        !cleared(space).contains_key(PAK_ROM),
        !cleared(space).contains_key(PAK_ROM1),
        !cleared(space).contains_key(PAK_ROM2),
        forall|base: u32, size: nat| #[trigger]
            fixed_block(base, size) ==> cleared(space)[base] == zeros(size),
{
    lemma_default_is_laid_out();
}

} // verus!
