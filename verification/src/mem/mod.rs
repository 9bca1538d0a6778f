//! The memory bus: the documented address map and the rule that resolves
//! an access to the block that owns it.
use crate::fault::Fault;
use crate::mem::blocks::{owns, BlockMap};
use crate::mem::laws::{
    lemma_cartridge_keeps_layout, lemma_default_is_laid_out, lemma_owner_is,
    lemma_write_keeps_layout,
};
use vstd::prelude::*;
use vstd::slice::{slice_subrange, slice_to_vec};

pub mod blocks;
pub mod laws;

verus! {

/// The number of bytes in a kibibyte.
pub const KBYTE: usize = 1024;

/// Boot ROM.
pub const SYS_ROM: u32 = 0x00_00_00_00;

pub const SYS_ROM_SIZE: usize = 16 * KBYTE;

/// External work RAM.
pub const EXT_WRAM: u32 = 0x02_00_00_00;

pub const EXT_WRAM_SIZE: usize = 256 * KBYTE;

/// Internal work RAM.
pub const INT_WRAM: u32 = 0x03_00_00_00;

pub const INT_WRAM_SIZE: usize = 32 * KBYTE;

/// I/O register space.
pub const IORAM: u32 = 0x04_00_00_00;

pub const IORAM_SIZE: usize = 1 * KBYTE;

/// Palette RAM.
pub const PAL_RAM: u32 = 0x05_00_00_00;

pub const PAL_RAM_SIZE: usize = 1 * KBYTE;

/// Video RAM.
pub const VRAM: u32 = 0x06_00_00_00;

pub const VRAM_SIZE: usize = 96 * KBYTE;

/// Object-attribute memory.
pub const OAM: u32 = 0x07_00_00_00;

pub const OAM_SIZE: usize = 1 * KBYTE;

/// Cartridge ROM, first window.
pub const PAK_ROM: u32 = 0x08_00_00_00;

/// Cartridge ROM, second window.
pub const PAK_ROM1: u32 = 0x0A_00_00_00;

/// Cartridge ROM, third window.
pub const PAK_ROM2: u32 = 0x0C_00_00_00;

/// Cartridge RAM.
pub const PAK_RAM: u32 = 0x0E_00_00_00;

pub const PAK_RAM_SIZE: usize = 64 * KBYTE;

/// A run of `size` zero bytes.
pub open spec fn zeros(size: nat) -> Seq<u8> {
    Seq::new(size, |i: int| 0u8)
}

/// `bytes` with `data` written over it from index `offset` on.
pub open spec fn overwrite(bytes: Seq<u8>, offset: int, data: Seq<u8>) -> Seq<u8> {
    Seq::new(
        bytes.len(),
        |i: int|
            if offset <= i < offset + data.len() {
                data[i - offset]
            } else {
                bytes[i]
            },
    )
}

/// The 32-bit word that four bytes hold in little-endian order.
pub open spec fn word_of_bytes(bytes: Seq<u8>) -> u32
    recommends
        bytes.len() >= 4,
{
    (bytes[0] as u32) | ((bytes[1] as u32) << 8) | ((bytes[2] as u32) << 16) | ((bytes[3] as u32)
        << 24)
}

/// Assembles the little-endian word of the first four bytes of `data`.
pub fn read_word(data: &[u8]) -> (word: u32)
    requires
        data@.len() >= 4,
    ensures
        word == word_of_bytes(data@),
{
    (data[0] as u32) | ((data[1] as u32) << 8) | ((data[2] as u32) << 16) | ((data[3] as u32) << 24)
}

/// A contiguous region of the address space: a byte buffer of fixed size.
pub struct Block {
    pub data: Vec<u8>,
}

impl View for Block {
    type V = Seq<u8>;

    open spec fn view(&self) -> Seq<u8> {
        self.data@
    }
}

impl Block {
    /// A block of `size` zero bytes.
    pub fn new(size: usize) -> (block: Block)
        ensures
            block@ == zeros(size as nat),
    {
        let mut data: Vec<u8> = Vec::with_capacity(size);
        let mut n: usize = 0;
        while n < size
            invariant
                n <= size,
                data@ == zeros(n as nat),
            decreases size - n,
        {
            data.push(0);
            n = n + 1;
        }
        Block { data }
    }

    /// A block that holds a copy of `contents`.
    pub fn with_contents(contents: &[u8]) -> (block: Block)
        ensures
            block@ == contents@,
    {
        Block { data: slice_to_vec(contents) }
    }

    /// The number of bytes in the block.
    pub fn len(&self) -> (n: usize)
        ensures
            n == self@.len(),
    {
        self.data.len()
    }

    /// A copy of the `size` bytes that start at index `offset`.
    pub fn read_at(&self, offset: usize, size: usize) -> (bytes: Vec<u8>)
        requires
            offset + size <= self@.len(),
        ensures
            bytes@ == self@.subrange(offset as int, offset + size),
    {
        let len: usize = self.data.len();
        assert(offset + size <= len);
        slice_to_vec(slice_subrange(self.data.as_slice(), offset, offset + size))
    }

    /// Copies `data` into the block from index `offset` on.
    pub fn write_at(&mut self, offset: usize, data: &[u8])
        requires
            offset + data@.len() <= old(self)@.len(),
        ensures
            final(self)@ == overwrite(old(self)@, offset as int, data@),
    {
        let len: usize = self.data.len();
        let mut n: usize = 0;
        while n < data.len()
            invariant
                n <= data@.len(),
                offset + data@.len() <= len,
                self@.len() == len,
                self@ == overwrite(old(self)@, offset as int, data@.take(n as int)),
            decreases data@.len() - n,
        {
            self.data[offset + n] = data[n];
            n = n + 1;
        }
        assert(data@.take(n as int) =~= data@);
    }
}

/// The base of the block that owns `addr`: the greatest base in `space`
/// that does not exceed `addr`. `None` when every base lies above `addr`.
pub open spec fn owner(space: Map<u32, Seq<u8>>, addr: u32) -> Option<u32> {
    if exists|base: u32| owns(space.dom(), base, addr) {
        Some(choose|base: u32| owns(space.dom(), base, addr))
    } else {
        None
    }
}

/// Whether the `size` bytes from `addr` on lie within the block at `base`.
///
/// The end is inclusive: an access may reach the last byte of the block,
/// and no further. An access of no bytes fits wherever it starts at or
/// before the end of the block.
pub open spec fn fits(space: Map<u32, Seq<u8>>, base: u32, addr: u32, size: nat) -> bool {
    (addr - base) + size <= space[base].len()
}

/// What a read of `size` bytes at `addr` returns: the bytes, taken from the
/// block that owns `addr`, or `None` when no block owns `addr` or the access
/// runs over the end of the one that does.
pub open spec fn read_from(space: Map<u32, Seq<u8>>, addr: u32, size: nat) -> Option<Seq<u8>> {
    match owner(space, addr) {
        Some(base) => if fits(space, base, addr, size) {
            Some(space[base].subrange(addr - base, addr - base + size))
        } else {
            None
        },
        None => None,
    }
}

/// The address space a write of `data` at `addr` leaves behind, or `None`
/// when the write is refused, on the terms on which a read is.
pub open spec fn write_to(space: Map<u32, Seq<u8>>, addr: u32, data: Seq<u8>) -> Option<
    Map<u32, Seq<u8>>,
> {
    match owner(space, addr) {
        Some(base) => if fits(space, base, addr, data.len()) {
            Some(space.insert(base, overwrite(space[base], addr - base, data)))
        } else {
            None
        },
        None => None,
    }
}

/// The address space as it is built: every fixed block in place and
/// zeroed, no cartridge ROM.
pub open spec fn default_layout() -> Map<u32, Seq<u8>> {
    Map::<u32, Seq<u8>>::empty().insert(SYS_ROM, zeros(SYS_ROM_SIZE as nat)).insert(
        EXT_WRAM,
        zeros(EXT_WRAM_SIZE as nat),
    ).insert(INT_WRAM, zeros(INT_WRAM_SIZE as nat)).insert(IORAM, zeros(IORAM_SIZE as nat)).insert(
        PAL_RAM,
        zeros(PAL_RAM_SIZE as nat),
    ).insert(VRAM, zeros(VRAM_SIZE as nat)).insert(OAM, zeros(OAM_SIZE as nat)).insert(
        PAK_RAM,
        zeros(PAK_RAM_SIZE as nat),
    )
}

/// The address space a clear leaves behind, whatever it was before.
pub open spec fn cleared(space: Map<u32, Seq<u8>>) -> Map<u32, Seq<u8>> {
    default_layout()
}

/// The address space with `data` installed at the three cartridge ROM
/// windows. Each window holds the same bytes.
pub open spec fn with_cartridge(space: Map<u32, Seq<u8>>, data: Seq<u8>) -> Map<u32, Seq<u8>> {
    space.insert(PAK_ROM, data).insert(PAK_ROM1, data).insert(PAK_ROM2, data)
}

/// Whether `base` is the base of a fixed block of `size` bytes.
pub open spec fn fixed_block(base: u32, size: nat) -> bool {
    ||| base == SYS_ROM && size == SYS_ROM_SIZE
    ||| base == EXT_WRAM && size == EXT_WRAM_SIZE
    ||| base == INT_WRAM && size == INT_WRAM_SIZE
    ||| base == IORAM && size == IORAM_SIZE
    ||| base == PAL_RAM && size == PAL_RAM_SIZE
    ||| base == VRAM && size == VRAM_SIZE
    ||| base == OAM && size == OAM_SIZE
    ||| base == PAK_RAM && size == PAK_RAM_SIZE
}

/// Whether `base` is one of the three cartridge ROM windows.
pub open spec fn rom_window(base: u32) -> bool {
    base == PAK_ROM || base == PAK_ROM1 || base == PAK_ROM2
}

/// The documented address map: every fixed block stands at its base with
/// its documented size, and no block stands anywhere but at a fixed base
/// or a cartridge ROM window.
pub open spec fn laid_out(space: Map<u32, Seq<u8>>) -> bool {
    &&& forall|base: u32, size: nat| #[trigger]
        fixed_block(base, size) ==> space.contains_key(base) && space[base].len() == size
    &&& forall|base: u32| #[trigger]
        space.contains_key(base) ==> rom_window(base) || exists|size: nat| fixed_block(base, size)
}

/// The memory bus: the address space the CPU reads and writes.
pub struct Memory {
    pub blocks: BlockMap,
}

impl View for Memory {
    type V = Map<u32, Seq<u8>>;

    open spec fn view(&self) -> Map<u32, Seq<u8>> {
        self.blocks@
    }
}

impl Memory {
    /// A memory bus with the default layout.
    pub fn new() -> (m: Memory)
        ensures
            m@ == default_layout(),
            laid_out(m@),
    {
        proof {
            lemma_default_is_laid_out();
        }
        Memory { blocks: Memory::new_blocks() }
    }

    /// The blocks of the default layout.
    pub fn new_blocks() -> (blocks: BlockMap)
        ensures
            blocks@ == default_layout(),
    {
        let mut blocks = BlockMap::new();

        blocks.insert(SYS_ROM, Block::new(SYS_ROM_SIZE));

        blocks.insert(EXT_WRAM, Block::new(EXT_WRAM_SIZE));
        blocks.insert(INT_WRAM, Block::new(INT_WRAM_SIZE));

        blocks.insert(IORAM, Block::new(IORAM_SIZE));
        blocks.insert(PAL_RAM, Block::new(PAL_RAM_SIZE));
        blocks.insert(VRAM, Block::new(VRAM_SIZE));
        blocks.insert(OAM, Block::new(OAM_SIZE));

        blocks.insert(PAK_RAM, Block::new(PAK_RAM_SIZE));

        blocks
    }

    /// Installs a cartridge image at the three cartridge ROM windows. Each
    /// window gets a copy of its own, so a later write through one window
    /// does not show in the others.
    pub fn load_pak(&mut self, data: &[u8])
        ensures
            final(self)@ == with_cartridge(old(self)@, data@),
            laid_out(old(self)@) ==> laid_out(final(self)@),
    {
        proof {
            if laid_out(self@) {
                lemma_cartridge_keeps_layout(self@, data@);
            }
        }
        self.blocks.insert(PAK_ROM, Block::with_contents(data));
        self.blocks.insert(PAK_ROM1, Block::with_contents(data));
        self.blocks.insert(PAK_ROM2, Block::with_contents(data));
    }

    /// Puts the default layout back: every fixed block zeroed, the
    /// cartridge ROM windows gone.
    pub fn clear(&mut self)
        ensures
            final(self)@ == cleared(old(self)@),
            laid_out(final(self)@),
    {
        proof {
            lemma_default_is_laid_out();
        }
        self.blocks = Memory::new_blocks()
    }

    /// Reads `size` bytes at `addr`.
    ///
    /// The access goes to the block with the greatest base that does not
    /// exceed `addr` and succeeds when it ends at or before that block's
    /// end. Otherwise the result is `None`; nothing is ever cut short.
    pub fn read(&self, addr: u32, size: usize) -> (r: Option<Vec<u8>>)
        ensures
            match r {
                Some(bytes) => read_from(self@, addr, size as nat) == Some(bytes@),
                None => read_from(self@, addr, size as nat) is None,
            },
    {
        match self.blocks.floor(addr) {
            Some((start, block)) => {
                proof {
                    lemma_owner_is(self@, start, addr);
                }
                let block_offset: usize = (addr - start) as usize;
                if block_offset <= block.len() && size <= block.len() - block_offset {
                    Some(block.read_at(block_offset, size))
                } else {
                    None
                }
            },
            None => None,
        }
    }

    /// Reads the little-endian word at `addr`.
    pub fn read_u32(&self, addr: u32) -> (r: Option<u32>)
        ensures
            match r {
                Some(word) => read_from(self@, addr, 4) matches Some(bytes) && word
                    == word_of_bytes(bytes),
                None => read_from(self@, addr, 4) is None,
            },
    {
        match self.read(addr, 4) {
            Some(data) => Some(read_word(data.as_slice())),
            None => None,
        }
    }

    /// Writes `data` at `addr`, on the terms on which [`Memory::read`]
    /// reads: the bytes are copied into the owning block in place. A write
    /// that no block takes in full is refused and leaves memory as it was.
    pub fn write(&mut self, addr: u32, data: &[u8]) -> (r: Result<(), Fault>)
        ensures
            match r {
                Ok(()) => write_to(old(self)@, addr, data@) == Some(final(self)@),
                Err(fault) => fault == Fault::OutOfRange && write_to(old(self)@, addr, data@)
                    is None && final(self)@ == old(self)@,
            },
            laid_out(old(self)@) ==> laid_out(final(self)@),
    {
        proof {
            if laid_out(self@) && write_to(self@, addr, data@) is Some {
                lemma_write_keeps_layout(self@, addr, data@);
            }
        }
        match self.blocks.floor_mut(addr) {
            Some((start, block)) => {
                proof {
                    lemma_owner_is(old(self)@, start, addr);
                }
                let block_offset: usize = (addr - start) as usize;
                if block_offset <= block.len() && data.len() <= block.len() - block_offset {
                    block.write_at(block_offset, data);
                    Ok(())
                } else {
                    assert(old(self)@.insert(start, block@) =~= old(self)@);
                    Err(Fault::OutOfRange)
                }
            },
            None => Err(Fault::OutOfRange),
        }
    }
}

} // verus!
