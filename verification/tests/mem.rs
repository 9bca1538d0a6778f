use gba_core::fault::Fault;
use gba_core::mem::blocks::BlockMap;
use gba_core::mem::{
    read_word, Block, Memory, EXT_WRAM, INT_WRAM, IORAM, KBYTE, OAM, PAK_RAM, PAK_ROM, PAK_ROM1,
    PAK_ROM2, PAL_RAM, SYS_ROM, VRAM,
};

#[test]
fn new() {
    let block = Block::new(1024);
    assert_eq!(1024, block.data.capacity());
    assert_eq!(1024, block.data.len());
    assert_eq!(1024, block.len())
}

#[test]
fn new_blocks() {
    let blocks = Memory::new_blocks();
    assert_eq!(true, blocks.contains_key(&SYS_ROM));
    assert_eq!(16 * KBYTE, blocks.get(&SYS_ROM).unwrap().len());

    assert_eq!(true, blocks.contains_key(&EXT_WRAM));
    assert_eq!(256 * KBYTE, blocks.get(&EXT_WRAM).unwrap().len());
    assert_eq!(true, blocks.contains_key(&INT_WRAM));
    assert_eq!(32 * KBYTE, blocks.get(&INT_WRAM).unwrap().len());

    assert_eq!(true, blocks.contains_key(&IORAM));
    assert_eq!(1 * KBYTE, blocks.get(&IORAM).unwrap().len());
    assert_eq!(true, blocks.contains_key(&PAL_RAM));
    assert_eq!(1 * KBYTE, blocks.get(&PAL_RAM).unwrap().len());
    assert_eq!(true, blocks.contains_key(&VRAM));
    assert_eq!(96 * KBYTE, blocks.get(&VRAM).unwrap().len());
    assert_eq!(true, blocks.contains_key(&OAM));
    assert_eq!(1 * KBYTE, blocks.get(&OAM).unwrap().len());

    assert_eq!(true, blocks.contains_key(&PAK_RAM));
    assert_eq!(64 * KBYTE, blocks.get(&PAK_RAM).unwrap().len());
}

#[test]
fn write() {
    let mut m = Memory::new();
    assert_eq!(Ok(()), m.write(PAK_RAM, &vec![1, 2, 3, 4]));

    assert_eq!(1, m.blocks.get(&PAK_RAM).unwrap().data[0]);
    assert_eq!(2, m.blocks.get(&PAK_RAM).unwrap().data[1]);
    assert_eq!(3, m.blocks.get(&PAK_RAM).unwrap().data[2]);
    assert_eq!(4, m.blocks.get(&PAK_RAM).unwrap().data[3]);
}

#[test]
fn read() {
    let mut m = Memory::new();
    m.blocks.get_mut(&PAK_RAM).unwrap().data[0] = 1;
    m.blocks.get_mut(&PAK_RAM).unwrap().data[1] = 2;
    m.blocks.get_mut(&PAK_RAM).unwrap().data[2] = 3;
    m.blocks.get_mut(&PAK_RAM).unwrap().data[3] = 4;

    assert_eq!(Some(vec![1, 2, 3, 4]), m.read(PAK_RAM, 4));
}

#[test]
fn address_map_bases() {
    assert_eq!(0x0000_0000, SYS_ROM);
    assert_eq!(0x0200_0000, EXT_WRAM);
    assert_eq!(0x0300_0000, INT_WRAM);
    assert_eq!(0x0400_0000, IORAM);
    assert_eq!(0x0500_0000, PAL_RAM);
    assert_eq!(0x0600_0000, VRAM);
    assert_eq!(0x0700_0000, OAM);
    assert_eq!(0x0800_0000, PAK_ROM);
    assert_eq!(0x0A00_0000, PAK_ROM1);
    assert_eq!(0x0C00_0000, PAK_ROM2);
    assert_eq!(0x0E00_0000, PAK_RAM);
}

#[test]
fn new_memory_has_no_cartridge_rom() {
    let m = Memory::new();
    assert_eq!(false, m.blocks.contains_key(&PAK_ROM));
    assert_eq!(false, m.blocks.contains_key(&PAK_ROM1));
    assert_eq!(false, m.blocks.contains_key(&PAK_ROM2));
    // the owner of a cartridge ROM address is then object-attribute memory, which is too short
    assert_eq!(None, m.read(PAK_ROM, 1));
    assert_eq!(None, m.read(PAK_ROM2 + 5, 1));
}

#[test]
fn new_memory_is_zeroed() {
    let m = Memory::new();
    assert_eq!(Some(vec![0; 16 * KBYTE]), m.read(SYS_ROM, 16 * KBYTE));
    assert_eq!(Some(vec![0; 1 * KBYTE]), m.read(OAM, 1 * KBYTE));
    assert_eq!(Some(0), m.read_u32(VRAM + 96 * 1024 - 4));
}

#[test]
fn write_then_read_at_cartridge_ram_base() {
    let mut m = Memory::new();
    assert_eq!(Ok(()), m.write(PAK_RAM, &[0xDE, 0xAD, 0xBE, 0xEF]));
    assert_eq!(Some(vec![0xDE, 0xAD, 0xBE, 0xEF]), m.read(PAK_RAM, 4));
    assert_eq!(Some(0xEFBE_ADDE), m.read_u32(PAK_RAM));
    // the bytes around the write are untouched
    assert_eq!(Some(vec![0xEF, 0, 0]), m.read(PAK_RAM + 3, 3));
}

#[test]
fn write_inside_a_block_keeps_the_rest() {
    let mut m = Memory::new();
    assert_eq!(Ok(()), m.write(INT_WRAM + 10, &[1, 2, 3]));
    assert_eq!(Ok(()), m.write(INT_WRAM + 12, &[9]));
    assert_eq!(Some(vec![0, 1, 2, 9, 0]), m.read(INT_WRAM + 9, 5));
    assert_eq!(32 * KBYTE, m.blocks.get(&INT_WRAM).unwrap().len());
    // other blocks are untouched
    assert_eq!(Some(vec![0; 16]), m.read(EXT_WRAM + 9, 16));
}

#[test]
fn the_last_byte_of_a_block_is_addressable() {
    let mut m = Memory::new();
    let end = PAK_RAM + 64 * 1024;
    assert_eq!(Ok(()), m.write(end - 1, &[0x5A]));
    assert_eq!(Some(vec![0x5A]), m.read(end - 1, 1));
    assert_eq!(Ok(()), m.write(end - 4, &[1, 2, 3, 4]));
    assert_eq!(Some(vec![1, 2, 3, 4]), m.read(end - 4, 4));
    assert_eq!(Some(0x0403_0201), m.read_u32(end - 4));
    let whole = m.read(PAK_RAM, 64 * KBYTE).unwrap();
    assert_eq!(64 * KBYTE, whole.len());
    assert_eq!(4, whole[64 * KBYTE - 1]);
}

#[test]
fn read_past_the_end_of_a_block_is_a_fault() {
    let m = Memory::new();
    let end = PAK_RAM + 64 * 1024;
    assert_eq!(None, m.read(end - 1, 2));
    assert_eq!(None, m.read(end - 3, 4));
    assert_eq!(None, m.read_u32(end - 3));
    assert_eq!(None, m.read(PAK_RAM, 64 * KBYTE + 1));
    assert_eq!(None, m.read(end, 1));
    assert_eq!(None, m.read(end + 100, 1));
    assert_eq!(None, m.read(SYS_ROM + 16 * 1024, 4));
    assert_eq!(None, m.read(0x0100_0000, 1));
    assert_eq!(None, m.read(0xFFFF_FFFF, 1));
    assert_eq!(None, m.read(PAK_RAM, usize::MAX));
    assert_eq!(None, m.read(PAK_RAM + 1, usize::MAX));
}

#[test]
fn empty_access() {
    let mut m = Memory::new();
    let end = IORAM + 1024;
    assert_eq!(Some(vec![]), m.read(IORAM, 0));
    assert_eq!(Some(vec![]), m.read(end, 0));
    assert_eq!(None, m.read(end + 1, 0));
    assert_eq!(Ok(()), m.write(end, &[]));
    assert_eq!(Err(Fault::OutOfRange), m.write(end + 1, &[]));
}

#[test]
fn write_past_the_end_of_a_block_is_refused_and_changes_nothing() {
    let mut m = Memory::new();
    let end = OAM + 1024;
    assert_eq!(Ok(()), m.write(end - 2, &[7, 8]));
    assert_eq!(Err(Fault::OutOfRange), m.write(end - 2, &[1, 2, 3]));
    assert_eq!(Err(Fault::OutOfRange), m.write(end - 1, &[1, 2]));
    assert_eq!(Err(Fault::OutOfRange), m.write(end, &[1]));
    assert_eq!(Err(Fault::OutOfRange), m.write(0x0100_0000, &[1]));
    assert_eq!(Err(Fault::OutOfRange), m.write(PAK_ROM, &[1]));
    assert_eq!(Some(vec![0, 7, 8]), m.read(end - 3, 3));
    assert_eq!(1024, m.blocks.get(&OAM).unwrap().len());
}

#[test]
fn load_pak_installs_three_windows() {
    let mut m = Memory::new();
    let rom: Vec<u8> = (0..200u32).map(|i| (i * 3) as u8).collect();
    m.load_pak(&rom);
    for base in [PAK_ROM, PAK_ROM1, PAK_ROM2] {
        assert_eq!(true, m.blocks.contains_key(&base));
        assert_eq!(200, m.blocks.get(&base).unwrap().len());
        assert_eq!(Some(rom.clone()), m.read(base, 200));
        assert_eq!(Some(vec![30, 33, 36]), m.read(base + 10, 3));
        assert_eq!(None, m.read(base, 201));
        assert_eq!(None, m.read(base + 199, 2));
    }
    // the fixed blocks stay
    assert_eq!(Some(vec![0; 4]), m.read(PAK_RAM, 4));
    assert_eq!(16 * KBYTE, m.blocks.get(&SYS_ROM).unwrap().len());
}

#[test]
fn a_write_through_one_window_does_not_show_in_the_others() {
    let mut m = Memory::new();
    m.load_pak(&[1, 2, 3, 4, 5, 6, 7, 8]);
    assert_eq!(Ok(()), m.write(PAK_ROM1 + 2, &[0xAA, 0xBB]));
    assert_eq!(Some(vec![1, 2, 0xAA, 0xBB, 5, 6, 7, 8]), m.read(PAK_ROM1, 8));
    assert_eq!(Some(vec![1, 2, 3, 4, 5, 6, 7, 8]), m.read(PAK_ROM, 8));
    assert_eq!(Some(vec![1, 2, 3, 4, 5, 6, 7, 8]), m.read(PAK_ROM2, 8));
}

#[test]
fn load_pak_replaces_an_earlier_cartridge() {
    let mut m = Memory::new();
    m.load_pak(&[1, 2, 3, 4, 5, 6, 7, 8]);
    m.load_pak(&[9, 9]);
    assert_eq!(Some(vec![9, 9]), m.read(PAK_ROM, 2));
    assert_eq!(None, m.read(PAK_ROM, 3));
    assert_eq!(Some(vec![9, 9]), m.read(PAK_ROM2, 2));
}

#[test]
fn clear_puts_the_default_layout_back() {
    let mut m = Memory::new();
    m.load_pak(&[1, 2, 3, 4]);
    assert_eq!(Ok(()), m.write(EXT_WRAM + 5, &[1, 2, 3]));
    m.clear();
    assert_eq!(false, m.blocks.contains_key(&PAK_ROM));
    assert_eq!(false, m.blocks.contains_key(&PAK_ROM1));
    assert_eq!(false, m.blocks.contains_key(&PAK_ROM2));
    assert_eq!(None, m.read(PAK_ROM, 4));
    assert_eq!(Some(vec![0; 8]), m.read(EXT_WRAM + 4, 8));
    assert_eq!(256 * KBYTE, m.blocks.get(&EXT_WRAM).unwrap().len());
}

fn same_contents(a: &Memory, b: &Memory) -> bool {
    [SYS_ROM, EXT_WRAM, INT_WRAM, IORAM, PAL_RAM, VRAM, OAM, PAK_ROM, PAK_ROM1, PAK_ROM2, PAK_RAM]
        .iter()
        .all(|base| {
            a.blocks.get(base).map(|block| block.data.clone())
                == b.blocks.get(base).map(|block| block.data.clone())
        })
}

#[test]
fn clear_twice_is_clear_once() {
    let mut once = Memory::new();
    once.load_pak(&[1, 2, 3, 4]);
    assert_eq!(Ok(()), once.write(VRAM, &[1]));
    let mut twice = Memory::new();
    twice.load_pak(&[1, 2, 3, 4]);
    assert_eq!(Ok(()), twice.write(VRAM, &[1]));
    once.clear();
    twice.clear();
    twice.clear();
    assert!(same_contents(&once, &twice));
    assert!(same_contents(&once, &Memory::new()));
}

#[test]
fn read_u32_is_little_endian() {
    let mut m = Memory::new();
    assert_eq!(Ok(()), m.write(EXT_WRAM + 8, &[0x32, 0x00, 0x00, 0xEA]));
    assert_eq!(Some(0xEA00_0032), m.read_u32(EXT_WRAM + 8));
    assert_eq!(Some(0x0000_EA00), m.read_u32(EXT_WRAM + 10));
    assert_eq!(0x7856_3412, read_word(&[0x12, 0x34, 0x56, 0x78]));
    assert_eq!(0x7856_3412, read_word(&[0x12, 0x34, 0x56, 0x78, 0x9A]));
}

#[test]
fn block_with_contents_copies() {
    let source = vec![5, 6, 7];
    let block = Block::with_contents(&source);
    assert_eq!(source, block.data);
    assert_eq!(3, block.len());
    assert_eq!(0, Block::with_contents(&[]).len());
    assert_eq!(0, Block::new(0).len());
    assert_eq!(vec![0u8; 5], Block::new(5).data);
}

#[test]
fn block_read_at_and_write_at() {
    let mut block = Block::new(6);
    block.write_at(2, &[1, 2, 3]);
    assert_eq!(vec![0, 0, 1, 2, 3, 0], block.data);
    block.write_at(5, &[9]);
    block.write_at(6, &[]);
    assert_eq!(vec![0, 0, 1, 2, 3, 9], block.data);
    assert_eq!(vec![1, 2, 3], block.read_at(2, 3));
    assert_eq!(vec![0, 0, 1, 2, 3, 9], block.read_at(0, 6));
    assert_eq!(Vec::<u8>::new(), block.read_at(6, 0));
}

#[test]
fn block_map_keeps_one_block_per_base() {
    let mut map = BlockMap::new();
    assert_eq!(false, map.contains_key(&0));
    assert!(map.floor(u32::MAX).is_none());
    assert!(map.insert(0x300, Block::with_contents(&[3])).is_none());
    assert!(map.insert(0x100, Block::with_contents(&[1])).is_none());
    assert!(map.insert(0x200, Block::with_contents(&[2])).is_none());
    let before = map.insert(0x200, Block::with_contents(&[2, 2])).unwrap();
    assert_eq!(vec![2], before.data);
    assert_eq!(vec![2, 2], map.get(&0x200).unwrap().data);
    assert_eq!(vec![1], map.get(&0x100).unwrap().data);
    assert_eq!(vec![3], map.get(&0x300).unwrap().data);
    assert!(map.get(&0x101).is_none());
    assert!(map.get_mut(&0x101).is_none());
    assert_eq!(true, map.contains_key(&0x300));
    assert_eq!(false, map.contains_key(&0x2FF));
}

#[test]
fn block_map_floor_is_the_greatest_base_not_above() {
    let mut map = BlockMap::new();
    for base in [0x300u32, 0x100, 0x200] {
        assert!(map.insert(base, Block::with_contents(&[(base >> 8) as u8])).is_none());
    }
    assert!(map.floor(0).is_none());
    assert!(map.floor(0xFF).is_none());
    assert!(map.floor_mut(0xFF).is_none());
    for (addr, base) in [
        (0x100u32, 0x100u32),
        (0x101, 0x100),
        (0x1FF, 0x100),
        (0x200, 0x200),
        (0x2FF, 0x200),
        (0x300, 0x300),
        (u32::MAX, 0x300),
    ] {
        let (found, block) = map.floor(addr).unwrap();
        assert_eq!(base, found);
        assert_eq!(vec![(base >> 8) as u8], block.data);
        let (found, block) = map.floor_mut(addr).unwrap();
        assert_eq!(base, found);
        assert_eq!(vec![(base >> 8) as u8], block.data);
    }
    map.floor_mut(0x2AB).unwrap().1.data[0] = 0x77;
    assert_eq!(vec![0x77], map.get(&0x200).unwrap().data);
    assert_eq!(vec![1], map.get(&0x100).unwrap().data);
}
