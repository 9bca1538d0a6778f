use std::collections::BTreeMap;

use gba_core::cpu::opcode::{immediate_of, rotate, Op};
use gba_core::cpu::{displace, transfer};
use gba_core::mem::blocks::BlockMap;
use gba_core::mem::{read_word, Block, Memory, PAK_RAM};

/// A small generator of well-spread 32-bit values.
struct Sequence(u64);

impl Sequence {
    fn next(&mut self) -> u32 {
        self.0 = self.0.wrapping_mul(6364136223846793005).wrapping_add(1442695040888963407);
        (self.0 >> 32) as u32
    }
}

/// The decoder written out once more, class by class, from the encodings.
fn decode_by_fields(word: u32) -> Option<Op> {
    let bits = |high: u32, low: u32| (word >> low) & ((1u32 << (high - low + 1)) - 1);
    let immediate = bits(7, 0).rotate_right(2 * bits(11, 8));
    if bits(27, 4) == 0x12FFF1 {
        return Some(Op::Bx);
    }
    if bits(27, 4) == 0x12FFF3 {
        return Some(Op::Blx);
    }
    if bits(27, 20) == 0x12 && bits(7, 4) == 0x7 {
        return Some(Op::Bkpt);
    }
    if bits(27, 24) == 0xF {
        return Some(Op::Swi);
    }
    if bits(27, 25) == 0b101 {
        let words = ((bits(23, 0) << 8) as i32) >> 8;
        let offset = words * 4 + 8;
        return Some(if bits(24, 24) == 1 { Op::Bl(offset) } else { Op::B(offset) });
    }
    if bits(27, 26) == 0 && bits(25, 25) == 1 && bits(24, 21) == 0b1101 {
        return Some(Op::Mov(bits(15, 12) as usize, immediate));
    }
    if bits(27, 26) == 0 && bits(24, 23) == 0b10 && bits(21, 20) == 0b10 {
        let saved = bits(22, 22) == 1;
        let mask = bits(19, 16) as u8;
        return Some(if bits(25, 25) == 1 {
            Op::Msr(true, saved, mask, immediate)
        } else {
            Op::Msr(false, saved, mask, bits(3, 0))
        });
    }
    None
}

#[test]
fn decoder_agrees_with_the_encodings_on_many_words() {
    let mut words = Sequence(1);
    let mut seen = [0usize; 9];
    for round in 0..400_000u32 {
        let mut word = words.next();
        // steer a part of the words into the narrow encodings
        match round % 8 {
            0 => word = (word & 0xF000_000F) | 0x012F_FF10 | (word & 0x20),
            1 => word = (word & 0xFFFF_FF0F) | 0x0120_0070 & !0x00D0_0000,
            2 => word = (word & 0xF04F_FFFF) | 0x0120_0000,
            3 => word = (word & 0xF01F_FFFF) | 0x03A0_0000,
            4 => word = (word & 0xF1FF_FFFF) | 0x0A00_0000,
            _ => {}
        }
        let decoded = Op::from_word(word);
        assert_eq!(decode_by_fields(word), decoded, "word {:#010x}", word);
        assert_eq!(decoded, Op::parse(&word.to_le_bytes()));
        seen[match decoded {
            None => 0,
            Some(Op::B(_)) => 1,
            Some(Op::Bl(_)) => 2,
            Some(Op::Bx) => 3,
            Some(Op::Blx) => 4,
            Some(Op::Mov(_, _)) => 5,
            Some(Op::Msr(_, _, _, _)) => 6,
            Some(Op::Swi) => 7,
            Some(Op::Bkpt) => 8,
        }] += 1;
    }
    for (class, count) in seen.iter().enumerate() {
        assert!(*count > 0, "class {} never came up", class);
    }
}

#[test]
fn decoded_register_indices_are_in_range() {
    let mut words = Sequence(2);
    for _ in 0..200_000 {
        match Op::from_word(words.next()) {
            Some(Op::Mov(rd, _)) => assert!(rd < 16),
            Some(Op::Msr(immediate, _, mask, source)) => {
                assert!(mask < 16);
                assert!(immediate || source < 16);
            }
            Some(Op::B(offset)) | Some(Op::Bl(offset)) => {
                assert_eq!(0, offset % 4);
                assert!(-0x0200_0000 + 8 <= offset && offset <= 0x01FF_FFFC + 8);
            }
            _ => {}
        }
    }
}

#[test]
fn every_branch_field_with_bit_23_set_but_the_last_two_goes_backwards() {
    for field in (0x80_0000u32..=0xFF_FFFF).step_by(997).chain(0xFF_FF00..=0xFF_FFFF) {
        let expected = 4 * (field as i32 - 0x100_0000) + 8;
        assert_eq!(Some(Op::B(expected)), Op::from_word(0xEA00_0000 | field));
        assert_eq!(Some(Op::Bl(expected)), Op::from_word(0xEB00_0000 | field));
        assert_eq!(field < 0xFF_FFFE, expected < 0);
    }
}

#[test]
fn rotate_agrees_with_the_machine() {
    let mut values = Sequence(3);
    for _ in 0..10_000 {
        let value = values.next();
        for amount in 0..32 {
            assert_eq!(value.rotate_right(amount), rotate(value, amount));
        }
        let word = values.next();
        assert_eq!((word & 0xFF).rotate_right(2 * ((word >> 8) & 0xF)), immediate_of(word));
    }
}

#[test]
fn displace_agrees_with_wrapping_addition() {
    let mut values = Sequence(4);
    for _ in 0..200_000 {
        let pc = values.next();
        let offset = values.next() as i32;
        assert_eq!(pc.wrapping_add(offset as u32), displace(pc, offset));
        let near = (values.next() % 64) as i32 - 32;
        assert_eq!(pc.wrapping_add(near as u32), displace(pc, near));
    }
}

#[test]
fn transfer_agrees_byte_by_byte() {
    let mut values = Sequence(5);
    for _ in 0..50_000 {
        let status = values.next();
        let value = values.next();
        let mask = (values.next() & 0xFF) as u8;
        let result = transfer(status, value, mask);
        for byte in 0..4 {
            let from = if mask & (1 << byte) != 0 { value } else { status };
            assert_eq!((from >> (8 * byte)) & 0xFF, (result >> (8 * byte)) & 0xFF);
        }
    }
}

#[test]
fn read_word_agrees_with_the_machine() {
    let mut values = Sequence(6);
    for _ in 0..50_000 {
        let word = values.next();
        assert_eq!(word, read_word(&word.to_le_bytes()));
    }
}

#[test]
fn block_map_agrees_with_an_ordered_map() {
    let mut values = Sequence(7);
    for _ in 0..200 {
        let mut map = BlockMap::new();
        let mut model: BTreeMap<u32, Vec<u8>> = BTreeMap::new();
        for _ in 0..40 {
            let base = values.next() % 64 * 0x100;
            let bytes = vec![values.next() as u8; (values.next() % 5) as usize];
            match values.next() % 3 {
                0 => {
                    let before = map.insert(base, Block::with_contents(&bytes));
                    assert_eq!(model.insert(base, bytes), before.map(|block| block.data));
                }
                1 => {
                    if let Some(block) = map.get_mut(&base) {
                        block.data.push(0xEE);
                    }
                    if let Some(bytes) = model.get_mut(&base) {
                        bytes.push(0xEE);
                    }
                }
                _ => {
                    if let Some((_, block)) = map.floor_mut(base + 7) {
                        block.data.push(0x11);
                    }
                    if let Some((_, bytes)) = model.range_mut(..=base + 7).next_back() {
                        bytes.push(0x11);
                    }
                }
            }
            let addr = values.next() % (65 * 0x100);
            assert_eq!(
                model.range(..=addr).next_back().map(|(base, bytes)| (*base, bytes.clone())),
                map.floor(addr).map(|(base, block)| (base, block.data.clone()))
            );
            assert_eq!(model.get(&addr).cloned(), map.get(&addr).map(|block| block.data.clone()));
            assert_eq!(model.contains_key(&base), map.contains_key(&base));
        }
    }
}

#[test]
fn memory_agrees_with_a_flat_array() {
    let mut values = Sequence(8);
    let mut m = Memory::new();
    let mut flat = vec![0u8; 64 * 1024];
    for _ in 0..20_000 {
        let offset = (values.next() % (64 * 1024 + 16)) as usize;
        let len = (values.next() % 24) as usize;
        let inside = offset + len <= flat.len();
        if values.next() % 2 == 0 {
            let data: Vec<u8> = (0..len).map(|_| values.next() as u8).collect();
            let written = m.write(PAK_RAM + offset as u32, &data);
            assert_eq!(inside, written.is_ok());
            if inside {
                flat[offset..offset + len].copy_from_slice(&data);
            }
        } else {
            let read = m.read(PAK_RAM + offset as u32, len);
            assert_eq!(if inside { Some(flat[offset..offset + len].to_vec()) } else { None }, read);
        }
    }
    assert_eq!(Some(flat), m.read(PAK_RAM, 64 * 1024));
}
