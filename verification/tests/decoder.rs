//! Tests of the 32-bit branch decoder and encoder and the compact-set
//! decoder's explicit miss.

use gba_core::instruction_sets::Arm32;
use gba_core::instruction_sets::Branch;
use gba_core::instruction_sets::Condition;
use gba_core::instruction_sets::Thumb32;

fn decode_branch(word: u32) -> Branch {
    match Arm32::find_instruction(word) {
        Some(Arm32::Branch(b)) => b,
        None => panic!("expected {word:#010X} to decode as a branch"),
    }
}

#[test]
fn branch_decodes_positive_offset() {
    let b = decode_branch(0xEA00_0002);
    assert_eq!(b.condition, Condition::Always);
    assert!(!b.opcode);
    assert_eq!(b.offset, 8);
}

#[test]
fn branch_decodes_negative_offset() {
    let b = decode_branch(0xEAFF_FFFF);
    assert_eq!(b.condition, Condition::Always);
    assert!(!b.opcode);
    assert_eq!(b.offset, -4);
}

#[test]
fn branch_decodes_link_bit() {
    let b = decode_branch(0xEB00_0002);
    assert!(b.opcode);
    assert_eq!(b.offset, 8);
}

#[test]
fn branch_decodes_extreme_offsets() {
    // The most negative word-aligned displacement the 24-bit field holds.
    let b = decode_branch(0xEA80_0000);
    assert_eq!(b.offset, -0x0200_0000);
    // The most positive one.
    let b = decode_branch(0xEA7F_FFFF);
    assert_eq!(b.offset, 0x01FF_FFFC);
}

#[test]
fn branch_decodes_reserved_condition() {
    let b = decode_branch(0xFA00_0001);
    assert_eq!(b.condition, Condition::AllSet);
    assert!(!b.opcode);
    assert_eq!(b.offset, 4);
}

#[test]
fn non_branch_words_miss() {
    // Identifier bits 27 and 25 both clear.
    assert!(Arm32::find_instruction(0xE000_0000).is_none());
    // Only bit 26 set.
    assert!(Arm32::find_instruction(0xE400_0002).is_none());
    // Only bit 25 set.
    assert!(Arm32::find_instruction(0xE200_0002).is_none());
    assert!(Arm32::find_instruction(0x0000_0000).is_none());
}

#[test]
fn condition_field_decodes_all_sixteen_values() {
    let expected = [
        Condition::Equal,
        Condition::NEqual,
        Condition::CarrySet,
        Condition::CarryClear,
        Condition::Minus,
        Condition::Positive,
        Condition::VSet,
        Condition::VClear,
        Condition::UHigh,
        Condition::ULow,
        Condition::GreaterEqual,
        Condition::Less,
        Condition::Greater,
        Condition::LessEqual,
        Condition::Always,
        Condition::AllSet,
    ];
    for (nibble, want) in expected.iter().enumerate() {
        let word = ((nibble as u32) << 28) | 0x0A00_0000;
        let b = decode_branch(word);
        assert_eq!(b.condition, *want, "condition nibble {nibble}");
    }
}

#[test]
fn branch_encodes_exact_words() {
    let b = Branch { condition: Condition::Always, opcode: false, offset: 8 };
    assert_eq!(b.to_instruction(), 0xEA00_0002);
    let b = Branch { condition: Condition::Always, opcode: true, offset: -4 };
    assert_eq!(b.to_instruction(), 0xEBFF_FFFF);
    let b = Branch { condition: Condition::Equal, opcode: false, offset: 8 };
    assert_eq!(b.to_instruction(), 0x0A00_0002);
    let b = Branch { condition: Condition::AllSet, opcode: false, offset: 0 };
    assert_eq!(b.to_instruction(), 0xFA00_0000);
}

#[test]
fn branch_offset_round_trips() {
    // Byte offsets that are multiples of 4 within the signed 26-bit range
    // come back exactly after encoding and decoding.
    let offsets = [0, 4, -4, 8, -8, 1024, -1024, 0x01FF_FFFC, -0x0200_0000];
    for &offset in offsets.iter() {
        for &opcode in [false, true].iter() {
            let b = Branch { condition: Condition::Less, opcode, offset };
            let word = b.to_instruction();
            let back = decode_branch(word);
            assert_eq!(back.condition, Condition::Less);
            assert_eq!(back.opcode, opcode);
            assert_eq!(back.offset, offset, "offset {offset} with link {opcode}");
        }
    }
}

#[test]
fn branch_reencoding_reconstructs_relevant_bits() {
    // Decoding then re-encoding reconstructs every bit the identifier
    // pattern determines; bit 26, which it leaves unconstrained, comes out
    // clear.
    let words = [0xEA00_0002u32, 0xEBFF_FFFF, 0x1A12_3456, 0xFA80_0000, 0xEE00_0002];
    for &word in words.iter() {
        let b = decode_branch(word);
        assert_eq!(b.to_instruction(), word & 0xFBFF_FFFF, "word {word:#010X}");
    }
}

#[test]
fn thumb_decoder_misses_every_halfword() {
    assert!(Thumb32::find_instruction(0x0000).is_none());
    assert!(Thumb32::find_instruction(0xE005).is_none());
    assert!(Thumb32::find_instruction(0xFFFF).is_none());
}
