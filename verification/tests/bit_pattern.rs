use ohboy::bit_pattern::{byte_permutations, match_bits, BitField, PatternError};
use ohboy::emulator::cpu::instructions::{Operand3, RawInstruction};
use ohboy::emulator::cpu::register::ShortRegisterName;

#[test]
fn permutations_take_each_free_bit_as_zero_then_one() {
    assert_eq!(
        byte_permutations("0b0010_xx00"),
        Ok(vec![
            "0b00100000".to_string(),
            "0b00100100".to_string(),
            "0b00101000".to_string(),
            "0b00101100".to_string(),
        ])
    );
    assert_eq!(byte_permutations("0b11"), Ok(vec!["0b11".to_string()]));
    assert_eq!(byte_permutations("0b"), Ok(vec!["0b".to_string()]));
    assert_eq!(byte_permutations("0bX"), Ok(vec!["0b0".to_string(), "0b1".to_string()]));
    assert_eq!(byte_permutations("0b11xx_x111").unwrap().len(), 8);
}

#[test]
fn permutations_reject_malformed_patterns() {
    assert_eq!(byte_permutations("11"), Err(PatternError::MissingPrefix));
    assert_eq!(byte_permutations("0x1"), Err(PatternError::MissingPrefix));
    assert_eq!(byte_permutations(""), Err(PatternError::MissingPrefix));
    assert_eq!(byte_permutations("0b1a2"), Err(PatternError::InvalidCharacter('a')));
}

#[test]
fn fields_are_found_from_the_least_significant_bit() {
    assert_eq!(match_bits("0b0010_xx00"), Ok(BitField { shift: 2, mask_len: 2 }));
    assert_eq!(match_bits("0b01xx_x000"), Ok(BitField { shift: 3, mask_len: 3 }));
    assert_eq!(match_bits("0b0100_0xxx"), Ok(BitField { shift: 0, mask_len: 3 }));
    assert_eq!(match_bits("0b11xx_0001"), Ok(BitField { shift: 4, mask_len: 2 }));
}

#[test]
fn fields_reject_malformed_patterns() {
    assert_eq!(match_bits("ab"), Err(PatternError::MissingPrefix));
    // The characters are read from the last one back.
    assert_eq!(match_bits("0b1a2b"), Err(PatternError::InvalidCharacter('b')));
    assert_eq!(match_bits("0bx2"), Err(PatternError::InvalidCharacter('2')));
}

#[test]
fn decoder_agrees_with_its_patterns() {
    // Every opcode of the XOR pattern decodes to an XOR, its operand taken from the
    // pattern's free bits.
    let field = match_bits("0b1010_1xxx").unwrap();
    for literal in byte_permutations("0b1010_1xxx").unwrap() {
        let opcode = u8::from_str_radix(&literal[2..], 2).unwrap();
        let idx = (opcode >> field.shift) & ((1u8 << field.mask_len) - 1);
        let expected = match idx {
            0 => Operand3::Register(ShortRegisterName::B),
            1 => Operand3::Register(ShortRegisterName::C),
            2 => Operand3::Register(ShortRegisterName::D),
            3 => Operand3::Register(ShortRegisterName::E),
            4 => Operand3::Register(ShortRegisterName::H),
            5 => Operand3::Register(ShortRegisterName::L),
            6 => Operand3::IndirectHL,
            _ => Operand3::Register(ShortRegisterName::A),
        };
        assert_eq!(RawInstruction::new(opcode), Ok(RawInstruction::XorRegister { operand: expected }));
    }
}
