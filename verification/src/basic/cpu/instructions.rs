use vstd::prelude::*;

use crate::basic::cpu::CpuError;
use crate::emulator::cpu::instructions::{
    ConditionalOperand, LastOperand2, Operand2, Operand3, condition_at, op2, op3, operand2_at,
    operand3_at,
};

verus! {

/// An instruction as its opcode names it.
#[allow(inconsistent_fields)]
#[derive(Clone, Copy, Debug, PartialEq, Eq, Structural)]
pub enum RawInstruction {
    Nop,
    JumpRegister,
    JumpRelativeConditional { operand: ConditionalOperand },
    XorRegister { operand: Operand3 },
    LoadIndirectHLToRegister8 { operand: Operand3 },
    LoadImmediateToRegister16 { operand: Operand2 },
}

/// An instruction together with its immediate operands.
#[allow(inconsistent_fields)]
#[derive(Clone, Copy, Debug, PartialEq, Eq, Structural)]
pub enum Instruction {
    Nop,
    JumpRegister { address: u8 },
    JumpRelativeConditional { operand: ConditionalOperand, relative: i8 },
    XorRegister { operand: Operand3 },
    LoadIndirectHLToRegister8 { operand: Operand3 },
    LoadImmediateToRegister16 { operand: Operand2 },
}

/// Whether every bit of `mask` is set in `opcode`.
pub open spec fn has_bits(opcode: u8, mask: u8) -> bool {
    opcode & mask == mask
}

/// The instruction that `opcode` names; the tests are tried in order.
pub open spec fn decode_basic(opcode: u8) -> Result<RawInstruction, CpuError> {
    if opcode == 0x00 {
        Ok(RawInstruction::Nop)
    } else if opcode == 0xC3 {
        Ok(RawInstruction::JumpRegister)
    } else if has_bits(opcode, 0xA8) {
        Ok(RawInstruction::XorRegister { operand: operand3_at((opcode >> 3) & 7) })
    } else if has_bits(opcode, 0x01) {
        Ok(RawInstruction::LoadImmediateToRegister16 { operand: operand2_at((opcode >> 4) & 3, false) })
    } else if has_bits(opcode, 0x20) {
        Ok(RawInstruction::JumpRelativeConditional { operand: condition_at((opcode >> 3) & 3) })
    } else if has_bits(opcode, 0x46) {
        Ok(RawInstruction::LoadIndirectHLToRegister8 { operand: operand3_at((opcode >> 3) & 7) })
    } else {
        Err(CpuError::InvalidInstruction)
    }
}

/// Whether every bit of `right` is set in `left`.
fn common_bits(left: u8, right: u8) -> (r: bool)
    ensures
        r == has_bits(left, right),
{
    left & right == right
}

fn get_00xxx000(byte: u8) -> (r: u8)
    ensures
        r == (byte >> 3) & 7,
        r < 8,
{
    assert((byte >> 3) & 7 < 8) by (bit_vector);
    (byte >> 3) & 0b111
}

fn get_00xx0000(byte: u8) -> (r: u8)
    ensures
        r == (byte >> 4) & 3,
        r < 4,
{
    assert((byte >> 4) & 3 < 4) by (bit_vector);
    (byte >> 4) & 0b11
}

fn get_000xx000(byte: u8) -> (r: u8)
    ensures
        r == (byte >> 3) & 3,
        r < 4,
{
    assert((byte >> 3) & 3 < 4) by (bit_vector);
    (byte >> 3) & 0b11
}

impl RawInstruction {
    /// Decodes one opcode.
    pub fn new(opcode: u8) -> (r: Result<Self, CpuError>)
        ensures
            r == decode_basic(opcode),
    {
        if opcode == 0x00 {
            Ok(Self::Nop)
        } else if opcode == 0xC3 {
            Ok(Self::JumpRegister)
        } else if common_bits(opcode, 0b1010_1000) {
            let idx = get_00xxx000(opcode);
            Ok(Self::XorRegister { operand: op3(idx) })
        } else if common_bits(opcode, 0b0000_0001) {
            let idx = get_00xx0000(opcode);
            Ok(Self::LoadImmediateToRegister16 { operand: op2(idx, LastOperand2::SP) })
        } else if common_bits(opcode, 0b0010_0000) {
            let idx = get_000xx000(opcode);
            let operand = match ConditionalOperand::new(idx) {
                Ok(o) => o,
                Err(_) => ConditionalOperand::NZ,
            };
            Ok(Self::JumpRelativeConditional { operand })
        } else if common_bits(opcode, 0b0100_0110) {
            let idx = get_00xxx000(opcode);
            Ok(Self::LoadIndirectHLToRegister8 { operand: op3(idx) })
        } else {
            Err(CpuError::InvalidInstruction)
        }
    }
}

} // verus!
