use vstd::prelude::*;

use crate::emulator::cpu::instructions::{
    decode, decode_cb, ConditionalOperand, IndirectOperand, Operand2, Operand3, RawCBInstruction,
    RawInstruction,
};
use crate::emulator::cpu::register::{ShortRegisterName, WordRegisterName};
use crate::emulator::cpu::CpuError;

verus! {

/// The 8-bit operands in the order that opcodes number them: `B`, `C`, `D`, `E`, `H`, `L`,
/// `[HL]`, `A`.
pub open spec fn r8(i: u8) -> Operand3 {
    match i {
        0 => Operand3::Register(ShortRegisterName::B),
        1 => Operand3::Register(ShortRegisterName::C),
        2 => Operand3::Register(ShortRegisterName::D),
        3 => Operand3::Register(ShortRegisterName::E),
        4 => Operand3::Register(ShortRegisterName::H),
        5 => Operand3::Register(ShortRegisterName::L),
        6 => Operand3::IndirectHL,
        _ => Operand3::Register(ShortRegisterName::A),
    }
}

/// The register pairs in the order that opcodes number them: `BC`, `DE`, `HL`, then `AF`
/// for the stack instructions and `SP` for the others.
pub open spec fn r16(i: u8, stack: bool) -> WordRegisterName {
    match i {
        0 => WordRegisterName::BC,
        1 => WordRegisterName::DE,
        2 => WordRegisterName::HL,
        _ => if stack { WordRegisterName::AF } else { WordRegisterName::SP },
    }
}

/// The conditions in the order that opcodes number them: `NZ`, `Z`, `NC`, `C`.
pub open spec fn condition(i: u8) -> ConditionalOperand {
    match i {
        0 => ConditionalOperand::NZ,
        1 => ConditionalOperand::Z,
        2 => ConditionalOperand::NC,
        _ => ConditionalOperand::C,
    }
}

/// The indirect operands in the order that opcodes number them: `[BC]`, `[DE]`, `[HL+]`,
/// `[HL-]`.
pub open spec fn indirect(i: u8) -> IndirectOperand {
    match i {
        0 => IndirectOperand::BC,
        1 => IndirectOperand::DE,
        2 => IndirectOperand::HLInc,
        _ => IndirectOperand::HLDec,
    }
}

/// The opcode masks and fields, written with division and remainder.
pub proof fn lemma_opcode_masks(op: u8)
    by (bit_vector)
    ensures
        op & 0xCF == (op / 64) * 64 + op % 16,
        op & 0xF8 == (op / 8) * 8,
        op & 0xC7 == (op / 64) * 64 + op % 8,
        op & 0xF3 == (op / 16) * 16 + op % 4,
        op & 0xC0 == (op / 64) * 64,
        op & 7 == op % 8,
        (op >> 3) & 7 == (op / 8) % 8,
        (op >> 4) & 3 == (op / 16) % 4,
        (op >> 2) & 3 == (op / 4) % 4,
{
}

/// The opcodes `0x20`, `0x24`, `0x28` and `0x2C` are `JR NZ`, `JR Z`, `JR NC` and `JR C`.
pub proof fn lemma_decode_jump_relative()
    ensures
        forall|k: u8|
            #![trigger decode((0x20 + 4 * k) as u8)]
            k < 4 ==> decode((0x20 + 4 * k) as u8) == Ok::<RawInstruction, CpuError>(
                RawInstruction::JumpRelativeConditional { operand: condition(k) },
            ),
{
    assert forall|k: u8|
        #![trigger decode((0x20 + 4 * k) as u8)]
        k < 4 implies decode((0x20 + 4 * k) as u8) == Ok::<RawInstruction, CpuError>(
            RawInstruction::JumpRelativeConditional { operand: condition(k) },
        ) by {
        lemma_opcode_masks((0x20 + 4 * k) as u8);
    }
}

/// The opcodes `0xA8` to `0xAF` xor `B`, `C`, `D`, `E`, `H`, `L`, `[HL]` and `A` into `A`.
pub proof fn lemma_decode_xor()
    ensures
        forall|k: u8|
            #![trigger decode((0xA8 + k) as u8)]
            k < 8 ==> decode((0xA8 + k) as u8) == Ok::<RawInstruction, CpuError>(
                RawInstruction::XorRegister { operand: r8(k) },
            ),
{
    assert forall|k: u8|
        #![trigger decode((0xA8 + k) as u8)]
        k < 8 implies decode((0xA8 + k) as u8) == Ok::<RawInstruction, CpuError>(
            RawInstruction::XorRegister { operand: r8(k) },
        ) by {
        lemma_opcode_masks((0xA8 + k) as u8);
    }
}

/// The opcodes `0x04 + 8k` increment the `k`-th 8-bit operand, but for `0x24` and `0x2C`, which are taken by `JR Z` and `JR C`.
pub proof fn lemma_decode_inc8()
    ensures
        forall|k: u8|
            #![trigger decode((0x04 + 8 * k) as u8)]
            k < 8 && k != 4 && k != 5 ==> decode((0x04 + 8 * k) as u8) == Ok::<RawInstruction, CpuError>(
                RawInstruction::IncRegister8 { operand: r8(k) },
            ),
{
    assert forall|k: u8|
        #![trigger decode((0x04 + 8 * k) as u8)]
        k < 8 && k != 4 && k != 5 implies decode((0x04 + 8 * k) as u8) == Ok::<RawInstruction, CpuError>(
            RawInstruction::IncRegister8 { operand: r8(k) },
        ) by {
        lemma_opcode_masks((0x04 + 8 * k) as u8);
    }
}

/// The opcodes `0x03`, `0x13`, `0x23` and `0x33` increment `BC`, `DE`, `HL` and `SP`.
pub proof fn lemma_decode_inc16()
    ensures
        forall|k: u8|
            #![trigger decode((0x03 + 16 * k) as u8)]
            k < 4 ==> decode((0x03 + 16 * k) as u8) == Ok::<RawInstruction, CpuError>(
                RawInstruction::IncRegister16 { operand: Operand2 { register: r16(k, false) } },
            ),
{
    assert forall|k: u8|
        #![trigger decode((0x03 + 16 * k) as u8)]
        k < 4 implies decode((0x03 + 16 * k) as u8) == Ok::<RawInstruction, CpuError>(
            RawInstruction::IncRegister16 { operand: Operand2 { register: r16(k, false) } },
        ) by {
        lemma_opcode_masks((0x03 + 16 * k) as u8);
    }
}

/// The opcodes `0x05 + 8k` decrement the `k`-th 8-bit operand.
pub proof fn lemma_decode_dec8()
    ensures
        forall|k: u8|
            #![trigger decode((0x05 + 8 * k) as u8)]
            k < 8 ==> decode((0x05 + 8 * k) as u8) == Ok::<RawInstruction, CpuError>(
                RawInstruction::DecRegister8 { operand: r8(k) },
            ),
{
    assert forall|k: u8|
        #![trigger decode((0x05 + 8 * k) as u8)]
        k < 8 implies decode((0x05 + 8 * k) as u8) == Ok::<RawInstruction, CpuError>(
            RawInstruction::DecRegister8 { operand: r8(k) },
        ) by {
        lemma_opcode_masks((0x05 + 8 * k) as u8);
    }
}

/// The opcodes `0x0B`, `0x1B`, `0x2B` and `0x3B` decrement `BC`, `DE`, `HL` and `SP`.
pub proof fn lemma_decode_dec16()
    ensures
        forall|k: u8|
            #![trigger decode((0x0B + 16 * k) as u8)]
            k < 4 ==> decode((0x0B + 16 * k) as u8) == Ok::<RawInstruction, CpuError>(
                RawInstruction::DecRegister16 { operand: Operand2 { register: r16(k, false) } },
            ),
{
    assert forall|k: u8|
        #![trigger decode((0x0B + 16 * k) as u8)]
        k < 4 implies decode((0x0B + 16 * k) as u8) == Ok::<RawInstruction, CpuError>(
            RawInstruction::DecRegister16 { operand: Operand2 { register: r16(k, false) } },
        ) by {
        lemma_opcode_masks((0x0B + 16 * k) as u8);
    }
}

/// The opcodes `0x02`, `0x12`, `0x22` and `0x32` store `A` at `[BC]`, `[DE]`, `[HL+]` and `[HL-]`.
pub proof fn lemma_decode_store_indirect()
    ensures
        forall|k: u8|
            #![trigger decode((0x02 + 16 * k) as u8)]
            k < 4 ==> decode((0x02 + 16 * k) as u8) == Ok::<RawInstruction, CpuError>(
                RawInstruction::LoadAccumulatorToIndirect { operand: indirect(k) },
            ),
{
    assert forall|k: u8|
        #![trigger decode((0x02 + 16 * k) as u8)]
        k < 4 implies decode((0x02 + 16 * k) as u8) == Ok::<RawInstruction, CpuError>(
            RawInstruction::LoadAccumulatorToIndirect { operand: indirect(k) },
        ) by {
        lemma_opcode_masks((0x02 + 16 * k) as u8);
    }
}

/// The opcodes `0x0A`, `0x1A`, `0x2A` and `0x3A` load `A` from `[BC]`, `[DE]`, `[HL+]` and `[HL-]`.
pub proof fn lemma_decode_load_indirect()
    ensures
        forall|k: u8|
            #![trigger decode((0x0A + 16 * k) as u8)]
            k < 4 ==> decode((0x0A + 16 * k) as u8) == Ok::<RawInstruction, CpuError>(
                RawInstruction::LoadIndirectToAccumulator { operand: indirect(k) },
            ),
{
    assert forall|k: u8|
        #![trigger decode((0x0A + 16 * k) as u8)]
        k < 4 implies decode((0x0A + 16 * k) as u8) == Ok::<RawInstruction, CpuError>(
            RawInstruction::LoadIndirectToAccumulator { operand: indirect(k) },
        ) by {
        lemma_opcode_masks((0x0A + 16 * k) as u8);
    }
}

/// The opcodes `0x06 + 8k` load a byte into the `k`-th 8-bit operand.
pub proof fn lemma_decode_load_immediate8()
    ensures
        forall|k: u8|
            #![trigger decode((0x06 + 8 * k) as u8)]
            k < 8 ==> decode((0x06 + 8 * k) as u8) == Ok::<RawInstruction, CpuError>(
                RawInstruction::LoadImmediateToRegister8 { operand: r8(k) },
            ),
{
    assert forall|k: u8|
        #![trigger decode((0x06 + 8 * k) as u8)]
        k < 8 implies decode((0x06 + 8 * k) as u8) == Ok::<RawInstruction, CpuError>(
            RawInstruction::LoadImmediateToRegister8 { operand: r8(k) },
        ) by {
        lemma_opcode_masks((0x06 + 8 * k) as u8);
    }
}

/// The opcodes `0x01`, `0x11`, `0x21` and `0x31` load a word into `BC`, `DE`, `HL` and `SP`.
pub proof fn lemma_decode_load_immediate16()
    ensures
        forall|k: u8|
            #![trigger decode((0x01 + 16 * k) as u8)]
            k < 4 ==> decode((0x01 + 16 * k) as u8) == Ok::<RawInstruction, CpuError>(
                RawInstruction::LoadImmediateToRegister16 { operand: Operand2 { register: r16(k, false) } },
            ),
{
    assert forall|k: u8|
        #![trigger decode((0x01 + 16 * k) as u8)]
        k < 4 implies decode((0x01 + 16 * k) as u8) == Ok::<RawInstruction, CpuError>(
            RawInstruction::LoadImmediateToRegister16 { operand: Operand2 { register: r16(k, false) } },
        ) by {
        lemma_opcode_masks((0x01 + 16 * k) as u8);
    }
}

/// The opcodes `0x80` to `0x87` add the `k`-th 8-bit operand to `A`.
pub proof fn lemma_decode_add()
    ensures
        forall|k: u8|
            #![trigger decode((0x80 + k) as u8)]
            k < 8 ==> decode((0x80 + k) as u8) == Ok::<RawInstruction, CpuError>(
                RawInstruction::AddRegister { operand: r8(k) },
            ),
{
    assert forall|k: u8|
        #![trigger decode((0x80 + k) as u8)]
        k < 8 implies decode((0x80 + k) as u8) == Ok::<RawInstruction, CpuError>(
            RawInstruction::AddRegister { operand: r8(k) },
        ) by {
        lemma_opcode_masks((0x80 + k) as u8);
    }
}

/// The opcodes `0xB0` to `0xB7` or the `k`-th 8-bit operand into `A`.
pub proof fn lemma_decode_or()
    ensures
        forall|k: u8|
            #![trigger decode((0xB0 + k) as u8)]
            k < 8 ==> decode((0xB0 + k) as u8) == Ok::<RawInstruction, CpuError>(
                RawInstruction::BitwiseOrRegister { operand: r8(k) },
            ),
{
    assert forall|k: u8|
        #![trigger decode((0xB0 + k) as u8)]
        k < 8 implies decode((0xB0 + k) as u8) == Ok::<RawInstruction, CpuError>(
            RawInstruction::BitwiseOrRegister { operand: r8(k) },
        ) by {
        lemma_opcode_masks((0xB0 + k) as u8);
    }
}

/// The opcodes `0xA0` to `0xA7` and the `k`-th 8-bit operand into `A`.
pub proof fn lemma_decode_and()
    ensures
        forall|k: u8|
            #![trigger decode((0xA0 + k) as u8)]
            k < 8 ==> decode((0xA0 + k) as u8) == Ok::<RawInstruction, CpuError>(
                RawInstruction::BitwiseAndRegister { operand: r8(k) },
            ),
{
    assert forall|k: u8|
        #![trigger decode((0xA0 + k) as u8)]
        k < 8 implies decode((0xA0 + k) as u8) == Ok::<RawInstruction, CpuError>(
            RawInstruction::BitwiseAndRegister { operand: r8(k) },
        ) by {
        lemma_opcode_masks((0xA0 + k) as u8);
    }
}

/// The opcodes `0xC7 + 8k` restart at `8k`.
pub proof fn lemma_decode_restart()
    ensures
        forall|k: u8|
            #![trigger decode((0xC7 + 8 * k) as u8)]
            k < 8 ==> decode((0xC7 + 8 * k) as u8) == Ok::<RawInstruction, CpuError>(
                RawInstruction::Restart { address: (8 * k) as u8 },
            ),
{
    assert forall|k: u8|
        #![trigger decode((0xC7 + 8 * k) as u8)]
        k < 8 implies decode((0xC7 + 8 * k) as u8) == Ok::<RawInstruction, CpuError>(
            RawInstruction::Restart { address: (8 * k) as u8 },
        ) by {
        lemma_opcode_masks((0xC7 + 8 * k) as u8);
    }
}

/// The opcodes `0x09`, `0x19`, `0x29` and `0x39` add `BC`, `DE`, `HL` and `SP` to `HL`.
pub proof fn lemma_decode_add_to_hl()
    ensures
        forall|k: u8|
            #![trigger decode((0x09 + 16 * k) as u8)]
            k < 4 ==> decode((0x09 + 16 * k) as u8) == Ok::<RawInstruction, CpuError>(
                RawInstruction::AddRegisterToHL { operand: Operand2 { register: r16(k, false) } },
            ),
{
    assert forall|k: u8|
        #![trigger decode((0x09 + 16 * k) as u8)]
        k < 4 implies decode((0x09 + 16 * k) as u8) == Ok::<RawInstruction, CpuError>(
            RawInstruction::AddRegisterToHL { operand: Operand2 { register: r16(k, false) } },
        ) by {
        lemma_opcode_masks((0x09 + 16 * k) as u8);
    }
}

/// The opcodes `0xC5`, `0xD5`, `0xE5` and `0xF5` push `BC`, `DE`, `HL` and `AF`.
pub proof fn lemma_decode_push()
    ensures
        forall|k: u8|
            #![trigger decode((0xC5 + 16 * k) as u8)]
            k < 4 ==> decode((0xC5 + 16 * k) as u8) == Ok::<RawInstruction, CpuError>(
                RawInstruction::PushRegisterToStack { operand: Operand2 { register: r16(k, true) } },
            ),
{
    assert forall|k: u8|
        #![trigger decode((0xC5 + 16 * k) as u8)]
        k < 4 implies decode((0xC5 + 16 * k) as u8) == Ok::<RawInstruction, CpuError>(
            RawInstruction::PushRegisterToStack { operand: Operand2 { register: r16(k, true) } },
        ) by {
        lemma_opcode_masks((0xC5 + 16 * k) as u8);
    }
}

/// The opcodes `0xC1`, `0xD1`, `0xE1` and `0xF1` pop `BC`, `DE`, `HL` and `AF`.
pub proof fn lemma_decode_pop()
    ensures
        forall|k: u8|
            #![trigger decode((0xC1 + 16 * k) as u8)]
            k < 4 ==> decode((0xC1 + 16 * k) as u8) == Ok::<RawInstruction, CpuError>(
                RawInstruction::PopStackToRegister { operand: Operand2 { register: r16(k, true) } },
            ),
{
    assert forall|k: u8|
        #![trigger decode((0xC1 + 16 * k) as u8)]
        k < 4 implies decode((0xC1 + 16 * k) as u8) == Ok::<RawInstruction, CpuError>(
            RawInstruction::PopStackToRegister { operand: Operand2 { register: r16(k, true) } },
        ) by {
        lemma_opcode_masks((0xC1 + 16 * k) as u8);
    }
}

/// The opcodes `0x40 + 8j + k` copy the `k`-th 8-bit operand into the `j`-th, but for `0x76`,
/// which is `HALT`.
pub proof fn lemma_decode_load_register()
    ensures
        forall|j: u8, k: u8|
            #![trigger decode((0x40 + 8 * j + k) as u8)]
            j < 8 && k < 8 ==> decode((0x40 + 8 * j + k) as u8) == if j == 6 && k == 6 {
                Ok::<RawInstruction, CpuError>(RawInstruction::Halt)
            } else {
                Ok::<RawInstruction, CpuError>(
                    RawInstruction::LoadRegisterToRegister { left_operand: r8(j), right_operand: r8(k) },
                )
            },
{
    assert forall|j: u8, k: u8|
        #![trigger decode((0x40 + 8 * j + k) as u8)]
        j < 8 && k < 8 implies decode((0x40 + 8 * j + k) as u8) == if j == 6 && k == 6 {
            Ok::<RawInstruction, CpuError>(RawInstruction::Halt)
        } else {
            Ok::<RawInstruction, CpuError>(
                RawInstruction::LoadRegisterToRegister { left_operand: r8(j), right_operand: r8(k) },
            )
        } by {
        lemma_opcode_masks((0x40 + 8 * j + k) as u8);
    }
}

/// The opcodes of the instructions without an operand field: `NOP` `0x00`, `EI` `0xFB`, `DI`
/// `0xF3`, `CALL nn` `0xCD`, `RET` `0xC9`, `JP nn` `0xC3`, `JP HL` `0xE9`, `LDH (n), A` `0xE0`,
/// `LD (C), A` `0xE2`, `LD (nn), A` `0xEA`, `LDH A, (n)` `0xF0`, `CP n` `0xFE`, `AND n` `0xE6`,
/// `CPL` `0x2F` and the prefix `0xCB`.
pub proof fn lemma_decode_single_opcodes()
    ensures
        decode(0x00) == Ok::<RawInstruction, CpuError>(RawInstruction::Nop),
        decode(0xFB) == Ok::<RawInstruction, CpuError>(RawInstruction::EnableInterrupts),
        decode(0xF3) == Ok::<RawInstruction, CpuError>(RawInstruction::DisableInterrupts),
        decode(0xCD) == Ok::<RawInstruction, CpuError>(RawInstruction::CallFunction),
        decode(0xC9) == Ok::<RawInstruction, CpuError>(RawInstruction::ReturnFunction),
        decode(0xC3) == Ok::<RawInstruction, CpuError>(RawInstruction::JumpImmediate),
        decode(0xE9) == Ok::<RawInstruction, CpuError>(RawInstruction::JumpHL),
        decode(0xE0) == Ok::<RawInstruction, CpuError>(RawInstruction::LoadAccumulatorToHighMemory),
        decode(0xE2) == Ok::<RawInstruction, CpuError>(RawInstruction::LoadAccumulatorToIndirectC),
        decode(0xEA) == Ok::<RawInstruction, CpuError>(RawInstruction::LoadAccumulatorToMemory),
        decode(0xF0) == Ok::<RawInstruction, CpuError>(RawInstruction::LoadHighMemoryToAccumulator),
        decode(0xFE) == Ok::<RawInstruction, CpuError>(RawInstruction::CompareImmediate),
        decode(0xE6) == Ok::<RawInstruction, CpuError>(RawInstruction::BitwiseAndImmediate),
        decode(0x2F) == Ok::<RawInstruction, CpuError>(RawInstruction::ComplementAccumulator),
        decode(0xCB) == Ok::<RawInstruction, CpuError>(RawInstruction::CBPrefix),
{
    lemma_opcode_masks(0x00);
    lemma_opcode_masks(0xFB);
    lemma_opcode_masks(0xF3);
    lemma_opcode_masks(0xCD);
    lemma_opcode_masks(0xC9);
    lemma_opcode_masks(0xC3);
    lemma_opcode_masks(0xE9);
    lemma_opcode_masks(0xE0);
    lemma_opcode_masks(0xE2);
    lemma_opcode_masks(0xEA);
    lemma_opcode_masks(0xF0);
    lemma_opcode_masks(0xFE);
    lemma_opcode_masks(0xE6);
    lemma_opcode_masks(0x2F);
    lemma_opcode_masks(0xCB);
}

/// The CB-prefixed opcodes `0x30` to `0x37` swap the nibbles of the `k`-th 8-bit operand;
/// every other CB-prefixed opcode is refused.
pub proof fn lemma_decode_prefixed()
    ensures
        forall|k: u8|
            #![trigger decode_cb((0x30 + k) as u8)]
            k < 8 ==> decode_cb((0x30 + k) as u8) == Ok::<RawCBInstruction, CpuError>(
                RawCBInstruction::SwapNibbles { operand: r8(k) },
            ),
        forall|op: u8|
            #![trigger decode_cb(op)]
            op < 0x30 || op > 0x37 ==> decode_cb(op) == Err::<RawCBInstruction, CpuError>(
                CpuError::InvalidCBInstruction { opcode: op },
            ),
{
    assert forall|k: u8|
        #![trigger decode_cb((0x30 + k) as u8)]
        k < 8 implies decode_cb((0x30 + k) as u8) == Ok::<RawCBInstruction, CpuError>(
            RawCBInstruction::SwapNibbles { operand: r8(k) },
        ) by {
        lemma_opcode_masks((0x30 + k) as u8);
    }
    assert forall|op: u8|
        #![trigger decode_cb(op)]
        op < 0x30 || op > 0x37 implies decode_cb(op) == Err::<RawCBInstruction, CpuError>(
            CpuError::InvalidCBInstruction { opcode: op },
        ) by {
        lemma_opcode_masks(op);
    }
}

} // verus!
