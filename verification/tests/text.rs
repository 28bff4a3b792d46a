use ohboy::emulator::cpu::instructions::{
    AnyInstruction, CBInstruction, ConditionalOperand, IndirectOperand, Instruction, Operand2,
    Operand3,
};
use ohboy::emulator::cpu::register::{ShortRegisterName, WordRegisterName};
use ohboy::emulator::cpu::text::{hex_string, signed_string};
use ohboy::emulator::cpu::CpuError;

#[test]
fn hexadecimal_numbers() {
    assert_eq!(hex_string(0), "0x0");
    assert_eq!(hex_string(9), "0x9");
    assert_eq!(hex_string(0xff), "0xff");
    assert_eq!(hex_string(0x6556), "0x6556");
    assert_eq!(hex_string(0xFFFF), "0xffff");
    assert_eq!(hex_string(0x100), "0x100");
}

#[test]
fn signed_numbers() {
    assert_eq!(signed_string(0), "+0");
    assert_eq!(signed_string(5), "+5");
    assert_eq!(signed_string(-2), "-2");
    assert_eq!(signed_string(127), "+127");
    assert_eq!(signed_string(-128), "-128");
}

#[test]
fn operand_names() {
    assert_eq!(ShortRegisterName::A.to_string(), "a");
    assert_eq!(ShortRegisterName::F.to_string(), "f");
    assert_eq!(WordRegisterName::SP.to_string(), "sp");
    assert_eq!(WordRegisterName::AF.to_string(), "af");
    assert_eq!(Operand3::IndirectHL.to_string(), "[hl]");
    assert_eq!(Operand3::Register(ShortRegisterName::L).to_string(), "l");
    assert_eq!(Operand2 { register: WordRegisterName::DE }.to_string(), "de");
    assert_eq!(ConditionalOperand::NC.to_string(), "nc");
    assert_eq!(IndirectOperand::HLDec.to_string(), "[hl-]");
}

#[test]
fn instruction_texts() {
    let a = Operand3::Register(ShortRegisterName::A);
    let bc = Operand2 { register: WordRegisterName::BC };
    let cases: Vec<(Instruction, &str)> = vec![
        (Instruction::Nop, "nop"),
        (Instruction::Halt, "halt"),
        (Instruction::EnableInterrupts, "ei"),
        (Instruction::DisableInterrupts, "di"),
        (Instruction::CallFunction { address: 0x0110 }, "call 0x110"),
        (Instruction::PopStackToRegister { operand: bc }, "pop bc"),
        (Instruction::PushRegisterToStack { operand: bc }, "push bc"),
        (Instruction::ReturnFunction, "ret"),
        (Instruction::JumpImmediate { address: 0x0150 }, "jp 0x150"),
        (Instruction::JumpHL, "jp hl"),
        (
            Instruction::JumpRelativeConditional { operand: ConditionalOperand::Z, relative: -2 },
            "jr z, -2",
        ),
        (
            Instruction::JumpRelativeConditional { operand: ConditionalOperand::NZ, relative: 5 },
            "jr nz, +5",
        ),
        (Instruction::XorRegister { operand: a }, "xor a"),
        (Instruction::IncRegister8 { operand: Operand3::IndirectHL }, "inc [hl]"),
        (Instruction::IncRegister16 { operand: bc }, "inc bc"),
        (Instruction::DecRegister8 { operand: a }, "dec a"),
        (Instruction::DecRegister16 { operand: bc }, "dec bc"),
        (
            Instruction::LoadRegisterToRegister {
                left_operand: Operand3::Register(ShortRegisterName::B),
                right_operand: Operand3::Register(ShortRegisterName::C),
            },
            "ld b, c",
        ),
        (Instruction::LoadAccumulatorToIndirect { operand: IndirectOperand::HLInc }, "ld [hl+], a"),
        (Instruction::LoadIndirectToAccumulator { operand: IndirectOperand::DE }, "ld a, [de]"),
        (Instruction::LoadImmediateToRegister8 { operand: a, immediate: 0x42 }, "ld a, 0x42"),
        (Instruction::LoadImmediateToRegister16 { operand: bc, immediate: 0x12FF }, "ld bc, 0x12ff"),
        (Instruction::LoadAccumulatorToHighMemory { immediate: 0x80 }, "ldh 0x80, a"),
        (Instruction::LoadAccumulatorToIndirectC, "ldh [c], a"),
        (Instruction::LoadHighMemoryToAccumulator { immediate: 0x44 }, "ldh a, 0x44"),
        (Instruction::LoadAccumulatorToMemory { immediate: 0xC000 }, "ld 0xc000, a"),
        (Instruction::CompareImmediate { immediate: 0x91 }, "cp 0x91"),
        (Instruction::AddRegister { operand: a }, "add a"),
        (Instruction::BitwiseAndImmediate { immediate: 0 }, "and 0x0"),
        (Instruction::BitwiseOrRegister { operand: a }, "or a"),
        (Instruction::BitwiseAndRegister { operand: a }, "and a"),
        (Instruction::ComplementAccumulator, "cpl"),
        (Instruction::AddRegisterToHL { operand: bc }, "add hl, bc"),
        (Instruction::Restart { address: 0x38 }, "rst 0x38"),
    ];
    for (instruction, text) in cases {
        assert_eq!(instruction.to_string(), text);
        assert_eq!(AnyInstruction::Instruction(instruction).to_string(), text);
    }
}

#[test]
fn prefixed_instruction_text() {
    let swap = CBInstruction::SwapNibbles { operand: Operand3::Register(ShortRegisterName::A) };
    assert_eq!(swap.to_string(), "swap a");
    assert_eq!(AnyInstruction::CBInstruction(swap).to_string(), "swap a");
}

#[test]
fn error_messages() {
    assert_eq!(CpuError::InvalidInstruction { opcode: 0xD3 }.to_string(), "unknown opcode: 0xd3");
    assert_eq!(
        CpuError::InvalidCBInstruction { opcode: 0x00 }.to_string(),
        "unknown cb-prefixed opcode: 0x0"
    );
}
