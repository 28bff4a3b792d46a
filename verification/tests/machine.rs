use ohboy::basic::cpu::instructions::RawInstruction as BasicRaw;
use ohboy::basic::cpu::register::{WordRegisterPairMut, WordRegisterPairRead, WordRegisterPairWrite};
use ohboy::basic::cpu::registers::Registers as PlainRegisters;
use ohboy::basic::cpu::registers::{RegisterPairMut, RegisterPairRead, RegisterPairWrite};
use ohboy::emulator::register::Register;
use ohboy::basic::cpu::Cpu as BasicCpu;
use ohboy::basic::cpu::CpuError as BasicError;
use ohboy::emulator::cpu::instructions::{
    ConditionalOperand, IndirectOperand, Operand2, Operand3, RawCBInstruction, RawInstruction,
};
use ohboy::emulator::cpu::register::{ShortRegisterName, WordRegisterName};
use ohboy::emulator::cpu::CpuError;
use ohboy::emulator::register::WordRegisterRead;
use ohboy::emulator::rom::Rom;
use ohboy::emulator::{ActiveCommand, CommandEffect, EmulatorCommand, State};

fn rom_with(program: &[u8]) -> Rom {
    let mut data = vec![0u8; 0x8000];
    data[0x100..0x100 + program.len()].copy_from_slice(program);
    Rom::new(data)
}

#[test]
fn decoding_samples() {
    assert_eq!(RawInstruction::new(0x00), Ok(RawInstruction::Nop));
    assert_eq!(
        RawInstruction::new(0xAF),
        Ok(RawInstruction::XorRegister { operand: Operand3::Register(ShortRegisterName::A) })
    );
    assert_eq!(RawInstruction::new(0x76), Ok(RawInstruction::Halt));
    assert_eq!(
        RawInstruction::new(0x24),
        Ok(RawInstruction::JumpRelativeConditional { operand: ConditionalOperand::Z })
    );
    assert_eq!(
        RawInstruction::new(0x2C),
        Ok(RawInstruction::JumpRelativeConditional { operand: ConditionalOperand::C })
    );
    assert_eq!(
        RawInstruction::new(0x34),
        Ok(RawInstruction::IncRegister8 { operand: Operand3::IndirectHL })
    );
    assert_eq!(
        RawInstruction::new(0x36),
        Ok(RawInstruction::LoadImmediateToRegister8 { operand: Operand3::IndirectHL })
    );
    assert_eq!(
        RawInstruction::new(0xC5),
        Ok(RawInstruction::PushRegisterToStack { operand: Operand2 { register: WordRegisterName::BC } })
    );
    assert_eq!(
        RawInstruction::new(0xF1),
        Ok(RawInstruction::PopStackToRegister { operand: Operand2 { register: WordRegisterName::AF } })
    );
    assert_eq!(
        RawInstruction::new(0x31),
        Ok(RawInstruction::LoadImmediateToRegister16 {
            operand: Operand2 { register: WordRegisterName::SP },
        })
    );
    assert_eq!(
        RawInstruction::new(0x3B),
        Ok(RawInstruction::DecRegister16 { operand: Operand2 { register: WordRegisterName::SP } })
    );
    assert_eq!(
        RawInstruction::new(0x1A),
        Ok(RawInstruction::LoadIndirectToAccumulator { operand: IndirectOperand::DE })
    );
    assert_eq!(
        RawInstruction::new(0x02),
        Ok(RawInstruction::LoadAccumulatorToIndirect { operand: IndirectOperand::BC })
    );
    assert_eq!(
        RawInstruction::new(0x78),
        Ok(RawInstruction::LoadRegisterToRegister {
            left_operand: Operand3::Register(ShortRegisterName::A),
            right_operand: Operand3::Register(ShortRegisterName::B),
        })
    );
    assert_eq!(
        RawInstruction::new(0x86),
        Ok(RawInstruction::AddRegister { operand: Operand3::IndirectHL })
    );
    assert_eq!(
        RawInstruction::new(0xB1),
        Ok(RawInstruction::BitwiseOrRegister { operand: Operand3::Register(ShortRegisterName::C) })
    );
    assert_eq!(
        RawInstruction::new(0xA7),
        Ok(RawInstruction::BitwiseAndRegister { operand: Operand3::Register(ShortRegisterName::A) })
    );
    assert_eq!(
        RawInstruction::new(0x29),
        Ok(RawInstruction::AddRegisterToHL { operand: Operand2 { register: WordRegisterName::HL } })
    );
    assert_eq!(RawInstruction::new(0xC7), Ok(RawInstruction::Restart { address: 0x00 }));
    assert_eq!(RawInstruction::new(0xEF), Ok(RawInstruction::Restart { address: 0x28 }));
    assert_eq!(RawInstruction::new(0xCB), Ok(RawInstruction::CBPrefix));
    assert_eq!(RawInstruction::new(0xE9), Ok(RawInstruction::JumpHL));
}

#[test]
fn undecodable_opcodes_carry_their_byte() {
    for opcode in [0x30u8, 0x38, 0xD3, 0xDB, 0xDD, 0xE3, 0xE4, 0xEB, 0xEC, 0xED, 0xF4, 0xFC, 0xFD] {
        assert_eq!(RawInstruction::new(opcode), Err(CpuError::InvalidInstruction { opcode }));
    }
}

#[test]
fn prefixed_decoding() {
    assert_eq!(
        RawCBInstruction::new(0x37),
        Ok(RawCBInstruction::SwapNibbles { operand: Operand3::Register(ShortRegisterName::A) })
    );
    assert_eq!(
        RawCBInstruction::new(0x36),
        Ok(RawCBInstruction::SwapNibbles { operand: Operand3::IndirectHL })
    );
    assert_eq!(RawCBInstruction::new(0x00), Err(CpuError::InvalidCBInstruction { opcode: 0x00 }));
    assert_eq!(RawCBInstruction::new(0x38), Err(CpuError::InvalidCBInstruction { opcode: 0x38 }));
}

#[test]
fn indirect_operand_registers() {
    assert_eq!(IndirectOperand::BC.register(), WordRegisterName::BC);
    assert_eq!(IndirectOperand::DE.register(), WordRegisterName::DE);
    assert_eq!(IndirectOperand::HLInc.register(), WordRegisterName::HL);
    assert_eq!(IndirectOperand::HLDec.register(), WordRegisterName::HL);
}

#[test]
fn commands_drive_the_shared_state() {
    let mut state = State::new();
    assert!(state.paused);
    assert!(state.emulator.is_none());
    assert_eq!(state.process_command(EmulatorCommand::Active(ActiveCommand::ButtonDown)), CommandEffect::Nothing);
    assert_eq!(state.process_command(EmulatorCommand::Resume), CommandEffect::Nothing);
    assert!(!state.paused);
    assert_eq!(state.process_command(EmulatorCommand::LoadRom(rom_with(&[0x00]))), CommandEffect::Nothing);
    assert!(!state.paused);
    let emulator = state.emulator.as_ref().unwrap();
    assert_eq!(emulator.cycles, 0);
    assert_eq!(emulator.cpu.registers.pc.get(), 0x0100);
    assert_eq!(
        state.process_command(EmulatorCommand::Active(ActiveCommand::ButtonDown)),
        CommandEffect::ButtonPressed
    );
    assert_eq!(state.process_command(EmulatorCommand::Pause), CommandEffect::Nothing);
    assert!(state.paused);
    assert!(state.emulator.is_some());
}

#[test]
fn basic_decoding() {
    assert_eq!(BasicRaw::new(0x00), Ok(BasicRaw::Nop));
    assert_eq!(BasicRaw::new(0xC3), Ok(BasicRaw::JumpRegister));
    // Bits 7, 5 and 3 make an XOR; its operand comes from bits 5..3.
    assert_eq!(
        BasicRaw::new(0xAF),
        Ok(BasicRaw::XorRegister { operand: Operand3::Register(ShortRegisterName::L) })
    );
    assert_eq!(
        BasicRaw::new(0x21),
        Ok(BasicRaw::LoadImmediateToRegister16 { operand: Operand2 { register: WordRegisterName::HL } })
    );
    assert_eq!(
        BasicRaw::new(0x20),
        Ok(BasicRaw::JumpRelativeConditional { operand: ConditionalOperand::NZ })
    );
    assert_eq!(
        BasicRaw::new(0x28),
        Ok(BasicRaw::JumpRelativeConditional { operand: ConditionalOperand::Z })
    );
    assert_eq!(
        BasicRaw::new(0x30),
        Ok(BasicRaw::JumpRelativeConditional { operand: ConditionalOperand::NC })
    );
    assert_eq!(
        BasicRaw::new(0x46),
        Ok(BasicRaw::LoadIndirectHLToRegister8 { operand: Operand3::Register(ShortRegisterName::B) })
    );
    assert_eq!(BasicRaw::new(0x02), Err(BasicError::InvalidInstruction));
    assert_eq!(BasicRaw::new(0x10), Err(BasicError::InvalidInstruction));
}

#[test]
fn basic_cpu_runs_its_instructions() {
    // NOP; LD HL,0x0150; LD B,(HL); JP 0x0110; at 0x110: XOR L
    let mut program = vec![0u8; 0x51];
    program[0..8].copy_from_slice(&[0x00, 0x21, 0x50, 0x01, 0x46, 0xC3, 0x10, 0x01]);
    program[0x10] = 0xA8;
    program[0x50] = 0x5A;
    let mut cpu = BasicCpu::new(rom_with(&program));
    assert_eq!(cpu.registers.pc.get(), 0x0100);
    assert!(cpu.can_cycle());
    assert_eq!(cpu.cycle().0, 1);
    assert_eq!(cpu.cycle().0, 3);
    assert_eq!(cpu.registers.hl().get_u16(), 0x0150);
    assert_eq!(cpu.cycle().0, 2);
    assert_eq!(cpu.registers.b.get(), 0x5A);
    assert_eq!(cpu.cycle().0, 4);
    assert_eq!(cpu.registers.pc.get(), 0x0110);
    // 0xA8 is XOR with the operand from bits 5..3: L.
    assert_eq!(cpu.cycle().0, 2);
    assert_eq!(cpu.registers.a.get(), 0x01 ^ 0x50);
    assert_eq!(cpu.registers.pc.get(), 0x0111);
}

#[test]
fn basic_cpu_refuses_what_it_cannot_run() {
    // 0x02 does not decode.
    let cpu = BasicCpu::new(rom_with(&[0x02]));
    assert!(!cpu.can_cycle());
    // LD B,(HL) with HL past the ROM.
    let mut cpu = BasicCpu::new(rom_with(&[0x21, 0x00, 0x90, 0x46]));
    assert!(cpu.can_cycle());
    cpu.cycle();
    assert!(!cpu.can_cycle());
    // A jump whose operand lies past the end of the ROM.
    let mut data = vec![0u8; 0x150];
    data[0x14E] = 0xC3;
    let mut cpu = BasicCpu::new(Rom::new(data));
    cpu.registers.pc.set(0x14E);
    assert!(!cpu.can_cycle());
}

#[test]
fn plain_registers_hold_the_boot_values() {
    let mut regs = PlainRegisters::new();
    assert_eq!(regs.pc(), 0x0100);
    assert_eq!(regs.sp(), 0xFFFE);
    assert_eq!(regs.af(), 0x01B0);
    assert_eq!(regs.bc(), 0x0013);
    assert_eq!(regs.de(), 0x00D8);
    assert_eq!(regs.hl(), 0x014D);
    assert_eq!(regs.get_8_bit(0), Some(0x00));
    assert_eq!(regs.get_8_bit(1), Some(0x13));
    assert_eq!(regs.get_8_bit(6), Some(0x01));
    assert_eq!(regs.get_8_bit(7), Some(0x01));
    assert_eq!(regs.get_8_bit(8), None);
    regs.set_h(0xAB);
    regs.set_l(0xCD);
    assert_eq!(regs.hl(), 0xABCD);
    regs.set_pc(0x1234);
    assert_eq!(regs.pc(), 0x1234);
}

#[test]
fn register_indexes() {
    assert_eq!(ShortRegisterName::from_3_bit_index(0), Some(ShortRegisterName::B));
    assert_eq!(ShortRegisterName::from_3_bit_index(5), Some(ShortRegisterName::L));
    assert_eq!(ShortRegisterName::from_3_bit_index(6), None);
    assert_eq!(ShortRegisterName::from_3_bit_index(7), Some(ShortRegisterName::A));
    assert_eq!(WordRegisterName::from_2_bit_index(3), Some(WordRegisterName::AF));
    assert_eq!(WordRegisterName::from_2_bit_index(4), None);
}

#[test]
fn writes_through_a_pair_reach_both_registers() {
    use_pairs();
}

fn use_pairs() {
    let mut high: Register<u8> = Register::new(0);
    let mut low: Register<u8> = Register::new(0);
    {
        let mut pair = WordRegisterPairMut::new(&mut high, &mut low);
        pair.set(0xBEEF);
        assert_eq!(pair.get(), 0xBEEF);
    }
    assert_eq!(high.get(), 0xBE);
    assert_eq!(low.get(), 0xEF);
    {
        let mut pair = RegisterPairMut::new(&mut high, &mut low);
        pair.set(0x1234);
        assert_eq!(RegisterPairRead::get(&pair), 0x1234);
    }
    assert_eq!(high.get(), 0x12);
    assert_eq!(low.get(), 0x34);
}
