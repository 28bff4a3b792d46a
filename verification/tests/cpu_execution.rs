use ohboy::emulator::cpu::instructions::{
    AnyInstruction, CBInstruction, ConditionalOperand, IndirectOperand, Instruction, Operand2,
    Operand3,
};
use ohboy::emulator::cpu::register::{ShortRegisterName, WordRegisterName};
use ohboy::emulator::cpu::{Cpu, CpuError};
use ohboy::emulator::mbc::create_mbc;
use ohboy::emulator::memory::Memory;
use ohboy::emulator::memory::ReadMemory;
use ohboy::emulator::register::WordRegisterRead;
use ohboy::emulator::rom::Rom;
use ohboy::emulator::{Emulator, FrameStep, STOP_ADDRESS};
use ohboy::flags::Flags;

/// A 32 KiB cartridge without a controller whose program starts at `0x100`.
fn rom_with(program: &[u8]) -> Rom {
    let mut data = vec![0u8; 0x8000];
    data[0x100..0x100 + program.len()].copy_from_slice(program);
    Rom::new(data)
}

fn emulator_with(program: &[u8]) -> Emulator {
    Emulator::new(&rom_with(program))
}

/// Runs one step and gives the instruction that it executed.
fn step(emu: &mut Emulator) -> AnyInstruction {
    assert!(emu.cpu.can_cycle(&emu.memory));
    match emu.run_frame() {
        Ok(FrameStep { done: false, instruction: Some(i), .. }) => i,
        other => panic!("unexpected step result {:?}", other),
    }
}

fn plain(i: Instruction) -> AnyInstruction {
    AnyInstruction::Instruction(i)
}

fn a(emu: &Emulator) -> u8 {
    emu.cpu.registers.a.get()
}

fn f(emu: &Emulator) -> u8 {
    emu.cpu.registers.f.get().bits()
}

fn pc(emu: &Emulator) -> u16 {
    emu.cpu.registers.pc.get()
}

fn sp(emu: &Emulator) -> u16 {
    emu.cpu.registers.sp.get()
}

#[test]
fn start_state_is_the_dmg_boot_state() {
    let emu = emulator_with(&[]);
    assert_eq!(pc(&emu), 0x0100);
    assert_eq!(sp(&emu), 0xFFFE);
    assert_eq!(a(&emu), 0x01);
    assert_eq!(f(&emu), 0xB0);
    assert_eq!(emu.cpu.registers.bc().get_u16(), 0x0013);
    assert_eq!(emu.cpu.registers.de().get_u16(), 0x00D8);
    assert_eq!(emu.cpu.registers.hl().get_u16(), 0x014D);
    assert!(!emu.cpu.interrupt_master_enable);
    assert!(!emu.cpu.pending_interrupt_enable);
    assert_eq!(emu.cycles, 0);
    assert_eq!(emu.ppu.total_dots, 0);
}

#[test]
fn nop_advances_the_program_counter() {
    let mut emu = emulator_with(&[0x00]);
    let r = emu.run_frame();
    assert_eq!(
        r,
        Ok(FrameStep { done: false, pc: 0x0100, instruction: Some(plain(Instruction::Nop)) })
    );
    assert_eq!(pc(&emu), 0x0101);
    assert_eq!(emu.ppu.total_dots, 4);
    assert_eq!(emu.cycles, 1);
}

#[test]
fn call_then_return_comes_back_after_the_call() {
    let mut program = vec![0u8; 0x11];
    program[0..3].copy_from_slice(&[0xCD, 0x10, 0x01]);
    program[0x10] = 0xC9;
    let mut emu = emulator_with(&program);
    assert_eq!(step(&mut emu), plain(Instruction::CallFunction { address: 0x0110 }));
    assert_eq!(pc(&emu), 0x0110);
    assert_eq!(sp(&emu), 0xFFFC);
    assert_eq!(emu.memory.read_memory(0xFFFD), 0x01);
    assert_eq!(emu.memory.read_memory(0xFFFC), 0x03);
    assert_eq!(emu.ppu.total_dots, 24);
    assert_eq!(step(&mut emu), plain(Instruction::ReturnFunction));
    assert_eq!(pc(&emu), 0x0103);
    assert_eq!(sp(&emu), 0xFFFE);
    assert_eq!(emu.ppu.total_dots, 40);
}

#[test]
fn push_then_pop_copies_a_register_pair() {
    let mut emu = emulator_with(&[0x01, 0xFF, 0x12, 0xC5, 0xD1, 0xC5, 0xF1]);
    let bc = Operand2 { register: WordRegisterName::BC };
    let de = Operand2 { register: WordRegisterName::DE };
    let af = Operand2 { register: WordRegisterName::AF };
    assert_eq!(
        step(&mut emu),
        plain(Instruction::LoadImmediateToRegister16 { operand: bc, immediate: 0x12FF })
    );
    assert_eq!(step(&mut emu), plain(Instruction::PushRegisterToStack { operand: bc }));
    assert_eq!(sp(&emu), 0xFFFC);
    assert_eq!(step(&mut emu), plain(Instruction::PopStackToRegister { operand: de }));
    assert_eq!(emu.cpu.registers.de().get_u16(), 0x12FF);
    assert_eq!(sp(&emu), 0xFFFE);
    assert_eq!(pc(&emu), 0x0105);
    assert_eq!(emu.cpu.registers.bc().get_u16(), 0x12FF);
    assert_eq!(emu.cpu.registers.hl().get_u16(), 0x014D);
    assert_eq!(emu.cpu.registers.af().get_u16(), 0x01B0);
    step(&mut emu);
    assert_eq!(step(&mut emu), plain(Instruction::PopStackToRegister { operand: af }));
    // The flag register keeps only its upper four bits.
    assert_eq!(a(&emu), 0x12);
    assert_eq!(f(&emu), 0xF0);
    assert_eq!(emu.cpu.registers.af().get_u16(), 0x12F0);
}

#[test]
fn increment_then_decrement_restores_the_register() {
    let mut emu = emulator_with(&[0x3C, 0x3D]);
    let a_op = Operand3::Register(ShortRegisterName::A);
    assert_eq!(step(&mut emu), plain(Instruction::IncRegister8 { operand: a_op }));
    assert_eq!(a(&emu), 0x02);
    assert_eq!(f(&emu), 0x10);
    assert_eq!(step(&mut emu), plain(Instruction::DecRegister8 { operand: a_op }));
    assert_eq!(a(&emu), 0x01);
    assert_eq!(f(&emu), 0x50);
    assert_eq!(emu.ppu.total_dots, 8);
}

#[test]
fn increment_sets_half_carry_and_zero() {
    // LD A,0x0F; INC A; LD A,0xFF; INC A
    let mut emu = emulator_with(&[0x3E, 0x0F, 0x3C, 0x3E, 0xFF, 0x3C]);
    step(&mut emu);
    step(&mut emu);
    assert_eq!(a(&emu), 0x10);
    assert_eq!(f(&emu), 0x30);
    step(&mut emu);
    step(&mut emu);
    assert_eq!(a(&emu), 0x00);
    assert_eq!(f(&emu), 0xB0);
}

#[test]
fn xor_a_clears_the_accumulator() {
    let mut emu = emulator_with(&[0xAF]);
    assert_eq!(
        step(&mut emu),
        plain(Instruction::XorRegister { operand: Operand3::Register(ShortRegisterName::A) })
    );
    assert_eq!(a(&emu), 0);
    assert_eq!(f(&emu), 0x80);
    assert_eq!(emu.ppu.total_dots, 8);
}

#[test]
fn xor_with_a_nonzero_result_keeps_the_flags() {
    let mut emu = emulator_with(&[0xA9]);
    step(&mut emu);
    assert_eq!(a(&emu), 0x01 ^ 0x13);
    assert_eq!(f(&emu), 0xB0);
}

#[test]
fn swap_twice_restores_the_register() {
    let mut emu = emulator_with(&[0xCB, 0x37, 0xCB, 0x37]);
    let expected = AnyInstruction::CBInstruction(CBInstruction::SwapNibbles {
        operand: Operand3::Register(ShortRegisterName::A),
    });
    assert_eq!(step(&mut emu), expected);
    assert_eq!(a(&emu), 0x10);
    assert_eq!(f(&emu), 0x00);
    assert_eq!(pc(&emu), 0x0102);
    assert_eq!(emu.ppu.total_dots, 8);
    assert_eq!(step(&mut emu), expected);
    assert_eq!(a(&emu), 0x01);
}

#[test]
fn swap_of_zero_sets_the_zero_flag() {
    // XOR A; SWAP A
    let mut emu = emulator_with(&[0xAF, 0xCB, 0x37]);
    step(&mut emu);
    step(&mut emu);
    assert_eq!(a(&emu), 0);
    assert_eq!(f(&emu), 0x80);
}

#[test]
fn relative_jumps_follow_the_condition() {
    // JR NZ,+5 (not taken, Z is set); JR Z,-2 (taken)
    let mut emu = emulator_with(&[0x20, 0x05, 0x24, 0xFE]);
    assert_eq!(
        step(&mut emu),
        plain(Instruction::JumpRelativeConditional { operand: ConditionalOperand::NZ, relative: 5 })
    );
    assert_eq!(pc(&emu), 0x0102);
    assert_eq!(emu.ppu.total_dots, 8);
    assert_eq!(
        step(&mut emu),
        plain(Instruction::JumpRelativeConditional { operand: ConditionalOperand::Z, relative: -2 })
    );
    assert_eq!(pc(&emu), 0x0102);
    assert_eq!(emu.ppu.total_dots, 20);
}

#[test]
fn absolute_jumps() {
    let mut program = vec![0u8; 0x51];
    program[0..3].copy_from_slice(&[0xC3, 0x50, 0x01]);
    program[0x50] = 0xE9;
    let mut emu = emulator_with(&program);
    assert_eq!(step(&mut emu), plain(Instruction::JumpImmediate { address: 0x0150 }));
    assert_eq!(pc(&emu), 0x0150);
    assert_eq!(step(&mut emu), plain(Instruction::JumpHL));
    assert_eq!(pc(&emu), 0x014D);
}

#[test]
fn indirect_loads_step_hl() {
    // LD (0xC000),A; LD HL,0xC000; LD A,0x42; LD (HL+),A; LD A,(HL-); LD A,(HL+)
    let mut emu = emulator_with(&[
        0xEA, 0x00, 0xC0, 0x21, 0x00, 0xC0, 0x3E, 0x42, 0x22, 0x3A, 0x2A,
    ]);
    assert_eq!(step(&mut emu), plain(Instruction::LoadAccumulatorToMemory { immediate: 0xC000 }));
    assert_eq!(emu.memory.read_memory(0xC000), 0x01);
    step(&mut emu);
    assert_eq!(emu.cpu.registers.hl().get_u16(), 0xC000);
    assert_eq!(
        step(&mut emu),
        plain(Instruction::LoadImmediateToRegister8 {
            operand: Operand3::Register(ShortRegisterName::A),
            immediate: 0x42,
        })
    );
    assert_eq!(
        step(&mut emu),
        plain(Instruction::LoadAccumulatorToIndirect { operand: IndirectOperand::HLInc })
    );
    assert_eq!(emu.memory.read_memory(0xC000), 0x42);
    assert_eq!(emu.cpu.registers.hl().get_u16(), 0xC001);
    assert_eq!(
        step(&mut emu),
        plain(Instruction::LoadIndirectToAccumulator { operand: IndirectOperand::HLDec })
    );
    assert_eq!(a(&emu), 0x00);
    assert_eq!(emu.cpu.registers.hl().get_u16(), 0xC000);
    step(&mut emu);
    assert_eq!(a(&emu), 0x42);
    assert_eq!(emu.cpu.registers.hl().get_u16(), 0xC001);
}

#[test]
fn high_memory_loads() {
    // LD A,0x99; LDH (0x80),A; LD A,0; LDH A,(0x80); LD C,0x81; LD (C),A
    let mut emu = emulator_with(&[0x3E, 0x99, 0xE0, 0x80, 0x3E, 0x00, 0xF0, 0x80, 0x0E, 0x81, 0xE2]);
    step(&mut emu);
    assert_eq!(step(&mut emu), plain(Instruction::LoadAccumulatorToHighMemory { immediate: 0x80 }));
    assert_eq!(emu.memory.read_memory(0xFF80), 0x99);
    step(&mut emu);
    assert_eq!(step(&mut emu), plain(Instruction::LoadHighMemoryToAccumulator { immediate: 0x80 }));
    assert_eq!(a(&emu), 0x99);
    step(&mut emu);
    assert_eq!(step(&mut emu), plain(Instruction::LoadAccumulatorToIndirectC));
    assert_eq!(emu.memory.read_memory(0xFF81), 0x99);
}

#[test]
fn register_to_register_loads() {
    // LD B,C; LD HL,0xC000; LD (HL),B; LD A,(HL)
    let mut emu = emulator_with(&[0x41, 0x21, 0x00, 0xC0, 0x70, 0x7E]);
    assert_eq!(
        step(&mut emu),
        plain(Instruction::LoadRegisterToRegister {
            left_operand: Operand3::Register(ShortRegisterName::B),
            right_operand: Operand3::Register(ShortRegisterName::C),
        })
    );
    assert_eq!(emu.cpu.registers.b.get(), 0x13);
    step(&mut emu);
    step(&mut emu);
    assert_eq!(emu.memory.read_memory(0xC000), 0x13);
    assert_eq!(emu.ppu.total_dots, 4 + 12 + 8);
    step(&mut emu);
    assert_eq!(a(&emu), 0x13);
}

#[test]
fn compare_immediate_sets_flags() {
    let mut emu = emulator_with(&[0xFE, 0x01, 0xFE, 0x02]);
    assert_eq!(step(&mut emu), plain(Instruction::CompareImmediate { immediate: 0x01 }));
    assert_eq!(a(&emu), 0x01);
    assert_eq!(f(&emu), 0xC0);
    step(&mut emu);
    assert_eq!(f(&emu), 0x70);
}

#[test]
fn add_register_sets_flags() {
    // ADD A,B; LD B,0xFF; ADD A,B
    let mut emu = emulator_with(&[0x80, 0x06, 0xFF, 0x80]);
    step(&mut emu);
    assert_eq!(a(&emu), 0x01);
    assert_eq!(f(&emu), 0x00);
    step(&mut emu);
    step(&mut emu);
    assert_eq!(a(&emu), 0x00);
    assert_eq!(f(&emu), 0xB0);
}

#[test]
fn logic_operations() {
    // AND 0; LD A,0xF0; LD B,0x0F; OR B; AND B; CPL
    let mut emu = emulator_with(&[0xE6, 0x00, 0x3E, 0xF0, 0x06, 0x0F, 0xB0, 0xA0, 0x2F]);
    assert_eq!(step(&mut emu), plain(Instruction::BitwiseAndImmediate { immediate: 0 }));
    assert_eq!(a(&emu), 0x00);
    assert_eq!(f(&emu), 0xA0);
    step(&mut emu);
    step(&mut emu);
    step(&mut emu);
    assert_eq!(a(&emu), 0xFF);
    assert_eq!(f(&emu), 0x00);
    step(&mut emu);
    assert_eq!(a(&emu), 0x0F);
    assert_eq!(f(&emu), 0x20);
    assert_eq!(step(&mut emu), plain(Instruction::ComplementAccumulator));
    assert_eq!(a(&emu), 0xF0);
    assert_eq!(f(&emu), 0x60);
}

#[test]
fn add_register_to_hl() {
    let mut emu = emulator_with(&[0x09]);
    step(&mut emu);
    assert_eq!(emu.cpu.registers.hl().get_u16(), 0x0160);
    assert_eq!(f(&emu), 0x80);
    assert_eq!(emu.ppu.total_dots, 8);
}

#[test]
fn add_to_hl_carries() {
    // LD HL,0x0FFF; LD BC,0xF001; ADD HL,BC
    let mut emu = emulator_with(&[0x21, 0xFF, 0x0F, 0x01, 0x01, 0xF0, 0x09]);
    step(&mut emu);
    step(&mut emu);
    step(&mut emu);
    assert_eq!(emu.cpu.registers.hl().get_u16(), 0x0000);
    assert_eq!(f(&emu), 0xB0);
}

#[test]
fn restart_pushes_and_jumps() {
    let mut emu = emulator_with(&[0xFF]);
    assert_eq!(step(&mut emu), plain(Instruction::Restart { address: 0x38 }));
    assert_eq!(pc(&emu), 0x0038);
    assert_eq!(sp(&emu), 0xFFFC);
    assert_eq!(emu.memory.read_memory(0xFFFD), 0x01);
    assert_eq!(emu.memory.read_memory(0xFFFC), 0x01);
}

#[test]
fn interrupt_switches() {
    let mut emu = emulator_with(&[0xFB, 0xF3]);
    assert_eq!(step(&mut emu), plain(Instruction::EnableInterrupts));
    assert!(emu.cpu.pending_interrupt_enable);
    assert!(!emu.cpu.interrupt_master_enable);
    assert_eq!(step(&mut emu), plain(Instruction::DisableInterrupts));
    assert!(!emu.cpu.pending_interrupt_enable);
    assert!(!emu.cpu.interrupt_master_enable);
}

#[test]
fn word_increments_and_decrements() {
    // INC BC; DEC BC; INC SP
    let mut emu = emulator_with(&[0x03, 0x0B, 0x33]);
    step(&mut emu);
    assert_eq!(emu.cpu.registers.bc().get_u16(), 0x0014);
    step(&mut emu);
    assert_eq!(emu.cpu.registers.bc().get_u16(), 0x0013);
    assert_eq!(
        step(&mut emu),
        plain(Instruction::IncRegister16 { operand: Operand2 { register: WordRegisterName::SP } })
    );
    assert_eq!(sp(&emu), 0xFFFF);
    assert_eq!(f(&emu), 0xB0);
}

#[test]
fn invalid_opcode_is_reported() {
    let mut emu = emulator_with(&[0xD3]);
    assert!(emu.cpu.can_cycle(&emu.memory));
    assert_eq!(emu.run_frame(), Err(CpuError::InvalidInstruction { opcode: 0xD3 }));
    assert_eq!(pc(&emu), 0x0101);
    assert_eq!(emu.ppu.total_dots, 0);
    // Nothing but the program counter changed.
    assert_eq!(sp(&emu), 0xFFFE);
    assert_eq!(emu.cpu.registers.af().get_u16(), 0x01B0);
    assert_eq!(emu.cpu.registers.bc().get_u16(), 0x0013);
    assert_eq!(emu.cpu.registers.de().get_u16(), 0x00D8);
    assert_eq!(emu.cpu.registers.hl().get_u16(), 0x014D);
    assert_eq!(emu.memory.read_memory(0xFFFD), 0x00);
}

#[test]
fn invalid_prefixed_opcode_is_reported() {
    let mut emu = emulator_with(&[0xCB, 0x00]);
    assert_eq!(emu.run_frame(), Err(CpuError::InvalidCBInstruction { opcode: 0x00 }));
    assert_eq!(pc(&emu), 0x0102);
}

#[test]
fn halt_and_unmapped_reads_cannot_run() {
    let emu = emulator_with(&[0x76]);
    assert!(!emu.cpu.can_cycle(&emu.memory));
    // LD A,(0xFF45) reads an address that the memory map does not answer.
    let emu = emulator_with(&[0xF0, 0x45]);
    assert!(!emu.cpu.can_cycle(&emu.memory));
    // LD (0x0000),A writes into the cartridge.
    let emu = emulator_with(&[0xEA, 0x00, 0x00]);
    assert!(!emu.cpu.can_cycle(&emu.memory));
}

#[test]
fn stop_address_reports_a_finished_frame() {
    let mut emu = emulator_with(&[]);
    emu.cpu.registers.pc.set(STOP_ADDRESS);
    assert_eq!(emu.run_frame(), Ok(FrameStep { done: true, pc: STOP_ADDRESS, instruction: None }));
    assert_eq!(emu.run_frame(), Ok(FrameStep { done: true, pc: STOP_ADDRESS, instruction: None }));
    assert_eq!(pc(&emu), STOP_ADDRESS);
    assert_eq!(emu.cycles, 2);
    assert_eq!(emu.ppu.total_dots, 0);
}

#[test]
fn cpu_cycle_on_its_own() {
    let rom = rom_with(&[0x00, 0x3C]);
    let mut memory = Memory::new(create_mbc(&rom));
    let mut cpu = Cpu::new();
    let (cycles, instruction) = cpu.cycle(&mut memory).unwrap();
    assert_eq!(cycles.0, 1);
    assert_eq!(instruction, plain(Instruction::Nop));
    let (cycles, _) = cpu.cycle(&mut memory).unwrap();
    assert_eq!(cycles.0, 1);
    assert_eq!(cpu.registers.a.get(), 2);
}

#[test]
fn line_counter_follows_the_executed_cycles() {
    // The blank cartridge is all NOPs, one machine cycle (four dots) each.
    let mut emu = emulator_with(&[]);
    for _ in 0..113 {
        step(&mut emu);
    }
    assert_eq!(emu.memory.read_memory(0xFF44), 0);
    step(&mut emu);
    assert_eq!(emu.ppu.total_dots, 456);
    assert_eq!(emu.memory.read_memory(0xFF44), 1);
    assert_eq!(emu.cycles, 114);
}

#[test]
fn writes_to_tile_data_mark_the_tiles_dirty() {
    // LD (0xC000),A; LD HL,0x8000; LD (HL),A; LD HL,0x9800; LD (HL),A
    let mut emu = emulator_with(&[0xEA, 0x00, 0xC0, 0x21, 0x00, 0x80, 0x77, 0x21, 0x00, 0x98, 0x77]);
    assert!(emu.memory.vram.dirty_tiles);
    emu.memory.vram.dirty_tiles = false;
    step(&mut emu);
    assert!(!emu.memory.vram.dirty_tiles);
    step(&mut emu);
    step(&mut emu);
    assert!(emu.memory.vram.dirty_tiles);
    assert_eq!(emu.memory.read_memory(0x8000), 0x01);
    emu.memory.vram.dirty_tiles = false;
    step(&mut emu);
    step(&mut emu);
    assert!(!emu.memory.vram.dirty_tiles);
    assert_eq!(emu.memory.read_memory(0x9800), 0x01);
}

#[test]
fn a_new_machine_is_at_power_up() {
    let emu = emulator_with(&[]);
    assert!(emu.ppu.framebuffer.is_empty());
    assert_eq!(emu.memory.read_memory(0xFF40), 0x91);
    assert_eq!(emu.memory.read_memory(0xFF47), 0xFC);
    assert_eq!(emu.memory.read_memory(0xFF0F), 0xE1);
    assert_eq!(emu.memory.read_memory(0xD000), 0x00);
    assert!(emu.memory.vram.dirty_tiles);
}
