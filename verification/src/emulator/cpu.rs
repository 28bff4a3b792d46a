pub mod alu;
pub mod instructions;
pub mod interrupt;
pub mod laws;
pub mod opcode_table;
pub mod register;
pub mod semantics;
pub mod text;

use vstd::prelude::*;

use crate::emulator::cpu::alu::{
    add16, add_carry_16, add_carry_8, high_address, sub16, sub_carry, swap_nibbles, u16_le,
    u16_lsb, u16_msb,
};
use crate::emulator::cpu::instructions::{
    decode, decode_cb, AnyInstruction, CBInstruction, ConditionalOperand, IndirectOperand,
    Instruction, Operand2, Operand3, RawCBInstruction, RawInstruction,
};
use crate::emulator::cpu::register::{
    CpuFlags, RegisterFile, Registers, WordRegisterName, hi, lo,
};
use crate::emulator::cpu::semantics::{
    CpuState, advance, condition_holds, cycle_ok, cycle_spec, execute_cb_ok, execute_cb_spec,
    execute_ok, execute_spec, executes, imm16, imm16_ok, imm8, imm8_ok, indirect_address, indirect_step,
    load3, load3_ok, pop_ok, pop_regs, push_mem, push_ok, push_regs, store3_mem, store3_ok,
    store3_regs, top, lemma_prefix_does_nothing, with_pc, touches_tiles, cb_touches_tiles,
    cycle_touches_tiles, operand_touches, push_touches,
};
use crate::emulator::MachineCycle;
use crate::emulator::memory::{Memory, ReadMemory, WriteMemory, is_writable, writable, store};
use crate::emulator::register::{ByteRegisterRead, WordRegisterRead};
use crate::flags::Flags;

verus! {

/// Why the CPU could not execute an instruction.
#[derive(Debug, Clone, Copy, PartialEq, Eq, Structural)]
pub enum CpuError {
    InvalidInstruction { opcode: u8 },
    InvalidCBInstruction { opcode: u8 },
}

/// The processor: its registers and its interrupt switches.
pub struct Cpu {
    pub registers: Registers,
    pub interrupt_master_enable: bool,
    pub pending_interrupt_enable: bool,
}

impl View for Cpu {
    type V = CpuState;

    open spec fn view(&self) -> CpuState {
        CpuState {
            regs: self.registers@,
            ime: self.interrupt_master_enable,
            pending_ime: self.pending_interrupt_enable,
        }
    }
}

/// `x + 1`, wrapping.
fn inc16(x: u16) -> (r: u16)
    ensures
        r == add16(x, 1),
{
    x.wrapping_add(1)
}

/// `x - 1`, wrapping.
fn dec16(x: u16) -> (r: u16)
    ensures
        r == sub16(x, 1),
{
    x.wrapping_sub(1)
}

/// Adding a signed offset with wrapping is addition modulo 65536.
proof fn lemma_add_signed(pc: u16, relative: i8)
    ensures
        vstd::wrapping::u16_specs::wrapping_add_signed(pc, relative as i16) == crate::emulator::cpu::alu::add16_signed(pc, relative),
{
}

/// The memory keeps its invariant and its cartridge, and tiles marked dirty stay marked.
pub open spec fn memory_kept(before: Memory, after: Memory) -> bool {
    &&& after.wf()
    &&& after.mbc == before.mbc
    &&& before.vram.dirty_tiles ==> after.vram.dirty_tiles
}

impl Cpu {
    /// The state after power-up: the register values that the DMG boot program leaves,
    /// interrupts off.
    pub open spec fn new_spec() -> CpuState {
        CpuState {
                regs: RegisterFile {
                    pc: 0x0100,
                    sp: 0xFFFE,
                    a: 0x01,
                    f: 0xB0,
                    b: 0x00,
                    c: 0x13,
                    d: 0x00,
                    e: 0xD8,
                    h: 0x01,
                    l: 0x4D,
                },
                ime: false,
                pending_ime: false,
            }
    }

    /// A CPU with the register values that the DMG boot program leaves and interrupts off.
    pub fn new() -> (r: Self)
        ensures
            r@ == Self::new_spec(),
    {
        Self {
            registers: Registers::new(),
            interrupt_master_enable: false,
            pending_interrupt_enable: false,
        }
    }

    /// Whether the flags meet the condition `operand`.
    fn check_condition(&self, operand: ConditionalOperand) -> (r: bool)
        ensures
            r == condition_holds(self@.regs.f, operand),
    {
        let flags = self.registers.f.get();
        match operand {
            ConditionalOperand::NZ => !flags.contains(CpuFlags::ZERO),
            ConditionalOperand::Z => flags.contains(CpuFlags::ZERO),
            ConditionalOperand::NC => !flags.contains(CpuFlags::CARRY),
            ConditionalOperand::C => flags.contains(CpuFlags::CARRY),
        }
    }

    /// Reads the byte at the program counter and advances it.
    fn consume_pc_u8(&mut self, memory: &Memory) -> (r: u8)
        requires
            memory.wf(),
            imm8_ok(old(self)@, memory@),
        ensures
            r == imm8(old(self)@, memory@),
            final(self)@ == advance(old(self)@, 1),
    {
        let cur_pc = self.registers.pc.get();
        self.registers.pc.set(cur_pc.wrapping_add(1));
        memory.read_memory(cur_pc)
    }

    /// Reads the little-endian word at the program counter and advances it past it.
    fn consume_pc_u16(&mut self, memory: &Memory) -> (r: u16)
        requires
            memory.wf(),
            imm16_ok(old(self)@, memory@),
        ensures
            r == imm16(old(self)@, memory@),
            final(self)@ == advance(old(self)@, 2),
    {
        let lsb = self.consume_pc_u8(memory);
        let msb = self.consume_pc_u8(memory);
        u16_le(lsb, msb)
    }

    /// Reads the byte at the program counter as a signed offset and advances past it.
    fn consume_pc_i8(&mut self, memory: &Memory) -> (r: i8)
        requires
            memory.wf(),
            imm8_ok(old(self)@, memory@),
        ensures
            r == imm8(old(self)@, memory@) as i8,
            final(self)@ == advance(old(self)@, 1),
    {
        self.consume_pc_u8(memory) as i8
    }

    /// The address of an indirect operand; `HL` steps after use for `HLInc` and `HLDec`.
    fn get_indirect_address(&mut self, indirect: IndirectOperand) -> (r: u16)
        ensures
            r == indirect_address(old(self)@, indirect),
            final(self)@ == indirect_step(old(self)@, indirect),
    {
        let register = self.registers.get_word_register_mut(indirect.register());
        match indirect {
            IndirectOperand::HLInc => {
                let address = register.get_u16();
                register.update_u16(inc16);
                address
            },
            IndirectOperand::HLDec => {
                let address = register.get_u16();
                register.update_u16(dec16);
                address
            },
            _ => register.get_u16(),
        }
    }

    /// Pushes `value`: the high byte to `SP - 1`, then the low byte to `SP - 2`.
    fn push_stack(&mut self, memory: &mut Memory, value: u16)
        requires
            old(memory).wf(),
            push_ok(old(self)@),
        ensures
            memory_kept(*old(memory), *final(memory)),
            dirty_follows(*old(memory), *final(memory), push_touches(old(self)@)),
            final(self)@ == push_regs(old(self)@),
            final(memory)@ == push_mem(old(self)@, old(memory)@, value),
    {
        let sp = &mut self.registers.sp;
        sp.update(dec16);
        memory.write_memory(sp.get(), u16_msb(value));
        sp.update(dec16);
        memory.write_memory(sp.get(), u16_lsb(value));
    }

    /// Pops the word on top of the stack: the low byte at `SP`, the high byte at `SP + 1`.
    fn pop_stack(&mut self, memory: &Memory) -> (r: u16)
        requires
            memory.wf(),
            pop_ok(old(self)@, memory@),
        ensures
            r == top(old(self)@, memory@),
            final(self)@ == pop_regs(old(self)@),
    {
        let sp = &mut self.registers.sp;
        let lsb = memory.read_memory(sp.get());
        sp.update(inc16);
        let msb = memory.read_memory(sp.get());
        sp.update(inc16);
        u16_le(lsb, msb)
    }
}

/// The tiles are marked dirty afterwards exactly when they were before or `touched` holds.
pub open spec fn dirty_follows(before: Memory, after: Memory, touched: bool) -> bool {
    after.vram.dirty_tiles == (before.vram.dirty_tiles || touched)
}

/// The result of a cycle with the machine cycles as a number.
pub open spec fn cycle_outcome(r: Result<(MachineCycle, AnyInstruction), CpuError>) -> Result<
    (usize, AnyInstruction),
    CpuError,
> {
    match r {
        Ok((c, i)) => Ok((c.0, i)),
        Err(e) => Err(e),
    }
}

impl Cpu {
    /// The value of an 8-bit operand.
    fn read_operand3(&self, memory: &Memory, operand: Operand3) -> (r: u8)
        requires
            memory.wf(),
            load3_ok(self@, memory@, operand),
        ensures
            r == load3(self@, memory@, operand),
    {
        match operand {
            Operand3::Register(r) => self.registers.get_short_register(r).get_u8(),
            Operand3::IndirectHL => memory.read_memory(self.registers.hl().get_u16()),
        }
    }

    /// Writes `value` to an 8-bit operand.
    fn write_operand3(&mut self, memory: &mut Memory, operand: Operand3, value: u8)
        requires
            old(memory).wf(),
            store3_ok(old(self)@, operand),
        ensures
            memory_kept(*old(memory), *final(memory)),
            dirty_follows(*old(memory), *final(memory), operand_touches(old(self)@, operand)),
            final(self)@ == store3_regs(old(self)@, operand, value),
            final(memory)@ == store3_mem(old(self)@, old(memory)@, operand, value),
    {
        match operand {
            Operand3::Register(r) => self.registers.get_short_register_mut(r).set_u8(value),
            Operand3::IndirectHL => {
                let address = self.registers.hl().get_u16();
                memory.write_memory(address, value);
            },
        }
    }

    /// Executes a decoded instruction; the opcode has already been read.
    fn execute_raw(&mut self, memory: &mut Memory, raw: RawInstruction) -> (r: (MachineCycle, Instruction))
        requires
            old(memory).wf(),
            execute_ok(old(self)@, old(memory)@, raw),
        ensures
            memory_kept(*old(memory), *final(memory)),
            executes(old(self)@, old(memory)@, raw, final(self)@, final(memory)@, r.0.0, r.1),
            dirty_follows(*old(memory), *final(memory), touches_tiles(old(self)@, old(memory)@, raw)),
    {
        match raw {
            RawInstruction::Nop
            | RawInstruction::JumpImmediate
            | RawInstruction::JumpHL
            | RawInstruction::EnableInterrupts
            | RawInstruction::DisableInterrupts
            | RawInstruction::CallFunction
            | RawInstruction::PopStackToRegister { .. }
            | RawInstruction::PushRegisterToStack { .. }
            | RawInstruction::ReturnFunction => self.execute_raw_control(memory, raw),
            RawInstruction::JumpRelativeConditional { .. }
            | RawInstruction::XorRegister { .. }
            | RawInstruction::IncRegister8 { .. }
            | RawInstruction::IncRegister16 { .. }
            | RawInstruction::DecRegister8 { .. }
            | RawInstruction::DecRegister16 { .. }
            | RawInstruction::LoadRegisterToRegister { .. }
            | RawInstruction::LoadAccumulatorToIndirect { .. }
            | RawInstruction::LoadIndirectToAccumulator { .. } => self.execute_raw_register_ops(memory, raw),
            RawInstruction::LoadImmediateToRegister8 { .. }
            | RawInstruction::LoadImmediateToRegister16 { .. }
            | RawInstruction::LoadAccumulatorToHighMemory
            | RawInstruction::LoadAccumulatorToMemory
            | RawInstruction::LoadHighMemoryToAccumulator
            | RawInstruction::LoadAccumulatorToIndirectC
            | RawInstruction::CompareImmediate
            | RawInstruction::AddRegister { .. }
            | RawInstruction::BitwiseAndImmediate => self.execute_raw_loads(memory, raw),
            RawInstruction::BitwiseOrRegister { .. }
            | RawInstruction::BitwiseAndRegister { .. }
            | RawInstruction::ComplementAccumulator
            | RawInstruction::AddRegisterToHL { .. }
            | RawInstruction::Restart { .. }
            | RawInstruction::Halt
            | RawInstruction::CBPrefix => self.execute_raw_arithmetic(memory, raw),
        }
    }

    #[verifier::spinoff_prover]
    fn execute_raw_control(&mut self, memory: &mut Memory, raw: RawInstruction) -> (r: (MachineCycle, Instruction))
        requires
            old(memory).wf(),
            execute_ok(old(self)@, old(memory)@, raw),
            raw is Nop || raw is JumpImmediate || raw is JumpHL || raw is EnableInterrupts || raw is DisableInterrupts || raw is CallFunction || raw is PopStackToRegister || raw is PushRegisterToStack || raw is ReturnFunction,
        ensures
            memory_kept(*old(memory), *final(memory)),
            executes(old(self)@, old(memory)@, raw, final(self)@, final(memory)@, r.0.0, r.1),
            dirty_follows(*old(memory), *final(memory), touches_tiles(old(self)@, old(memory)@, raw)),
    {
        match raw {
            RawInstruction::Nop => self.exec_nop(memory),
            RawInstruction::JumpImmediate => self.exec_jump_immediate(memory),
            RawInstruction::JumpHL => self.exec_jump_hl(memory),
            RawInstruction::EnableInterrupts => self.exec_enable_interrupts(memory),
            RawInstruction::DisableInterrupts => self.exec_disable_interrupts(memory),
            RawInstruction::CallFunction => self.exec_call_function(memory),
            RawInstruction::PopStackToRegister { operand } => self.exec_pop_stack_to_register(memory, operand),
            RawInstruction::PushRegisterToStack { operand } => self.exec_push_register_to_stack(memory, operand),
            RawInstruction::ReturnFunction => self.exec_return_function(memory),
            _ => {
                assert(false);
                (MachineCycle(0), Instruction::Nop)
            },
        }
    }

    #[verifier::spinoff_prover]
    fn execute_raw_register_ops(&mut self, memory: &mut Memory, raw: RawInstruction) -> (r: (MachineCycle, Instruction))
        requires
            old(memory).wf(),
            execute_ok(old(self)@, old(memory)@, raw),
            raw is JumpRelativeConditional || raw is XorRegister || raw is IncRegister8 || raw is IncRegister16 || raw is DecRegister8 || raw is DecRegister16 || raw is LoadRegisterToRegister || raw is LoadAccumulatorToIndirect || raw is LoadIndirectToAccumulator,
        ensures
            memory_kept(*old(memory), *final(memory)),
            executes(old(self)@, old(memory)@, raw, final(self)@, final(memory)@, r.0.0, r.1),
            dirty_follows(*old(memory), *final(memory), touches_tiles(old(self)@, old(memory)@, raw)),
    {
        match raw {
            RawInstruction::JumpRelativeConditional { operand } => self.exec_jump_relative_conditional(memory, operand),
            RawInstruction::XorRegister { operand } => self.exec_xor_register(memory, operand),
            RawInstruction::IncRegister8 { operand } => self.exec_inc_register8(memory, operand),
            RawInstruction::IncRegister16 { operand } => self.exec_inc_register16(memory, operand),
            RawInstruction::DecRegister8 { operand } => self.exec_dec_register8(memory, operand),
            RawInstruction::DecRegister16 { operand } => self.exec_dec_register16(memory, operand),
            RawInstruction::LoadRegisterToRegister { left_operand, right_operand } => self.exec_load_register_to_register(memory, left_operand, right_operand),
            RawInstruction::LoadAccumulatorToIndirect { operand } => self.exec_load_accumulator_to_indirect(memory, operand),
            RawInstruction::LoadIndirectToAccumulator { operand } => self.exec_load_indirect_to_accumulator(memory, operand),
            _ => {
                assert(false);
                (MachineCycle(0), Instruction::Nop)
            },
        }
    }

    #[verifier::spinoff_prover]
    fn execute_raw_loads(&mut self, memory: &mut Memory, raw: RawInstruction) -> (r: (MachineCycle, Instruction))
        requires
            old(memory).wf(),
            execute_ok(old(self)@, old(memory)@, raw),
            raw is LoadImmediateToRegister8 || raw is LoadImmediateToRegister16 || raw is LoadAccumulatorToHighMemory || raw is LoadAccumulatorToMemory || raw is LoadHighMemoryToAccumulator || raw is LoadAccumulatorToIndirectC || raw is CompareImmediate || raw is AddRegister || raw is BitwiseAndImmediate,
        ensures
            memory_kept(*old(memory), *final(memory)),
            executes(old(self)@, old(memory)@, raw, final(self)@, final(memory)@, r.0.0, r.1),
            dirty_follows(*old(memory), *final(memory), touches_tiles(old(self)@, old(memory)@, raw)),
    {
        match raw {
            RawInstruction::LoadImmediateToRegister8 { operand } => self.exec_load_immediate_to_register8(memory, operand),
            RawInstruction::LoadImmediateToRegister16 { operand } => self.exec_load_immediate_to_register16(memory, operand),
            RawInstruction::LoadAccumulatorToHighMemory => self.exec_load_accumulator_to_high_memory(memory),
            RawInstruction::LoadAccumulatorToMemory => self.exec_load_accumulator_to_memory(memory),
            RawInstruction::LoadHighMemoryToAccumulator => self.exec_load_high_memory_to_accumulator(memory),
            RawInstruction::LoadAccumulatorToIndirectC => self.exec_load_accumulator_to_indirect_c(memory),
            RawInstruction::CompareImmediate => self.exec_compare_immediate(memory),
            RawInstruction::AddRegister { operand } => self.exec_add_register(memory, operand),
            RawInstruction::BitwiseAndImmediate => self.exec_bitwise_and_immediate(memory),
            _ => {
                assert(false);
                (MachineCycle(0), Instruction::Nop)
            },
        }
    }

    #[verifier::spinoff_prover]
    fn execute_raw_arithmetic(&mut self, memory: &mut Memory, raw: RawInstruction) -> (r: (MachineCycle, Instruction))
        requires
            old(memory).wf(),
            execute_ok(old(self)@, old(memory)@, raw),
            raw is BitwiseOrRegister || raw is BitwiseAndRegister || raw is ComplementAccumulator || raw is AddRegisterToHL || raw is Restart || raw is Halt || raw is CBPrefix,
        ensures
            memory_kept(*old(memory), *final(memory)),
            executes(old(self)@, old(memory)@, raw, final(self)@, final(memory)@, r.0.0, r.1),
            dirty_follows(*old(memory), *final(memory), touches_tiles(old(self)@, old(memory)@, raw)),
    {
        match raw {
            RawInstruction::BitwiseOrRegister { operand } => self.exec_bitwise_or_register(memory, operand),
            RawInstruction::BitwiseAndRegister { operand } => self.exec_bitwise_and_register(memory, operand),
            RawInstruction::ComplementAccumulator => self.exec_complement_accumulator(memory),
            RawInstruction::AddRegisterToHL { operand } => self.exec_add_register_to_hl(memory, operand),
            RawInstruction::Restart { address } => self.exec_restart(memory, address),
            RawInstruction::Halt => {
                assert(false) by {
                    reveal(execute_ok);
                }
                (MachineCycle(0), Instruction::Halt)
            },
            RawInstruction::CBPrefix => self.exec_cb_prefix(memory),
            _ => {
                assert(false);
                (MachineCycle(0), Instruction::Nop)
            },
        }
    }

    fn exec_nop(&mut self, memory: &mut Memory) -> (r: (MachineCycle, Instruction))
        requires
            old(memory).wf(),
        ensures
            memory_kept(*old(memory), *final(memory)),
            executes(old(self)@, old(memory)@, RawInstruction::Nop, final(self)@, final(memory)@, r.0.0, r.1),
            dirty_follows(*old(memory), *final(memory), touches_tiles(old(self)@, old(memory)@, RawInstruction::Nop)),
    {
        proof {
            reveal(execute_spec);
        }
        (MachineCycle(1), Instruction::Nop)
    }

    fn exec_cb_prefix(&mut self, memory: &mut Memory) -> (r: (MachineCycle, Instruction))
        requires
            old(memory).wf(),
        ensures
            memory_kept(*old(memory), *final(memory)),
            executes(old(self)@, old(memory)@, RawInstruction::CBPrefix, final(self)@, final(memory)@, r.0.0, r.1),
            dirty_follows(*old(memory), *final(memory), touches_tiles(old(self)@, old(memory)@, RawInstruction::CBPrefix)),
    {
        proof {
            reveal(execute_spec);
        }
        (MachineCycle(0), Instruction::CBPrefix)
    }

    #[verifier::spinoff_prover]
    fn exec_jump_immediate(&mut self, memory: &mut Memory) -> (r: (MachineCycle, Instruction))
        requires
            old(memory).wf(),
            execute_ok(old(self)@, old(memory)@, RawInstruction::JumpImmediate),
        ensures
            memory_kept(*old(memory), *final(memory)),
            executes(old(self)@, old(memory)@, RawInstruction::JumpImmediate, final(self)@, final(memory)@, r.0.0, r.1),
            dirty_follows(*old(memory), *final(memory), touches_tiles(old(self)@, old(memory)@, RawInstruction::JumpImmediate)),
    {
        proof {
            reveal(execute_spec);
            reveal(execute_ok);
        }
        let address = self.consume_pc_u16(memory);
        self.registers.pc.set(address);
        (MachineCycle(4), Instruction::JumpImmediate { address })
    }

    #[verifier::spinoff_prover]
    fn exec_jump_hl(&mut self, memory: &mut Memory) -> (r: (MachineCycle, Instruction))
        requires
            old(memory).wf(),
            execute_ok(old(self)@, old(memory)@, RawInstruction::JumpHL),
        ensures
            memory_kept(*old(memory), *final(memory)),
            executes(old(self)@, old(memory)@, RawInstruction::JumpHL, final(self)@, final(memory)@, r.0.0, r.1),
            dirty_follows(*old(memory), *final(memory), touches_tiles(old(self)@, old(memory)@, RawInstruction::JumpHL)),
    {
        proof {
            reveal(execute_spec);
            reveal(execute_ok);
        }
        let address = self.registers.hl().get_u16();
        self.registers.pc.set(address);
        (MachineCycle(1), Instruction::JumpHL)
    }

    #[verifier::spinoff_prover]
    fn exec_enable_interrupts(&mut self, memory: &mut Memory) -> (r: (MachineCycle, Instruction))
        requires
            old(memory).wf(),
            execute_ok(old(self)@, old(memory)@, RawInstruction::EnableInterrupts),
        ensures
            memory_kept(*old(memory), *final(memory)),
            executes(old(self)@, old(memory)@, RawInstruction::EnableInterrupts, final(self)@, final(memory)@, r.0.0, r.1),
            dirty_follows(*old(memory), *final(memory), touches_tiles(old(self)@, old(memory)@, RawInstruction::EnableInterrupts)),
    {
        proof {
            reveal(execute_spec);
            reveal(execute_ok);
        }
        self.pending_interrupt_enable = true;
        (MachineCycle(1), Instruction::EnableInterrupts)
    }

    #[verifier::spinoff_prover]
    fn exec_disable_interrupts(&mut self, memory: &mut Memory) -> (r: (MachineCycle, Instruction))
        requires
            old(memory).wf(),
            execute_ok(old(self)@, old(memory)@, RawInstruction::DisableInterrupts),
        ensures
            memory_kept(*old(memory), *final(memory)),
            executes(old(self)@, old(memory)@, RawInstruction::DisableInterrupts, final(self)@, final(memory)@, r.0.0, r.1),
            dirty_follows(*old(memory), *final(memory), touches_tiles(old(self)@, old(memory)@, RawInstruction::DisableInterrupts)),
    {
        proof {
            reveal(execute_spec);
            reveal(execute_ok);
        }
        self.interrupt_master_enable = false;
        self.pending_interrupt_enable = false;
        (MachineCycle(1), Instruction::DisableInterrupts)
    }

    #[verifier::spinoff_prover]
    fn exec_call_function(&mut self, memory: &mut Memory) -> (r: (MachineCycle, Instruction))
        requires
            old(memory).wf(),
            execute_ok(old(self)@, old(memory)@, RawInstruction::CallFunction),
        ensures
            memory_kept(*old(memory), *final(memory)),
            executes(old(self)@, old(memory)@, RawInstruction::CallFunction, final(self)@, final(memory)@, r.0.0, r.1),
            dirty_follows(*old(memory), *final(memory), touches_tiles(old(self)@, old(memory)@, RawInstruction::CallFunction)),
    {
        proof {
            reveal(execute_spec);
            reveal(execute_ok);
        }
        let address = self.consume_pc_u16(memory);
        let pc = self.registers.pc.get();
        self.push_stack(memory, pc);
        self.registers.pc.set(address);
        (MachineCycle(6), Instruction::CallFunction { address })
    }

    #[verifier::spinoff_prover]
    fn exec_pop_stack_to_register(&mut self, memory: &mut Memory, operand: Operand2) -> (r: (MachineCycle, Instruction))
        requires
            old(memory).wf(),
            execute_ok(old(self)@, old(memory)@, RawInstruction::PopStackToRegister { operand }),
        ensures
            memory_kept(*old(memory), *final(memory)),
            executes(old(self)@, old(memory)@, RawInstruction::PopStackToRegister { operand }, final(self)@, final(memory)@, r.0.0, r.1),
            dirty_follows(*old(memory), *final(memory), touches_tiles(old(self)@, old(memory)@, RawInstruction::PopStackToRegister { operand })),
    {
        proof {
            reveal(execute_spec);
            reveal(execute_ok);
        }
        let popped = self.pop_stack(memory);
        self.registers.get_word_register_mut(operand.register).set_u16(popped);
        (MachineCycle(3), Instruction::PopStackToRegister { operand })
    }

    #[verifier::spinoff_prover]
    fn exec_push_register_to_stack(&mut self, memory: &mut Memory, operand: Operand2) -> (r: (MachineCycle, Instruction))
        requires
            old(memory).wf(),
            execute_ok(old(self)@, old(memory)@, RawInstruction::PushRegisterToStack { operand }),
        ensures
            memory_kept(*old(memory), *final(memory)),
            executes(old(self)@, old(memory)@, RawInstruction::PushRegisterToStack { operand }, final(self)@, final(memory)@, r.0.0, r.1),
            dirty_follows(*old(memory), *final(memory), touches_tiles(old(self)@, old(memory)@, RawInstruction::PushRegisterToStack { operand })),
    {
        proof {
            reveal(execute_spec);
            reveal(execute_ok);
        }
        let value = self.registers.get_word_register(operand.register).get_u16();
        self.push_stack(memory, value);
        (MachineCycle(4), Instruction::PushRegisterToStack { operand })
    }

    #[verifier::spinoff_prover]
    fn exec_return_function(&mut self, memory: &mut Memory) -> (r: (MachineCycle, Instruction))
        requires
            old(memory).wf(),
            execute_ok(old(self)@, old(memory)@, RawInstruction::ReturnFunction),
        ensures
            memory_kept(*old(memory), *final(memory)),
            executes(old(self)@, old(memory)@, RawInstruction::ReturnFunction, final(self)@, final(memory)@, r.0.0, r.1),
            dirty_follows(*old(memory), *final(memory), touches_tiles(old(self)@, old(memory)@, RawInstruction::ReturnFunction)),
    {
        proof {
            reveal(execute_spec);
            reveal(execute_ok);
        }
        let popped = self.pop_stack(memory);
        self.registers.pc.set(popped);
        (MachineCycle(4), Instruction::ReturnFunction)
    }

    #[verifier::spinoff_prover]
    fn exec_jump_relative_conditional(&mut self, memory: &mut Memory, operand: ConditionalOperand) -> (r: (MachineCycle, Instruction))
        requires
            old(memory).wf(),
            execute_ok(old(self)@, old(memory)@, RawInstruction::JumpRelativeConditional { operand }),
        ensures
            memory_kept(*old(memory), *final(memory)),
            executes(old(self)@, old(memory)@, RawInstruction::JumpRelativeConditional { operand }, final(self)@, final(memory)@, r.0.0, r.1),
            dirty_follows(*old(memory), *final(memory), touches_tiles(old(self)@, old(memory)@, RawInstruction::JumpRelativeConditional { operand })),
    {
        proof {
            reveal(execute_spec);
            reveal(execute_ok);
        }
        let relative = self.consume_pc_i8(memory);
        let machine_cycle = if self.check_condition(operand) {
            let pc = self.registers.pc.get();
            proof {
                lemma_add_signed(pc, relative);
            }
            self.registers.pc.set(pc.wrapping_add_signed(relative as i16));
            MachineCycle(3)
        } else {
            MachineCycle(2)
        };
        (machine_cycle, Instruction::JumpRelativeConditional { operand, relative })
    }

    #[verifier::spinoff_prover]
    fn exec_xor_register(&mut self, memory: &mut Memory, operand: Operand3) -> (r: (MachineCycle, Instruction))
        requires
            old(memory).wf(),
            execute_ok(old(self)@, old(memory)@, RawInstruction::XorRegister { operand }),
        ensures
            memory_kept(*old(memory), *final(memory)),
            executes(old(self)@, old(memory)@, RawInstruction::XorRegister { operand }, final(self)@, final(memory)@, r.0.0, r.1),
            dirty_follows(*old(memory), *final(memory), touches_tiles(old(self)@, old(memory)@, RawInstruction::XorRegister { operand })),
    {
        proof {
            reveal(execute_spec);
            reveal(execute_ok);
        }
        let value = self.read_operand3(memory, operand);
        let result = self.registers.a.get() ^ value;
        self.registers.a.set(result);
        if result == 0 {
            self.registers.f.set(CpuFlags::from_bits_retain(CpuFlags::ZERO));
        }
        let machine_cycle = match operand {
            Operand3::Register(_) => MachineCycle(2),
            Operand3::IndirectHL => MachineCycle(3),
        };
        (machine_cycle, Instruction::XorRegister { operand })
    }

    #[verifier::spinoff_prover]
    fn exec_inc_register8(&mut self, memory: &mut Memory, operand: Operand3) -> (r: (MachineCycle, Instruction))
        requires
            old(memory).wf(),
            execute_ok(old(self)@, old(memory)@, RawInstruction::IncRegister8 { operand }),
        ensures
            memory_kept(*old(memory), *final(memory)),
            executes(old(self)@, old(memory)@, RawInstruction::IncRegister8 { operand }, final(self)@, final(memory)@, r.0.0, r.1),
            dirty_follows(*old(memory), *final(memory), touches_tiles(old(self)@, old(memory)@, RawInstruction::IncRegister8 { operand })),
    {
        proof {
            reveal(execute_spec);
            reveal(execute_ok);
        }
        let value = self.read_operand3(memory, operand);
        let sum = add_carry_8(value, 1);
        self.write_operand3(memory, operand, sum.result);
        let mut f = self.registers.f.get();
        f.remove(CpuFlags::SUB);
        f.set(CpuFlags::ZERO, sum.result == 0);
        f.set(CpuFlags::HALF_CARRY, sum.half_carry);
        self.registers.f.set(f);
        let machine_cycle = match operand {
            Operand3::Register(_) => MachineCycle(1),
            Operand3::IndirectHL => MachineCycle(3),
        };
        (machine_cycle, Instruction::IncRegister8 { operand })
    }

    #[verifier::spinoff_prover]
    fn exec_inc_register16(&mut self, memory: &mut Memory, operand: Operand2) -> (r: (MachineCycle, Instruction))
        requires
            old(memory).wf(),
            execute_ok(old(self)@, old(memory)@, RawInstruction::IncRegister16 { operand }),
        ensures
            memory_kept(*old(memory), *final(memory)),
            executes(old(self)@, old(memory)@, RawInstruction::IncRegister16 { operand }, final(self)@, final(memory)@, r.0.0, r.1),
            dirty_follows(*old(memory), *final(memory), touches_tiles(old(self)@, old(memory)@, RawInstruction::IncRegister16 { operand })),
    {
        proof {
            reveal(execute_spec);
            reveal(execute_ok);
        }
        let register = self.registers.get_word_register_mut(operand.register);
        register.update_u16(inc16);
        (MachineCycle(2), Instruction::IncRegister16 { operand })
    }

    #[verifier::spinoff_prover]
    fn exec_dec_register8(&mut self, memory: &mut Memory, operand: Operand3) -> (r: (MachineCycle, Instruction))
        requires
            old(memory).wf(),
            execute_ok(old(self)@, old(memory)@, RawInstruction::DecRegister8 { operand }),
        ensures
            memory_kept(*old(memory), *final(memory)),
            executes(old(self)@, old(memory)@, RawInstruction::DecRegister8 { operand }, final(self)@, final(memory)@, r.0.0, r.1),
            dirty_follows(*old(memory), *final(memory), touches_tiles(old(self)@, old(memory)@, RawInstruction::DecRegister8 { operand })),
    {
        proof {
            reveal(execute_spec);
            reveal(execute_ok);
        }
        let value = self.read_operand3(memory, operand);
        let difference = sub_carry(value, 1);
        self.write_operand3(memory, operand, difference.result);
        let mut f = self.registers.f.get();
        f.insert(CpuFlags::SUB);
        f.set(CpuFlags::ZERO, difference.result == 0);
        f.set(CpuFlags::HALF_CARRY, difference.half_carry);
        self.registers.f.set(f);
        (MachineCycle(1), Instruction::DecRegister8 { operand })
    }

    #[verifier::spinoff_prover]
    fn exec_dec_register16(&mut self, memory: &mut Memory, operand: Operand2) -> (r: (MachineCycle, Instruction))
        requires
            old(memory).wf(),
            execute_ok(old(self)@, old(memory)@, RawInstruction::DecRegister16 { operand }),
        ensures
            memory_kept(*old(memory), *final(memory)),
            executes(old(self)@, old(memory)@, RawInstruction::DecRegister16 { operand }, final(self)@, final(memory)@, r.0.0, r.1),
            dirty_follows(*old(memory), *final(memory), touches_tiles(old(self)@, old(memory)@, RawInstruction::DecRegister16 { operand })),
    {
        proof {
            reveal(execute_spec);
            reveal(execute_ok);
        }
        let register = self.registers.get_word_register_mut(operand.register);
        register.update_u16(dec16);
        (MachineCycle(2), Instruction::DecRegister16 { operand })
    }

    #[verifier::spinoff_prover]
    fn exec_load_register_to_register(&mut self, memory: &mut Memory, left_operand: Operand3, right_operand: Operand3) -> (r: (MachineCycle, Instruction))
        requires
            old(memory).wf(),
            execute_ok(old(self)@, old(memory)@, RawInstruction::LoadRegisterToRegister { left_operand, right_operand }),
        ensures
            memory_kept(*old(memory), *final(memory)),
            executes(old(self)@, old(memory)@, RawInstruction::LoadRegisterToRegister { left_operand, right_operand }, final(self)@, final(memory)@, r.0.0, r.1),
            dirty_follows(*old(memory), *final(memory), touches_tiles(old(self)@, old(memory)@, RawInstruction::LoadRegisterToRegister { left_operand, right_operand })),
    {
        proof {
            reveal(execute_spec);
            reveal(execute_ok);
        }
        let right = self.read_operand3(memory, right_operand);
        self.write_operand3(memory, left_operand, right);
        let machine_cycle = if left_operand == Operand3::IndirectHL || right_operand
            == Operand3::IndirectHL {
            MachineCycle(2)
        } else {
            MachineCycle(1)
        };
        (machine_cycle, Instruction::LoadRegisterToRegister { left_operand, right_operand })
    }

    #[verifier::spinoff_prover]
    fn exec_load_accumulator_to_indirect(&mut self, memory: &mut Memory, operand: IndirectOperand) -> (r: (MachineCycle, Instruction))
        requires
            old(memory).wf(),
            execute_ok(old(self)@, old(memory)@, RawInstruction::LoadAccumulatorToIndirect { operand }),
        ensures
            memory_kept(*old(memory), *final(memory)),
            executes(old(self)@, old(memory)@, RawInstruction::LoadAccumulatorToIndirect { operand }, final(self)@, final(memory)@, r.0.0, r.1),
            dirty_follows(*old(memory), *final(memory), touches_tiles(old(self)@, old(memory)@, RawInstruction::LoadAccumulatorToIndirect { operand })),
    {
        proof {
            reveal(execute_spec);
            reveal(execute_ok);
        }
        let address = self.get_indirect_address(operand);
        let a = self.registers.a.get();
        memory.write_memory(address, a);
        (MachineCycle(2), Instruction::LoadAccumulatorToIndirect { operand })
    }

    #[verifier::spinoff_prover]
    fn exec_load_indirect_to_accumulator(&mut self, memory: &mut Memory, operand: IndirectOperand) -> (r: (MachineCycle, Instruction))
        requires
            old(memory).wf(),
            execute_ok(old(self)@, old(memory)@, RawInstruction::LoadIndirectToAccumulator { operand }),
        ensures
            memory_kept(*old(memory), *final(memory)),
            executes(old(self)@, old(memory)@, RawInstruction::LoadIndirectToAccumulator { operand }, final(self)@, final(memory)@, r.0.0, r.1),
            dirty_follows(*old(memory), *final(memory), touches_tiles(old(self)@, old(memory)@, RawInstruction::LoadIndirectToAccumulator { operand })),
    {
        proof {
            reveal(execute_spec);
            reveal(execute_ok);
        }
        let address = self.get_indirect_address(operand);
        self.registers.a.set(memory.read_memory(address));
        (MachineCycle(2), Instruction::LoadIndirectToAccumulator { operand })
    }

    #[verifier::spinoff_prover]
    fn exec_load_immediate_to_register8(&mut self, memory: &mut Memory, operand: Operand3) -> (r: (MachineCycle, Instruction))
        requires
            old(memory).wf(),
            execute_ok(old(self)@, old(memory)@, RawInstruction::LoadImmediateToRegister8 { operand }),
        ensures
            memory_kept(*old(memory), *final(memory)),
            executes(old(self)@, old(memory)@, RawInstruction::LoadImmediateToRegister8 { operand }, final(self)@, final(memory)@, r.0.0, r.1),
            dirty_follows(*old(memory), *final(memory), touches_tiles(old(self)@, old(memory)@, RawInstruction::LoadImmediateToRegister8 { operand })),
    {
        proof {
            reveal(execute_spec);
            reveal(execute_ok);
        }
        let immediate = self.consume_pc_u8(memory);
        self.write_operand3(memory, operand, immediate);
        (MachineCycle(2), Instruction::LoadImmediateToRegister8 { operand, immediate })
    }

    #[verifier::spinoff_prover]
    fn exec_load_immediate_to_register16(&mut self, memory: &mut Memory, operand: Operand2) -> (r: (MachineCycle, Instruction))
        requires
            old(memory).wf(),
            execute_ok(old(self)@, old(memory)@, RawInstruction::LoadImmediateToRegister16 { operand }),
        ensures
            memory_kept(*old(memory), *final(memory)),
            executes(old(self)@, old(memory)@, RawInstruction::LoadImmediateToRegister16 { operand }, final(self)@, final(memory)@, r.0.0, r.1),
            dirty_follows(*old(memory), *final(memory), touches_tiles(old(self)@, old(memory)@, RawInstruction::LoadImmediateToRegister16 { operand })),
    {
        proof {
            reveal(execute_spec);
            reveal(execute_ok);
        }
        let immediate = self.consume_pc_u16(memory);
        self.registers.get_word_register_mut(operand.register).set_u16(immediate);
        (MachineCycle(3), Instruction::LoadImmediateToRegister16 { operand, immediate })
    }

    #[verifier::spinoff_prover]
    fn exec_load_accumulator_to_high_memory(&mut self, memory: &mut Memory) -> (r: (MachineCycle, Instruction))
        requires
            old(memory).wf(),
            execute_ok(old(self)@, old(memory)@, RawInstruction::LoadAccumulatorToHighMemory),
        ensures
            memory_kept(*old(memory), *final(memory)),
            executes(old(self)@, old(memory)@, RawInstruction::LoadAccumulatorToHighMemory, final(self)@, final(memory)@, r.0.0, r.1),
            dirty_follows(*old(memory), *final(memory), touches_tiles(old(self)@, old(memory)@, RawInstruction::LoadAccumulatorToHighMemory)),
    {
        proof {
            reveal(execute_spec);
            reveal(execute_ok);
        }
        let immediate = self.consume_pc_u8(memory);
        memory.write_memory(high_address(immediate), self.registers.a.get());
        (MachineCycle(3), Instruction::LoadAccumulatorToHighMemory { immediate })
    }

    #[verifier::spinoff_prover]
    fn exec_load_accumulator_to_memory(&mut self, memory: &mut Memory) -> (r: (MachineCycle, Instruction))
        requires
            old(memory).wf(),
            execute_ok(old(self)@, old(memory)@, RawInstruction::LoadAccumulatorToMemory),
        ensures
            memory_kept(*old(memory), *final(memory)),
            executes(old(self)@, old(memory)@, RawInstruction::LoadAccumulatorToMemory, final(self)@, final(memory)@, r.0.0, r.1),
            dirty_follows(*old(memory), *final(memory), touches_tiles(old(self)@, old(memory)@, RawInstruction::LoadAccumulatorToMemory)),
    {
        proof {
            reveal(execute_spec);
            reveal(execute_ok);
        }
        let immediate = self.consume_pc_u16(memory);
        let a = self.registers.a.get();
        memory.write_memory(immediate, a);
        (MachineCycle(4), Instruction::LoadAccumulatorToMemory { immediate })
    }

    #[verifier::spinoff_prover]
    fn exec_load_high_memory_to_accumulator(&mut self, memory: &mut Memory) -> (r: (MachineCycle, Instruction))
        requires
            old(memory).wf(),
            execute_ok(old(self)@, old(memory)@, RawInstruction::LoadHighMemoryToAccumulator),
        ensures
            memory_kept(*old(memory), *final(memory)),
            executes(old(self)@, old(memory)@, RawInstruction::LoadHighMemoryToAccumulator, final(self)@, final(memory)@, r.0.0, r.1),
            dirty_follows(*old(memory), *final(memory), touches_tiles(old(self)@, old(memory)@, RawInstruction::LoadHighMemoryToAccumulator)),
    {
        proof {
            reveal(execute_spec);
            reveal(execute_ok);
        }
        let immediate = self.consume_pc_u8(memory);
        self.registers.a.set(memory.read_memory(high_address(immediate)));
        (MachineCycle(3), Instruction::LoadHighMemoryToAccumulator { immediate })
    }

    #[verifier::spinoff_prover]
    fn exec_load_accumulator_to_indirect_c(&mut self, memory: &mut Memory) -> (r: (MachineCycle, Instruction))
        requires
            old(memory).wf(),
            execute_ok(old(self)@, old(memory)@, RawInstruction::LoadAccumulatorToIndirectC),
        ensures
            memory_kept(*old(memory), *final(memory)),
            executes(old(self)@, old(memory)@, RawInstruction::LoadAccumulatorToIndirectC, final(self)@, final(memory)@, r.0.0, r.1),
            dirty_follows(*old(memory), *final(memory), touches_tiles(old(self)@, old(memory)@, RawInstruction::LoadAccumulatorToIndirectC)),
    {
        proof {
            reveal(execute_spec);
            reveal(execute_ok);
        }
        let address = high_address(self.registers.c.get());
        memory.write_memory(address, self.registers.a.get());
        (MachineCycle(2), Instruction::LoadAccumulatorToIndirectC)
    }

    #[verifier::spinoff_prover]
    fn exec_compare_immediate(&mut self, memory: &mut Memory) -> (r: (MachineCycle, Instruction))
        requires
            old(memory).wf(),
            execute_ok(old(self)@, old(memory)@, RawInstruction::CompareImmediate),
        ensures
            memory_kept(*old(memory), *final(memory)),
            executes(old(self)@, old(memory)@, RawInstruction::CompareImmediate, final(self)@, final(memory)@, r.0.0, r.1),
            dirty_follows(*old(memory), *final(memory), touches_tiles(old(self)@, old(memory)@, RawInstruction::CompareImmediate)),
    {
        proof {
            reveal(execute_spec);
            reveal(execute_ok);
        }
        let immediate = self.consume_pc_u8(memory);
        let a = self.registers.a.get();
        let difference = sub_carry(a, immediate);
        let mut f = self.registers.f.get();
        f.insert(CpuFlags::SUB);
        f.set(CpuFlags::ZERO, difference.result == 0);
        f.set(CpuFlags::HALF_CARRY, difference.half_carry);
        f.set(CpuFlags::CARRY, difference.carry);
        self.registers.f.set(f);
        (MachineCycle(2), Instruction::CompareImmediate { immediate })
    }

    #[verifier::spinoff_prover]
    fn exec_add_register(&mut self, memory: &mut Memory, operand: Operand3) -> (r: (MachineCycle, Instruction))
        requires
            old(memory).wf(),
            execute_ok(old(self)@, old(memory)@, RawInstruction::AddRegister { operand }),
        ensures
            memory_kept(*old(memory), *final(memory)),
            executes(old(self)@, old(memory)@, RawInstruction::AddRegister { operand }, final(self)@, final(memory)@, r.0.0, r.1),
            dirty_follows(*old(memory), *final(memory), touches_tiles(old(self)@, old(memory)@, RawInstruction::AddRegister { operand })),
    {
        proof {
            reveal(execute_spec);
            reveal(execute_ok);
        }
        let a = self.registers.a.get();
        let value = self.read_operand3(memory, operand);
        let sum = add_carry_8(value, a);
        self.registers.a.set(sum.result);
        let mut f = CpuFlags::empty();
        f.set(CpuFlags::ZERO, sum.result == 0);
        f.set(CpuFlags::HALF_CARRY, sum.half_carry);
        f.set(CpuFlags::CARRY, sum.carry);
        self.registers.f.set(f);
        let machine_cycle = match operand {
            Operand3::Register(_) => MachineCycle(1),
            Operand3::IndirectHL => MachineCycle(2),
        };
        (machine_cycle, Instruction::AddRegister { operand })
    }

    #[verifier::spinoff_prover]
    fn exec_bitwise_and_immediate(&mut self, memory: &mut Memory) -> (r: (MachineCycle, Instruction))
        requires
            old(memory).wf(),
            execute_ok(old(self)@, old(memory)@, RawInstruction::BitwiseAndImmediate),
        ensures
            memory_kept(*old(memory), *final(memory)),
            executes(old(self)@, old(memory)@, RawInstruction::BitwiseAndImmediate, final(self)@, final(memory)@, r.0.0, r.1),
            dirty_follows(*old(memory), *final(memory), touches_tiles(old(self)@, old(memory)@, RawInstruction::BitwiseAndImmediate)),
    {
        proof {
            reveal(execute_spec);
            reveal(execute_ok);
        }
        let immediate = self.consume_pc_u8(memory);
        let result = self.registers.a.get() & immediate;
        self.registers.a.set(result);
        let mut f = CpuFlags::empty();
        f.set(CpuFlags::ZERO, result == 0);
        f.insert(CpuFlags::HALF_CARRY);
        self.registers.f.set(f);
        (MachineCycle(2), Instruction::BitwiseAndImmediate { immediate })
    }

    #[verifier::spinoff_prover]
    fn exec_bitwise_or_register(&mut self, memory: &mut Memory, operand: Operand3) -> (r: (MachineCycle, Instruction))
        requires
            old(memory).wf(),
            execute_ok(old(self)@, old(memory)@, RawInstruction::BitwiseOrRegister { operand }),
        ensures
            memory_kept(*old(memory), *final(memory)),
            executes(old(self)@, old(memory)@, RawInstruction::BitwiseOrRegister { operand }, final(self)@, final(memory)@, r.0.0, r.1),
            dirty_follows(*old(memory), *final(memory), touches_tiles(old(self)@, old(memory)@, RawInstruction::BitwiseOrRegister { operand })),
    {
        proof {
            reveal(execute_spec);
            reveal(execute_ok);
        }
        let value = self.read_operand3(memory, operand);
        let result = self.registers.a.get() | value;
        self.registers.a.set(result);
        let mut f = CpuFlags::empty();
        f.set(CpuFlags::ZERO, result == 0);
        self.registers.f.set(f);
        (MachineCycle(1), Instruction::BitwiseOrRegister { operand })
    }

    #[verifier::spinoff_prover]
    fn exec_bitwise_and_register(&mut self, memory: &mut Memory, operand: Operand3) -> (r: (MachineCycle, Instruction))
        requires
            old(memory).wf(),
            execute_ok(old(self)@, old(memory)@, RawInstruction::BitwiseAndRegister { operand }),
        ensures
            memory_kept(*old(memory), *final(memory)),
            executes(old(self)@, old(memory)@, RawInstruction::BitwiseAndRegister { operand }, final(self)@, final(memory)@, r.0.0, r.1),
            dirty_follows(*old(memory), *final(memory), touches_tiles(old(self)@, old(memory)@, RawInstruction::BitwiseAndRegister { operand })),
    {
        proof {
            reveal(execute_spec);
            reveal(execute_ok);
        }
        let value = self.read_operand3(memory, operand);
        let result = self.registers.a.get() & value;
        self.registers.a.set(result);
        let mut f = CpuFlags::empty();
        f.set(CpuFlags::ZERO, result == 0);
        f.insert(CpuFlags::HALF_CARRY);
        self.registers.f.set(f);
        (MachineCycle(1), Instruction::BitwiseAndRegister { operand })
    }

    #[verifier::spinoff_prover]
    fn exec_complement_accumulator(&mut self, memory: &mut Memory) -> (r: (MachineCycle, Instruction))
        requires
            old(memory).wf(),
            execute_ok(old(self)@, old(memory)@, RawInstruction::ComplementAccumulator),
        ensures
            memory_kept(*old(memory), *final(memory)),
            executes(old(self)@, old(memory)@, RawInstruction::ComplementAccumulator, final(self)@, final(memory)@, r.0.0, r.1),
            dirty_follows(*old(memory), *final(memory), touches_tiles(old(self)@, old(memory)@, RawInstruction::ComplementAccumulator)),
    {
        proof {
            reveal(execute_spec);
            reveal(execute_ok);
        }
        let a = self.registers.a.get();
        self.registers.a.set(!a);
        let mut f = self.registers.f.get();
        f.insert(CpuFlags::SUB);
        f.insert(CpuFlags::HALF_CARRY);
        self.registers.f.set(f);
        (MachineCycle(1), Instruction::ComplementAccumulator)
    }

    #[verifier::spinoff_prover]
    fn exec_add_register_to_hl(&mut self, memory: &mut Memory, operand: Operand2) -> (r: (MachineCycle, Instruction))
        requires
            old(memory).wf(),
            execute_ok(old(self)@, old(memory)@, RawInstruction::AddRegisterToHL { operand }),
        ensures
            memory_kept(*old(memory), *final(memory)),
            executes(old(self)@, old(memory)@, RawInstruction::AddRegisterToHL { operand }, final(self)@, final(memory)@, r.0.0, r.1),
            dirty_follows(*old(memory), *final(memory), touches_tiles(old(self)@, old(memory)@, RawInstruction::AddRegisterToHL { operand })),
    {
        proof {
            reveal(execute_spec);
            reveal(execute_ok);
        }
        let value = self.registers.get_word_register(operand.register).get_u16();
        let hl = self.registers.hl_mut();
        let sum = add_carry_16(hl.get_u16(), value);
        hl.set_u16(sum.result);
        let mut f = self.registers.f.get();
        f.set(CpuFlags::HALF_CARRY, sum.half_carry);
        f.set(CpuFlags::CARRY, sum.carry);
        f.remove(CpuFlags::SUB);
        self.registers.f.set(f);
        (MachineCycle(2), Instruction::AddRegisterToHL { operand })
    }

    #[verifier::spinoff_prover]
    fn exec_restart(&mut self, memory: &mut Memory, address: u8) -> (r: (MachineCycle, Instruction))
        requires
            old(memory).wf(),
            execute_ok(old(self)@, old(memory)@, RawInstruction::Restart { address }),
        ensures
            memory_kept(*old(memory), *final(memory)),
            executes(old(self)@, old(memory)@, RawInstruction::Restart { address }, final(self)@, final(memory)@, r.0.0, r.1),
            dirty_follows(*old(memory), *final(memory), touches_tiles(old(self)@, old(memory)@, RawInstruction::Restart { address })),
    {
        proof {
            reveal(execute_spec);
            reveal(execute_ok);
        }
        let pc = self.registers.pc.get();
        self.push_stack(memory, pc);
        self.registers.pc.set(address as u16);
        (MachineCycle(4), Instruction::Restart { address })
    }
}

impl Cpu {
    /// Reads, decodes and executes one instruction, and a second opcode after a CB prefix.
    /// Gives the machine cycles and the executed instruction, or the decoding error; the
    /// program counter has moved past the opcodes that were read either way.
    pub fn cycle(&mut self, memory: &mut Memory) -> (r: Result<(MachineCycle, AnyInstruction), CpuError>)
        requires
            old(memory).wf(),
            cycle_ok(old(self)@, old(memory)@),
        ensures
            memory_kept(*old(memory), *final(memory)),
            cycle_spec(old(self)@, old(memory)@) == (final(self)@, final(memory)@, cycle_outcome(r)),
            dirty_follows(*old(memory), *final(memory), cycle_touches_tiles(old(self)@, old(memory)@)),
    {
        let opcode = self.consume_pc_u8(memory);
        proof {
            lemma_prefix_does_nothing(self@, memory@, decode(opcode));
        }
        let (machine_cycle, instruction) = self.execute(memory, opcode)?;
        Ok(
            match instruction {
                Instruction::CBPrefix => {
                    let opcode = self.consume_pc_u8(memory);
                    let (machine_cycle, cb_instruction) = self.execute_cb_prefix(memory, opcode)?;
                    (machine_cycle, AnyInstruction::from(cb_instruction))
                },
                _ => (machine_cycle, AnyInstruction::from(instruction)),
            },
        )
    }

    /// Decodes and executes one (unprefixed) opcode.
    fn execute(&mut self, memory: &mut Memory, opcode: u8) -> (r: Result<(MachineCycle, Instruction), CpuError>)
        requires
            old(memory).wf(),
            decode(opcode) matches Ok(raw) ==> execute_ok(old(self)@, old(memory)@, raw),
        ensures
            memory_kept(*old(memory), *final(memory)),
            decode(opcode) matches Err(e) ==> r == Err::<(MachineCycle, Instruction), CpuError>(e)
                && final(self)@ == old(self)@ && *final(memory) == *old(memory),
            decode(opcode) matches Ok(raw) ==> r matches Ok((c, i)) && executes(
                old(self)@,
                old(memory)@,
                raw,
                final(self)@,
                final(memory)@,
                c.0,
                i,
            ),
            decode(opcode) matches Ok(raw) ==> dirty_follows(
                *old(memory),
                *final(memory),
                touches_tiles(old(self)@, old(memory)@, raw),
            ),
    {
        let raw = RawInstruction::new(opcode)?;
        Ok(self.execute_raw(memory, raw))
    }

    /// Decodes and executes the opcode that follows a CB prefix.
    fn execute_cb_prefix(&mut self, memory: &mut Memory, opcode: u8) -> (r: Result<(MachineCycle, CBInstruction), CpuError>)
        requires
            old(memory).wf(),
            decode_cb(opcode) matches Ok(raw) ==> execute_cb_ok(old(self)@, old(memory)@, raw),
        ensures
            memory_kept(*old(memory), *final(memory)),
            decode_cb(opcode) matches Err(e) ==> r == Err::<(MachineCycle, CBInstruction), CpuError>(e)
                && final(self)@ == old(self)@ && *final(memory) == *old(memory),
            decode_cb(opcode) matches Ok(raw) ==> dirty_follows(
                *old(memory),
                *final(memory),
                cb_touches_tiles(old(self)@, raw),
            ),
            decode_cb(opcode) matches Ok(raw) ==> r matches Ok((c, i))
                && execute_cb_spec(old(self)@, old(memory)@, raw) == (final(self)@, final(memory)@, c.0, i),
    {
        match RawCBInstruction::new(opcode)? {
            RawCBInstruction::SwapNibbles { operand } => {
                let result = match operand {
                    Operand3::Register(r) => {
                        self.registers.get_short_register_mut(r).update_u8(swap_nibbles)
                    },
                    Operand3::IndirectHL => {
                        let address = self.registers.hl().get_u16();
                        let value = memory.read_memory(address);
                        let result = swap_nibbles(value);
                        memory.write_memory(address, result);
                        result
                    },
                };
                let mut f = CpuFlags::empty();
                f.set(CpuFlags::ZERO, result == 0);
                self.registers.f.set(f);
                Ok((MachineCycle(2), CBInstruction::SwapNibbles { operand }))
            },
        }
    }
}

impl Cpu {
    /// Whether the bytes at `pc` and `pc + 1` can be read.
    fn word_readable(memory: &Memory, pc: u16) -> (r: bool)
        requires
            memory.wf(),
        ensures
            r == (memory@.dom().contains(pc) && memory@.dom().contains(add16(pc, 1))),
    {
        memory.is_readable(pc) && memory.is_readable(inc16(pc))
    }

    /// Whether both bytes below the stack pointer can be written.
    fn push_writable(&self) -> (r: bool)
        ensures
            r == push_ok(self@),
    {
        let sp = self.registers.sp.get();
        is_writable(dec16(sp)) && is_writable(dec16(dec16(sp)))
    }

    /// Whether an 8-bit operand can be read.
    fn operand_readable(&self, memory: &Memory, operand: Operand3) -> (r: bool)
        requires
            memory.wf(),
        ensures
            r == load3_ok(self@, memory@, operand),
    {
        match operand {
            Operand3::Register(_) => true,
            Operand3::IndirectHL => memory.is_readable(self.registers.hl().get_u16()),
        }
    }

    /// Whether an 8-bit operand can be written.
    fn operand_writable(&self, operand: Operand3) -> (r: bool)
        ensures
            r == store3_ok(self@, operand),
    {
        match operand {
            Operand3::Register(_) => true,
            Operand3::IndirectHL => is_writable(self.registers.hl().get_u16()),
        }
    }

    /// Whether `raw`, its opcode read and the program counter at `pc`, runs without reading
    /// or writing an address that fails.
    fn instruction_can_run(&self, memory: &Memory, raw: RawInstruction, pc: u16) -> (r: bool)
        requires
            memory.wf(),
        ensures
            r == execute_ok(with_pc(self@, pc), memory@, raw),
    {
        proof {
            reveal(execute_ok);
        }
        match raw {
            RawInstruction::Halt => false,
            RawInstruction::CallFunction => Self::word_readable(memory, pc) && self.push_writable(),
            RawInstruction::ReturnFunction | RawInstruction::PopStackToRegister { .. } => {
                Self::word_readable(memory, self.registers.sp.get())
            },
            RawInstruction::PushRegisterToStack { .. } | RawInstruction::Restart { .. } => {
                self.push_writable()
            },
            RawInstruction::JumpImmediate | RawInstruction::LoadImmediateToRegister16 { .. } => {
                Self::word_readable(memory, pc)
            },
            RawInstruction::JumpRelativeConditional { .. }
            | RawInstruction::CompareImmediate
            | RawInstruction::BitwiseAndImmediate => memory.is_readable(pc),
            RawInstruction::XorRegister { operand }
            | RawInstruction::AddRegister { operand }
            | RawInstruction::BitwiseOrRegister { operand }
            | RawInstruction::BitwiseAndRegister { operand } => self.operand_readable(memory, operand),
            RawInstruction::IncRegister8 { operand } | RawInstruction::DecRegister8 { operand } => {
                self.operand_readable(memory, operand) && self.operand_writable(operand)
            },
            RawInstruction::LoadRegisterToRegister { left_operand, right_operand } => {
                self.operand_readable(memory, right_operand) && self.operand_writable(left_operand)
            },
            RawInstruction::LoadAccumulatorToIndirect { operand } => {
                is_writable(self.registers.get_word_register(operand.register()).get_u16())
            },
            RawInstruction::LoadIndirectToAccumulator { operand } => {
                memory.is_readable(self.registers.get_word_register(operand.register()).get_u16())
            },
            RawInstruction::LoadImmediateToRegister8 { operand } => {
                memory.is_readable(pc) && self.operand_writable(operand)
            },
            RawInstruction::LoadAccumulatorToHighMemory => {
                memory.is_readable(pc) && is_writable(high_address(memory.read_memory(pc)))
            },
            RawInstruction::LoadHighMemoryToAccumulator => {
                memory.is_readable(pc) && memory.is_readable(high_address(memory.read_memory(pc)))
            },
            RawInstruction::LoadAccumulatorToIndirectC => {
                is_writable(high_address(self.registers.c.get()))
            },
            RawInstruction::LoadAccumulatorToMemory => {
                Self::word_readable(memory, pc) && is_writable(
                    u16_le(memory.read_memory(pc), memory.read_memory(inc16(pc))),
                )
            },
            _ => true,
        }
    }

    /// Whether one call of `cycle` runs without reading or writing an address that fails
    /// and without meeting an unsupported instruction.
    pub fn can_cycle(&self, memory: &Memory) -> (r: bool)
        requires
            memory.wf(),
        ensures
            r == cycle_ok(self@, memory@),
    {
        let pc = self.registers.pc.get();
        if !memory.is_readable(pc) {
            return false;
        }
        let next = inc16(pc);
        assert(advance(self@, 1) == with_pc(self@, next));
        match RawInstruction::new(memory.read_memory(pc)) {
            Err(_) => true,
            Ok(raw) => {
                let runs = self.instruction_can_run(memory, raw, next);
                if raw != RawInstruction::CBPrefix {
                    return runs;
                }
                if !runs || !memory.is_readable(next) {
                    return false;
                }
                match RawCBInstruction::new(memory.read_memory(next)) {
                    Err(_) => true,
                    Ok(RawCBInstruction::SwapNibbles { operand }) => {
                        self.operand_readable(memory, operand) && self.operand_writable(operand)
                    },
                }
            },
        }
    }
}

} // verus!
