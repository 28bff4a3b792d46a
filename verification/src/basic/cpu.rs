pub mod instructions;
pub mod register;
pub mod registers;

use vstd::prelude::*;

use crate::basic::cpu::instructions::{RawInstruction, decode_basic};
use crate::basic::mbc::create_mbc;
use crate::basic::memory::{Memory, ReadMemory};
use crate::emulator::cpu::alu::{add16_signed, u16_le};
use crate::emulator::cpu::instructions::{ConditionalOperand, Operand2, Operand3};
use crate::emulator::cpu::register::{
    CpuFlags, RegisterFile, Registers, WordRegisterName, join,
};
use crate::emulator::cpu::opcode_table::condition;
use crate::emulator::cpu::laws::lemma_byte_bits;
use crate::emulator::cpu::semantics::condition_holds;
use crate::emulator::mbc::Mbc;
use crate::emulator::register::{ByteRegisterRead, WordRegisterRead};
use crate::emulator::rom::Rom;
use crate::emulator::{MachineCycle, loadable};
use crate::flags::Flags;

verus! {

/// Why an opcode could not be executed.
#[derive(Debug, Clone, Copy, PartialEq, Eq, Structural)]
pub enum CpuError {
    InvalidInstruction,
}

/// Whether the ROM answers address `a`.
pub open spec fn rom_readable(rom: Seq<u8>, a: int) -> bool {
    0 <= a <= 0x7FFF && a < rom.len()
}

/// The state after one cycle from `regs` over the ROM `rom`, with the machine cycles taken.
pub open spec fn basic_step(regs: RegisterFile, rom: Seq<u8>) -> (RegisterFile, usize) {
    let pc = regs.pc;
    let hl = regs.word(WordRegisterName::HL);
    match decode_basic(rom[pc as int]) {
        Ok(RawInstruction::Nop) => (RegisterFile { pc: (pc + 1) as u16, ..regs }, 1),
        Ok(RawInstruction::JumpRegister) => (
            RegisterFile { pc: join(rom[pc + 2], rom[pc + 1]), ..regs },
            4,
        ),
        Ok(RawInstruction::JumpRelativeConditional { operand }) => {
            let next = (pc + 2) as u16;
            if condition_holds(regs.f, operand) {
                (RegisterFile { pc: add16_signed(next, rom[pc + 1] as i8), ..regs }, 3)
            } else {
                (RegisterFile { pc: next, ..regs }, 2)
            }
        },
        Ok(RawInstruction::XorRegister { operand }) => {
            let value = match operand {
                Operand3::Register(r) => regs.short(r),
                Operand3::IndirectHL => rom[hl as int],
            };
            let result = regs.a ^ value;
            let next = RegisterFile { pc: (pc + 1) as u16, a: result, ..regs };
            (
                if result == 0 {
                    RegisterFile { f: 0x80, ..next }
                } else {
                    next
                },
                match operand {
                    Operand3::Register(_) => 2,
                    Operand3::IndirectHL => 3,
                },
            )
        },
        Ok(RawInstruction::LoadIndirectHLToRegister8 { operand }) => {
            let next = RegisterFile { pc: (pc + 1) as u16, ..regs };
            (
                match operand {
                    Operand3::Register(r) => next.with_short(r, rom[hl as int]),
                    Operand3::IndirectHL => next,
                },
                2,
            )
        },
        Ok(RawInstruction::LoadImmediateToRegister16 { operand }) => (
            RegisterFile { pc: (pc + 3) as u16, ..regs }.with_word(
                operand.register,
                join(rom[pc + 2], rom[pc + 1]),
            ),
            3,
        ),
        Err(_) => (regs, 0),
    }
}

/// Whether one cycle runs: the opcode decodes, every byte read lies in the ROM, the
/// program counter never has to pass `0xFFFF`, and nothing is written.
pub open spec fn basic_step_ok(regs: RegisterFile, rom: Seq<u8>) -> bool {
    let pc = regs.pc;
    let hl = regs.word(WordRegisterName::HL);
    &&& pc < 0xFFFF
    &&& rom_readable(rom, pc as int)
    &&& match decode_basic(rom[pc as int]) {
        Ok(RawInstruction::Nop) => true,
        Ok(RawInstruction::JumpRegister) => pc + 2 < 0xFFFF && rom_readable(rom, pc + 1)
            && rom_readable(rom, pc + 2),
        Ok(RawInstruction::JumpRelativeConditional { .. }) => pc + 1 < 0xFFFF && rom_readable(
            rom,
            pc + 1,
        ),
        Ok(RawInstruction::XorRegister { operand }) => operand == Operand3::IndirectHL
            ==> rom_readable(rom, hl as int),
        Ok(RawInstruction::LoadIndirectHLToRegister8 { operand }) => operand != Operand3::IndirectHL
            && rom_readable(rom, hl as int),
        Ok(RawInstruction::LoadImmediateToRegister16 { .. }) => pc + 2 < 0xFFFF && rom_readable(
            rom,
            pc + 1,
        ) && rom_readable(rom, pc + 2),
        Err(_) => false,
    }
}

/// A processor wired to a cartridge.
pub struct Cpu {
    pub registers: Registers,
    pub rom: Rom,
    pub memory: Memory,
}

impl Cpu {
    /// The bytes that the memory answers with.
    pub open spec fn rom_bytes(&self) -> Seq<u8> {
        match self.memory.mbc {
            Mbc::RomOnly(x) => x.rom_data@,
        }
    }

    /// A processor at the DMG start state wired to the cartridge `rom`.
    pub fn new(rom: Rom) -> (r: Self)
        requires
            loadable(rom),
        ensures
            r.rom_bytes() == rom.data@,
            r.rom.data@ == rom.data@,
            r.registers@ == crate::emulator::cpu::Cpu::new_spec().regs,
    {
        let mbc = create_mbc(rom.clone());
        Self { memory: Memory::new(mbc), registers: Registers::new(), rom: rom }
    }

    /// Executes one instruction.
    pub fn cycle(&mut self) -> (r: MachineCycle)
        requires
            basic_step_ok(old(self).registers@, old(self).rom_bytes()),
        ensures
            basic_step(old(self).registers@, old(self).rom_bytes()) == (final(self).registers@, r.0),
            final(self).memory == old(self).memory,
            final(self).rom == old(self).rom,
    {
        let opcode = self.consume_pc_u8();
        match RawInstruction::new(opcode) {
            Ok(RawInstruction::Nop) => MachineCycle(1),
            Ok(RawInstruction::JumpRegister) => {
                let addr = self.consume_pc_u16();
                self.registers.pc.set(addr);
                MachineCycle(4)
            },
            Ok(RawInstruction::JumpRelativeConditional { operand }) => {
                let relative = self.consume_pc_i8();
                if self.check_condition(operand) {
                    let pc = self.registers.pc.get();
                    proof {
                        assert(vstd::wrapping::u16_specs::wrapping_add_signed(pc, relative as i16)
                            == add16_signed(pc, relative));
                    }
                    self.registers.pc.set(pc.wrapping_add_signed(relative as i16));
                    MachineCycle(3)
                } else {
                    MachineCycle(2)
                }
            },
            Ok(RawInstruction::XorRegister { operand }) => {
                let value = match operand {
                    Operand3::Register(r) => self.registers.get_short_register(r).get_u8(),
                    Operand3::IndirectHL => self.memory.read_memory_u8(
                        self.registers.hl().get_u16() as usize,
                    ),
                };
                let result = self.registers.a.get() ^ value;
                self.registers.a.set(result);
                if result == 0 {
                    self.registers.f.set(CpuFlags::from_bits_retain(CpuFlags::ZERO));
                }
                match operand {
                    Operand3::Register(_) => MachineCycle(2),
                    Operand3::IndirectHL => MachineCycle(3),
                }
            },
            Ok(RawInstruction::LoadIndirectHLToRegister8 { operand }) => {
                let hl_address = self.registers.hl().get_u16();
                let hl_val = self.memory.read_memory_u8(hl_address as usize);
                match operand {
                    Operand3::Register(r) => self.registers.get_short_register_mut(r).set_u8(hl_val),
                    Operand3::IndirectHL => {},
                };
                MachineCycle(2)
            },
            Ok(RawInstruction::LoadImmediateToRegister16 { operand }) => {
                let val = self.consume_pc_u16();
                self.registers.get_word_register_mut(operand.register).set_u16(val);
                MachineCycle(3)
            },
            Err(_) => MachineCycle(0),
        }
    }

    /// Whether the ROM answers address `a`.
    fn rom_has(&self, a: usize) -> (r: bool)
        ensures
            r == rom_readable(self.rom_bytes(), a as int),
    {
        match &self.memory.mbc {
            Mbc::RomOnly(x) => a <= 0x7FFF && a < x.rom_data.len(),
        }
    }

    /// Whether one call of `cycle` runs: the opcode decodes and every byte that the
    /// instruction reads lies in the ROM.
    pub fn can_cycle(&self) -> (r: bool)
        ensures
            r == basic_step_ok(self.registers@, self.rom_bytes()),
    {
        let pc = self.registers.pc.get();
        if pc == 0xFFFF || !self.rom_has(pc as usize) {
            return false;
        }
        let hl = self.registers.hl().get_u16();
        let next = pc as usize + 1;
        match RawInstruction::new(self.memory.read_memory_u8(pc as usize)) {
            Ok(RawInstruction::Nop) => true,
            Ok(RawInstruction::JumpRegister) | Ok(RawInstruction::LoadImmediateToRegister16 { .. }) => {
                pc < 0xFFFD && self.rom_has(next) && self.rom_has(next + 1)
            },
            Ok(RawInstruction::JumpRelativeConditional { .. }) => pc < 0xFFFE && self.rom_has(next),
            Ok(RawInstruction::XorRegister { operand }) => match operand {
                Operand3::IndirectHL => self.rom_has(hl as usize),
                Operand3::Register(_) => true,
            },
            Ok(RawInstruction::LoadIndirectHLToRegister8 { operand }) => match operand {
                Operand3::IndirectHL => false,
                Operand3::Register(_) => self.rom_has(hl as usize),
            },
            Err(_) => false,
        }
    }

    /// Whether the flags meet the condition `operand`.
    fn check_condition(&self, operand: ConditionalOperand) -> (r: bool)
        ensures
            r == condition_holds(self.registers@.f, operand),
    {
        let flags = self.registers.f.get();
        match operand {
            ConditionalOperand::NZ => !flags.contains(CpuFlags::ZERO),
            ConditionalOperand::Z => flags.contains(CpuFlags::ZERO),
            ConditionalOperand::NC => !flags.contains(CpuFlags::CARRY),
            ConditionalOperand::C => flags.contains(CpuFlags::CARRY),
        }
    }

    /// Reads the byte at the program counter and advances it.
    fn consume_pc_u8(&mut self) -> (r: u8)
        requires
            old(self).registers@.pc < 0xFFFF,
            rom_readable(old(self).rom_bytes(), old(self).registers@.pc as int),
        ensures
            r == old(self).rom_bytes()[old(self).registers@.pc as int],
            final(self).registers@ == (RegisterFile {
                pc: (old(self).registers@.pc + 1) as u16,
                ..old(self).registers@
            }),
            final(self).memory == old(self).memory,
            final(self).rom == old(self).rom,
    {
        let cur_pc = self.registers.pc.get();
        self.registers.pc.set(cur_pc + 1);
        self.memory.read_memory_u8(cur_pc as usize)
    }

    /// Reads the little-endian word at the program counter and advances past it.
    fn consume_pc_u16(&mut self) -> (r: u16)
        requires
            old(self).registers@.pc + 1 < 0xFFFF,
            rom_readable(old(self).rom_bytes(), old(self).registers@.pc as int),
            rom_readable(old(self).rom_bytes(), old(self).registers@.pc + 1),
        ensures
            r == join(
                old(self).rom_bytes()[old(self).registers@.pc + 1],
                old(self).rom_bytes()[old(self).registers@.pc as int],
            ),
            final(self).registers@ == (RegisterFile {
                pc: (old(self).registers@.pc + 2) as u16,
                ..old(self).registers@
            }),
            final(self).memory == old(self).memory,
            final(self).rom == old(self).rom,
    {
        let lsb = self.consume_pc_u8();
        let msb = self.consume_pc_u8();
        u16_le(lsb, msb)
    }

    /// Reads the byte at the program counter as a signed offset and advances past it.
    fn consume_pc_i8(&mut self) -> (r: i8)
        requires
            old(self).registers@.pc < 0xFFFF,
            rom_readable(old(self).rom_bytes(), old(self).registers@.pc as int),
        ensures
            r == old(self).rom_bytes()[old(self).registers@.pc as int] as i8,
            final(self).registers@ == (RegisterFile {
                pc: (old(self).registers@.pc + 1) as u16,
                ..old(self).registers@
            }),
            final(self).memory == old(self).memory,
            final(self).rom == old(self).rom,
    {
        self.consume_pc_u8() as i8
    }
}

/// A cycle on `JR cc, e` tests the condition on `F` (`NZ`: bit 7 clear, `Z`: bit 7 set,
/// `NC`: bit 4 clear, `C`: bit 4 set). Where it holds, the program counter goes to the address
/// after the instruction plus the signed offset `e` (the byte after the opcode), modulo
/// 65536, in 3 machine cycles; otherwise to the address after the instruction, in 2. No other
/// register changes.
pub proof fn lemma_basic_jump_relative(regs: RegisterFile, rom: Seq<u8>, operand: ConditionalOperand)
    requires
        basic_step_ok(regs, rom),
        decode_basic(rom[regs.pc as int]) == Ok::<RawInstruction, CpuError>(
            RawInstruction::JumpRelativeConditional { operand },
        ),
    ensures
        ({
            let f = regs.f;
            let taken = match operand {
                ConditionalOperand::NZ => f & 0x80 == 0,
                ConditionalOperand::Z => f & 0x80 != 0,
                ConditionalOperand::NC => f & 0x10 == 0,
                ConditionalOperand::C => f & 0x10 != 0,
            };
            let next = regs.pc + 2;
            let e = rom[regs.pc + 1] as i8;
            basic_step(regs, rom) == (if taken {
                (RegisterFile { pc: ((next + e + 65536) % 65536) as u16, ..regs }, 3usize)
            } else {
                (RegisterFile { pc: next as u16, ..regs }, 2usize)
            })
        }),
{
    lemma_byte_bits(regs.f);
}

/// A cycle on `NOP` moves past it in 1 machine cycle; on `JP nn` it jumps to the
/// little-endian word after the opcode in 4.
pub proof fn lemma_basic_nop_and_jump(regs: RegisterFile, rom: Seq<u8>)
    requires
        basic_step_ok(regs, rom),
    ensures
        decode_basic(rom[regs.pc as int]) == Ok::<RawInstruction, CpuError>(RawInstruction::Nop)
            ==> basic_step(regs, rom) == (RegisterFile { pc: (regs.pc + 1) as u16, ..regs }, 1usize),
        decode_basic(rom[regs.pc as int]) == Ok::<RawInstruction, CpuError>(RawInstruction::JumpRegister)
            ==> basic_step(regs, rom) == (
            RegisterFile { pc: (rom[regs.pc + 2] * 256 + rom[regs.pc + 1]) as u16, ..regs },
            4usize,
        ),
{
}

/// A cycle on `XOR r` puts `A` xor the operand (a register, or the ROM byte at `HL`) into
/// `A` and moves past the opcode; where the result is 0, `F` holds the zero flag alone,
/// otherwise it stays. It takes 2 machine cycles on a register, 3 on `[HL]`.
pub proof fn lemma_basic_xor(regs: RegisterFile, rom: Seq<u8>, operand: Operand3)
    requires
        basic_step_ok(regs, rom),
        decode_basic(rom[regs.pc as int]) == Ok::<RawInstruction, CpuError>(
            RawInstruction::XorRegister { operand },
        ),
    ensures
        ({
            let v = match operand {
                Operand3::Register(r) => regs.short(r),
                Operand3::IndirectHL => rom[regs.h * 256 + regs.l],
            };
            let result = regs.a ^ v;
            basic_step(regs, rom) == (
                RegisterFile {
                    pc: (regs.pc + 1) as u16,
                    a: result,
                    f: if result == 0 { 0x80u8 } else { regs.f },
                    ..regs
                },
                if operand == Operand3::IndirectHL { 3usize } else { 2usize },
            )
        }),
{
}

/// A cycle on `LD r, (HL)` loads the ROM byte at `HL` into the register and moves past the
/// opcode, in 2 machine cycles.
pub proof fn lemma_basic_load_indirect(regs: RegisterFile, rom: Seq<u8>, operand: Operand3)
    requires
        basic_step_ok(regs, rom),
        decode_basic(rom[regs.pc as int]) == Ok::<RawInstruction, CpuError>(
            RawInstruction::LoadIndirectHLToRegister8 { operand },
        ),
    ensures
        operand matches Operand3::Register(r) && basic_step(regs, rom) == (
            RegisterFile { pc: (regs.pc + 1) as u16, ..regs }.with_short(r, rom[regs.h * 256 + regs.l]),
            2usize,
        ),
{
}

/// A cycle on `LD rr, nn` loads the little-endian word after the opcode into the pair and
/// moves past it, in 3 machine cycles.
pub proof fn lemma_basic_load_immediate(regs: RegisterFile, rom: Seq<u8>, operand: Operand2)
    requires
        basic_step_ok(regs, rom),
        decode_basic(rom[regs.pc as int]) == Ok::<RawInstruction, CpuError>(
            RawInstruction::LoadImmediateToRegister16 { operand },
        ),
    ensures
        basic_step(regs, rom) == (
            RegisterFile { pc: (regs.pc + 3) as u16, ..regs }.with_word(
                operand.register,
                (rom[regs.pc + 2] * 256 + rom[regs.pc + 1]) as u16,
            ),
            3usize,
        ),
{
}

/// The opcodes `0x20`, `0x28`, `0x30` and `0x38` are `JR NZ`, `JR Z`, `JR NC` and `JR C`;
/// `0x00` is `NOP` and `0xC3` is `JP nn`.
pub proof fn lemma_basic_decode_jumps()
    ensures
        forall|k: u8|
            #![trigger decode_basic((0x20 + 8 * k) as u8)]
            k < 4 ==> decode_basic((0x20 + 8 * k) as u8) == Ok::<RawInstruction, CpuError>(
                RawInstruction::JumpRelativeConditional { operand: condition(k) },
            ),
        decode_basic(0x00) == Ok::<RawInstruction, CpuError>(RawInstruction::Nop),
        decode_basic(0xC3) == Ok::<RawInstruction, CpuError>(RawInstruction::JumpRegister),
{
    assert forall|k: u8|
        #![trigger decode_basic((0x20 + 8 * k) as u8)]
        k < 4 implies decode_basic((0x20 + 8 * k) as u8) == Ok::<RawInstruction, CpuError>(
            RawInstruction::JumpRelativeConditional { operand: condition(k) },
        ) by {
        let op = (0x20 + 8 * k) as u8;
        assert(op != 0x00 && op != 0xC3 && op & 0xA8 != 0xA8 && op & 0x01 != 0x01 && op & 0x20
            == 0x20 && (op >> 3) & 3 == k) by (bit_vector)
            requires
                op == (0x20 + 8 * k) as u8,
                k < 4,
        ;
    }
}

} // verus!
