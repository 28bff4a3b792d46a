pub mod cpu;
pub mod dma;
pub mod joypad;
pub mod mbc;
pub mod memory;
pub mod ppu;
pub mod register;
pub mod rom;

use vstd::prelude::*;

use crate::emulator::cpu::instructions::AnyInstruction;
use crate::emulator::cpu::semantics::{
    cycle_ok, cycle_spec, cycle_touches_tiles, lemma_cycle_bounds, lemma_cycle_frame,
};
use crate::emulator::cpu::{Cpu, CpuError, cycle_outcome};
use crate::emulator::mbc::{MbcType, create_mbc};
use crate::emulator::memory::{Memory, in_cartridge, lemma_lcd_y_view, power_up_byte};
use crate::emulator::ppu::{Ppu, ly_after, lemma_ly_below, lemma_ly_stays_in_range};
use crate::emulator::rom::{
    CARTRIDGE_TYPE_IDX, Rom, cartridge_type_of, is_supported_cartridge, supported_cartridge,
};

verus! {

/// A duration in clock cycles (dots): four per machine cycle.
pub struct TimeCycle(pub usize);

impl TimeCycle {
    /// The clock cycles that `value` machine cycles last.
    pub fn from(value: MachineCycle) -> (r: Self)
        requires
            value.0 * 4 <= usize::MAX,
        ensures
            r.0 == value.0 * 4,
    {
        Self(value.0 * 4)
    }
}

/// A duration in machine cycles.
pub struct MachineCycle(pub usize);

/// The program counter at which the emulator stops and reports a frame forever.
pub const STOP_ADDRESS: u16 = 0x6556;

/// Whether the emulator can start on `rom`: its header names a supported cartridge
/// without a memory bank controller.
pub open spec fn loadable(rom: Rom) -> bool {
    &&& rom.data@.len() > 0x147
    &&& supported_cartridge(rom.data@[0x147])
    &&& cartridge_type_of(rom.data@[0x147]).mbc_type == MbcType::RomOnly
}

/// Whether the emulator can start on `rom`.
pub fn is_loadable(rom: &Rom) -> (r: bool)
    ensures
        r == loadable(*rom),
{
    rom.data.len() > CARTRIDGE_TYPE_IDX && is_supported_cartridge(rom.data[CARTRIDGE_TYPE_IDX])
        && rom.cartridge_type().mbc_type == MbcType::RomOnly
}

/// What one call of `run_frame` did.
#[derive(Debug, Clone, Copy, PartialEq, Eq, Structural)]
pub struct FrameStep {
    /// Whether a frame is complete.
    pub done: bool,
    /// The program counter before the step.
    pub pc: u16,
    /// The instruction executed, if one was.
    pub instruction: Option<AnyInstruction>,
}

/// The whole machine.
pub struct Emulator {
    pub cpu: Cpu,
    pub ppu: Ppu,
    pub memory: Memory,
    pub cycles: usize,
}

/// Whether `e` is a machine just started on `rom`: the CPU in its power-up state, no cycle
/// run, an empty framebuffer, the cartridge holding the image, and every address outside
/// the cartridge reading its power-up byte.
pub open spec fn started_on(e: Emulator, rom: Rom) -> bool {
    &&& e.wf()
    &&& e.cycles == 0
    &&& e.ppu.total_dots == 0
    &&& e.ppu.framebuffer@.len() == 0
    &&& e.cpu@ == Cpu::new_spec()
    &&& e.memory.mbc matches crate::emulator::mbc::Mbc::RomOnly(x) && x.rom_data@ == rom.data@
    &&& e.memory.vram.dirty_tiles
    &&& forall|a: u16| #![trigger e.memory.peek(a)] !in_cartridge(a) ==> e.memory.peek(a) == power_up_byte(a)
}

impl Emulator {
    /// The machine is coherent: its memory keeps its invariant and the line counter is
    /// below 153.
    pub open spec fn wf(&self) -> bool {
        &&& self.memory.wf()
        &&& self.memory.lcd_y@ < 153
    }

    /// A machine that starts on `rom`.
    pub fn new(rom: &Rom) -> (r: Self)
        requires
            loadable(*rom),
        ensures
            started_on(r, *rom),
    {
        let memory = Memory::new(create_mbc(rom));
        proof {
            assert(memory.peek(0xFF44) == 0);
        }
        Self { cpu: Cpu::new(), ppu: Ppu::new(), memory, cycles: 0 }
    }

    /// Runs one instruction and lets the PPU follow for as long as it took. Stops at
    /// `STOP_ADDRESS` without executing anything. Gives the decoding error where the
    /// instruction could not be decoded.
    pub fn run_frame(&mut self) -> (r: Result<FrameStep, CpuError>)
        requires
            old(self).wf(),
            old(self).cycles < usize::MAX,
            old(self).cpu@.regs.pc != STOP_ADDRESS ==> cycle_ok(old(self).cpu@, old(self).memory@),
            old(self).ppu.total_dots + 24 <= usize::MAX,
        ensures
            final(self).wf(),
            final(self).cycles == old(self).cycles + 1,
            old(self).cpu@.regs.pc == STOP_ADDRESS ==> r == Ok::<FrameStep, CpuError>(
                FrameStep { done: true, pc: STOP_ADDRESS, instruction: None },
            ) && final(self).cpu@ == old(self).cpu@ && final(self).memory@ == old(self).memory@
                && final(self).ppu.total_dots == old(self).ppu.total_dots,
            final(self).memory.vram.dirty_tiles == (old(self).memory.vram.dirty_tiles || (old(
                self,
            ).cpu@.regs.pc != STOP_ADDRESS && cycle_touches_tiles(
                old(self).cpu@,
                old(self).memory@,
            ))),
            old(self).cpu@.regs.pc != STOP_ADDRESS ==> {
                let (s, m, outcome) = cycle_spec(old(self).cpu@, old(self).memory@);
                &&& final(self).cpu@ == s
                &&& match outcome {
                    Err(e) => r == Err::<FrameStep, CpuError>(e) && final(self).memory@ == m
                        && final(self).ppu.total_dots == old(self).ppu.total_dots,
                    Ok((cycles, instruction)) => {
                        &&& r == Ok::<FrameStep, CpuError>(
                            FrameStep {
                                done: false,
                                pc: old(self).cpu@.regs.pc,
                                instruction: Some(instruction),
                            },
                        )
                        &&& final(self).ppu.total_dots == old(self).ppu.total_dots + 4 * cycles
                        &&& final(self).memory@ == m.insert(
                            0xFF44,
                            ly_after(
                                old(self).memory.lcd_y@,
                                old(self).ppu.total_dots as int,
                                (4 * cycles) as nat,
                            ),
                        )
                    },
                }
            },
    {
        self.cycles = self.cycles + 1;
        let pc = self.cpu.registers.pc.get();
        if pc == STOP_ADDRESS {
            return Ok(FrameStep { done: true, pc, instruction: None });
        }
        let ghost ly_before = self.memory.lcd_y@;
        let (machine_cycle, instruction) = match self.cpu.cycle(&mut self.memory) {
            Ok((machine_cycle, instruction)) => (machine_cycle, instruction),
            Err(e) => {
                proof {
                    lemma_cycle_frame(old(self).cpu@, old(self).memory@, 0xFF44);
                }
                return Err(e);
            },
        };
        proof {
            lemma_cycle_frame(old(self).cpu@, old(self).memory@, 0xFF44);
            lemma_cycle_bounds(old(self).cpu@, old(self).memory@);
            assert(self.memory@[0xFF44] == self.memory.lcd_y@);
            lemma_ly_stays_in_range(
                self.memory.lcd_y@,
                self.ppu.total_dots as int,
                (4 * machine_cycle.0) as nat,
            );
            lemma_ly_below(self.memory.lcd_y@, self.ppu.total_dots as int, (4 * machine_cycle.0) as nat);
        }
        let ghost mid = self.memory;
        let done = self.ppu.step(&mut self.memory, TimeCycle::from(machine_cycle));
        proof {
            lemma_lcd_y_view(mid, self.memory);
        }
        Ok(FrameStep { done, pc, instruction: Some(instruction) })
    }
}

/// A command for the emulator.
#[derive(Debug, Clone)]
pub enum EmulatorCommand {
    Resume,
    Pause,
    LoadRom(Rom),
    Active(ActiveCommand),
}

/// A command for a running machine.
#[derive(Debug, Clone, Copy, PartialEq, Eq, Structural)]
pub enum ActiveCommand {
    ButtonDown,
}

/// What processing a command asks of the caller.
#[derive(Debug, Clone, Copy, PartialEq, Eq, Structural)]
pub enum CommandEffect {
    Nothing,
    /// A button was pressed on a loaded machine and should be reported.
    ButtonPressed,
}

/// The state that the emulator thread shares: whether it is paused, and the machine.
pub struct State {
    pub paused: bool,
    pub emulator: Option<Emulator>,
}

impl State {
    /// Paused, with no machine.
    pub fn new() -> (r: Self)
        ensures
            r.paused,
            r.emulator is None,
    {
        Self { paused: true, emulator: None }
    }

    /// Applies one command: `Resume` and `Pause` set the pause switch, `LoadRom` starts a
    /// new machine on the image, and `Active` commands reach a loaded machine only.
    pub fn process_command(&mut self, command: EmulatorCommand) -> (r: CommandEffect)
        requires
            command matches EmulatorCommand::LoadRom(rom) ==> loadable(rom),
        ensures
            command is Resume ==> !final(self).paused && final(self).emulator == old(
                self,
            ).emulator && r == CommandEffect::Nothing,
            command is Pause ==> final(self).paused && final(self).emulator == old(self).emulator
                && r == CommandEffect::Nothing,
            command matches EmulatorCommand::LoadRom(rom) ==> final(self).paused == old(
                self,
            ).paused && r == CommandEffect::Nothing && (final(self).emulator matches Some(e)
                && started_on(e, rom)),
            command is Active ==> *final(self) == *old(self) && r == (if old(self).emulator is Some {
                CommandEffect::ButtonPressed
            } else {
                CommandEffect::Nothing
            }),
    {
        match command {
            EmulatorCommand::Resume => {
                self.paused = false;
                CommandEffect::Nothing
            },
            EmulatorCommand::Pause => {
                self.paused = true;
                CommandEffect::Nothing
            },
            EmulatorCommand::LoadRom(ref rom) => {
                self.emulator = Some(Emulator::new(rom));
                CommandEffect::Nothing
            },
            EmulatorCommand::Active(command) => {
                if self.emulator.is_some() {
                    match command {
                        ActiveCommand::ButtonDown => CommandEffect::ButtonPressed,
                    }
                } else {
                    CommandEffect::Nothing
                }
            },
        }
    }
}

} // verus!
