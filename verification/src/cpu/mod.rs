//! The processor: the register file, the bus it drives, and the state that
//! decides what the next step does.

use vstd::prelude::*;
use crate::bus::cartridge::Cartridge;
use crate::bus::joypad::{Controller, Key};
use crate::bus::ppu::{HEIGHT, WIDTH};
use crate::bus::{BusView, SystemBus};
use crate::config::Config;
use crate::cpu::decode::{spec_decode, Instruction};
use crate::cpu::instructions::{enter_interrupt, spec_enter_interrupt, spec_set_ime, InsnResult};
use crate::cpu::state::{CpuState, Flags, Register};
use crate::GameboyError;

pub mod alu;
pub mod decode;
pub mod instructions;
pub mod interrupts;
pub mod laws;
pub mod state;

verus! {

/// The mathematical state of the machine.
#[verifier::ext_equal]
pub struct CpuView {
    /// The register file.
    pub registers: CpuState,
    /// The bus and its peripherals.
    pub mmap: BusView,
    /// The configuration.
    pub config: Config,
    /// Whether the processor is halted: it issues no instruction until an
    /// interrupt waits.
    pub halting: bool,
    /// Whether the next fetch leaves the program counter where it is.
    pub halt_bug: bool,
    /// Whether the interrupts are to be enabled once the next instruction
    /// has run.
    pub ime_delay: bool,
}

impl CpuView {
    /// The machine at boot around `cartridge`: the registers at their reset
    /// values, the bus at boot, the processor running.
    pub open spec fn boot(config: Config, cartridge: crate::bus::cartridge::CartridgeView) -> CpuView {
        CpuView {
            registers: CpuState::boot(config.model),
            mmap: BusView::boot(config.model, cartridge),
            config,
            halting: false,
            halt_bug: false,
            ime_delay: false,
        }
    }

    /// The machine's invariant: the invariant of the bus.
    pub open spec fn wf(self) -> bool {
        self.mmap.wf()
    }

    /// The state with `value` written to `reg`.
    pub open spec fn with_register(self, reg: Register, value: u16) -> CpuView {
        CpuView { registers: self.registers.spec_set(reg, value), ..self }
    }

    /// The value of `reg`.
    pub open spec fn register(self, reg: Register) -> u16 {
        self.registers.spec_get(reg)
    }

    /// The state with the four flags replaced.
    pub open spec fn with_flags(self, flags: Flags) -> CpuView {
        CpuView { registers: self.registers.with_flags(flags), ..self }
    }

    /// The four flags.
    pub open spec fn flags(self) -> Flags {
        self.registers.spec_flags()
    }

    /// What a read of `address` returns.
    pub open spec fn read(self, address: u16) -> Result<u8, GameboyError> {
        self.mmap.read(address)
    }

    /// The state with the bus replaced.
    pub open spec fn with_bus(self, mmap: BusView) -> CpuView {
        CpuView { mmap, ..self }
    }

    /// The state after a write of `value` to `address`, and what the write
    /// returns.
    pub open spec fn write(self, address: u16, value: u8) -> (CpuView, Result<(), GameboyError>) {
        (self.with_bus(self.mmap.write(address, value).0), self.mmap.write(address, value).1)
    }

    /// The state after the byte at the program counter was fetched, and the
    /// byte. The program counter moves to the next byte, modulo 65536,
    /// unless the halt bug holds it: then the bug is over and the byte will
    /// be fetched again. A read that fails changes nothing.
    pub open spec fn fetch8(self) -> (CpuView, Result<u8, GameboyError>) {
        match self.mmap.read(self.registers.pc) {
            Err(error) => (self, Err(error)),
            Ok(byte) => if self.halt_bug {
                (CpuView { halt_bug: false, ..self }, Ok(byte))
            } else {
                (
                    self.with_register(Register::PC, ((self.registers.pc + 1) % 0x1_0000) as u16),
                    Ok(byte),
                )
            },
        }
    }

    /// The state after two bytes were fetched, and the word they make: the
    /// first byte is the low one.
    pub open spec fn fetch16(self) -> (CpuView, Result<u16, GameboyError>) {
        match self.fetch8().1 {
            Err(error) => (self.fetch8().0, Err(error)),
            Ok(low) => match self.fetch8().0.fetch8().1 {
                Err(error) => (self.fetch8().0.fetch8().0, Err(error)),
                Ok(high) => (self.fetch8().0.fetch8().0, Ok((low + high * 256) as u16)),
            },
        }
    }

    /// The state after the halt instruction: the processor is halted, and
    /// with the interrupts disabled the halt bug is armed.
    pub open spec fn halt(self) -> CpuView {
        CpuView { halting: true, halt_bug: self.halt_bug || !self.registers.ime, ..self }
    }
}

/// The processor, with the whole machine behind it.
pub struct Cpu {
    /// The register file.
    pub registers: CpuState,
    /// The bus and its peripherals.
    pub mmap: SystemBus,
    /// The configuration.
    pub config: Config,
    /// Whether the processor is halted.
    pub halting: bool,
    /// Whether the next fetch leaves the program counter where it is.
    pub halt_bug: bool,
    /// Whether the interrupts are to be enabled once the next instruction
    /// has run.
    pub ime_delay: bool,
}

impl View for Cpu {
    type V = CpuView;

    open spec fn view(&self) -> CpuView {
        CpuView {
            registers: self.registers,
            mmap: self.mmap@,
            config: self.config,
            halting: self.halting,
            halt_bug: self.halt_bug,
            ime_delay: self.ime_delay,
        }
    }
}

/// The widening of a byte that `num::cast` makes.
///
/// `num::cast::<u8, u16>` converts through `ToPrimitive::to_u16`, which for
/// an unsigned source no wider than the target returns the same number: the
/// contract states that the result is always `Some` of the byte's value.
#[verifier::external_body]
fn cast_byte(byte: u8) -> (word: Option<u16>)
    ensures
        word == Some(byte as u16),
{
    num::cast::<u8, u16>(byte)
}

/// A value that the processor fetches from the instruction stream.
pub trait Immediate: Sized {
    /// The state after the value was fetched, and the value.
    spec fn spec_fetch(cpu: CpuView) -> (CpuView, Result<Self, GameboyError>);

    /// Fetches the value at the program counter.
    fn fetch_from(cpu: &mut Cpu) -> (result: Result<Self, GameboyError>)
        requires
            old(cpu)@.wf(),
        ensures
            (final(cpu)@, result) == Self::spec_fetch(old(cpu)@),
            final(cpu)@.wf(),
            final(cpu)@.mmap == old(cpu)@.mmap,
    ;
}

impl Immediate for u8 {
    open spec fn spec_fetch(cpu: CpuView) -> (CpuView, Result<u8, GameboyError>) {
        cpu.fetch8()
    }

    fn fetch_from(cpu: &mut Cpu) -> (result: Result<u8, GameboyError>) {
        let pc: u16 = cpu.registers.get(Register::PC);
        let data = match cpu.mmap.read(pc) {
            Ok(data) => data,
            Err(error) => {
                return Err(error);
            },
        };
        if cpu.halt_bug {
            cpu.halt_bug = false;
        } else {
            cpu.registers.set(Register::PC, pc.wrapping_add(1));
        }
        Ok(data)
    }
}

impl Immediate for u16 {
    open spec fn spec_fetch(cpu: CpuView) -> (CpuView, Result<u16, GameboyError>) {
        cpu.fetch16()
    }

    fn fetch_from(cpu: &mut Cpu) -> (result: Result<u16, GameboyError>) {
        let low = match u8::fetch_from(cpu) {
            Ok(byte) => byte,
            Err(error) => {
                return Err(error);
            },
        };
        let high = match u8::fetch_from(cpu) {
            Ok(byte) => byte,
            Err(error) => {
                return Err(error);
            },
        };
        let low_word = match cast_byte(low) {
            Some(word) => word,
            None => 0,
        };
        let high_word = match cast_byte(high) {
            Some(word) => word,
            None => 0,
        };
        Ok(low_word + high_word * 256)
    }
}

impl Cpu {
    /// Creates the machine around `cartridge`, in its state at boot.
    pub fn new(config: &Config, cartridge: Cartridge) -> (cpu: Cpu)
        requires
            cartridge@.wf(),
        ensures
            cpu@ == CpuView::boot(*config, cartridge@),
            cpu@.wf(),
    {
        Cpu {
            registers: CpuState::new(config),
            mmap: SystemBus::new(config, cartridge),
            config: *config,
            halting: false,
            halt_bug: false,
            ime_delay: false,
        }
    }

    /// Halts the processor.
    pub fn halt(&mut self)
        ensures
            final(self)@ == old(self)@.halt(),
    {
        self.halting = true;
        if !self.registers.ime() {
            self.halt_bug = true;
        }
    }

    /// Asks for the interrupts to be enabled once the next instruction has
    /// run.
    pub fn toggle_ime_delayed(&mut self)
        ensures
            final(self)@ == (CpuView { ime_delay: true, ..old(self)@ }),
    {
        self.ime_delay = true;
    }

    /// Marks `key` as held.
    pub fn down(&mut self, key: Key)
        ensures
            final(self)@ == old(self)@.with_bus(
                BusView { joypad: old(self)@.mmap.joypad.down(key), ..old(self)@.mmap },
            ),
    {
        self.mmap.joypad.down(key);
    }

    /// Marks `key` as released.
    pub fn up(&mut self, key: Key)
        ensures
            final(self)@ == old(self)@.with_bus(
                BusView { joypad: old(self)@.mmap.joypad.up(key), ..old(self)@.mmap },
            ),
    {
        self.mmap.joypad.up(key);
    }

    /// Fetches a value at the program counter: a byte, or a word whose low
    /// byte comes first.
    pub fn fetch<T: Immediate>(&mut self) -> (result: Result<T, GameboyError>)
        requires
            old(self)@.wf(),
        ensures
            (final(self)@, result) == T::spec_fetch(old(self)@),
            final(self)@.wf(),
            final(self)@.mmap == old(self)@.mmap,
    {
        T::fetch_from(self)
    }

    /// Copies the frame buffer to `frame_buffer`.
    pub fn flush(&mut self, frame_buffer: &mut [u32])
        requires
            old(self)@.wf(),
            old(frame_buffer)@.len() == WIDTH * HEIGHT,
        ensures
            final(self)@ == old(self)@,
            final(frame_buffer)@ == old(self)@.mmap.ppu.buffer,
    {
        self.mmap.ppu.flush(frame_buffer);
    }
}

/// The state after the interrupts were looked at, and the cycles it took.
///
/// With the interrupts disabled, an interrupt that waits wakes a halted
/// processor and nothing more. With the interrupts enabled, the interrupt
/// of highest priority among those that wait and are enabled is served: it
/// waits no more, the processor wakes, and the routine is entered.
pub open spec fn spec_handle_interrupts(cpu: CpuView) -> (CpuView, InsnResult) {
    if !cpu.registers.ime {
        (
            if cpu.halting && cpu.mmap.interrupt_flag != 0 {
                CpuView { halting: false, ..cpu }
            } else {
                cpu
            },
            Ok(0),
        )
    } else {
        match cpu.mmap.next_interrupt() {
            Some(interrupt) => spec_enter_interrupt(
                CpuView { halting: false, mmap: cpu.mmap.fetch_interrupt(), ..cpu },
                interrupt.spec_vector(),
            ),
            None => (cpu, Ok(0)),
        }
    }
}

/// The state after one instruction was fetched, decoded and run, and the
/// cycles it took.
pub open spec fn spec_execute_single(cpu: CpuView) -> (CpuView, InsnResult) {
    match cpu.fetch8().1 {
        Err(error) => (cpu.fetch8().0, Err(error)),
        Ok(opcode) => match spec_decode(cpu.fetch8().0, opcode).1 {
            Err(error) => (spec_decode(cpu.fetch8().0, opcode).0, Err(error)),
            Ok(instruction) => instruction.semantics(spec_decode(cpu.fetch8().0, opcode).0),
        },
    }
}

/// The state after the part of a step that comes before the peripherals
/// advance, and the cycles it took: the interrupts are looked at, then a
/// halted processor waits four cycles and a running one runs an
/// instruction. If the instruction before this step asked for the
/// interrupts to be enabled, they are enabled now.
pub open spec fn spec_issue(cpu: CpuView) -> (CpuView, InsnResult) {
    let start = CpuView { ime_delay: false, ..cpu };
    match spec_handle_interrupts(start).1 {
        Err(error) => (spec_handle_interrupts(start).0, Err(error)),
        Ok(entry) => {
            let served = spec_handle_interrupts(start).0;
            let ran = if served.halting {
                (served, Ok::<usize, GameboyError>(4))
            } else {
                spec_execute_single(served)
            };
            match ran.1 {
                Err(error) => (ran.0, Err(error)),
                Ok(cycles) => (
                    if cpu.ime_delay {
                        spec_set_ime(ran.0, true)
                    } else {
                        ran.0
                    },
                    Ok((entry + cycles) as usize),
                ),
            }
        },
    }
}

/// The state after one step, and the cycles it took: once the processor
/// has done its part, the peripherals advance by the cycles it took. A
/// step that fails leaves the peripherals where they are.
pub open spec fn spec_execute(cpu: CpuView) -> (CpuView, InsnResult) {
    match spec_issue(cpu).1 {
        Err(error) => (spec_issue(cpu).0, Err(error)),
        Ok(cycles) => (
            spec_issue(cpu).0.with_bus(spec_issue(cpu).0.mmap.process(cycles)),
            Ok(cycles),
        ),
    }
}

impl Cpu {
    /// Runs one step: serves an interrupt if one is due, runs one
    /// instruction unless the processor is halted, and advances the
    /// peripherals. Returns the cycles the step took.
    pub fn execute(&mut self) -> (result: InsnResult)
        requires
            old(self)@.wf(),
        ensures
            (final(self)@, result) == spec_execute(old(self)@),
            final(self)@.wf(),
            result matches Ok(cycles) ==> cycles <= 48,
    {
        let enable = self.ime_delay;
        self.ime_delay = false;
        let entry = match self.handle_interrupts() {
            Ok(entry) => entry,
            Err(error) => {
                return Err(error);
            },
        };
        let cycles = if !self.halting {
            match self.execute_single() {
                Ok(cycles) => cycles,
                Err(error) => {
                    return Err(error);
                },
            }
        } else {
            4
        };
        if enable {
            self.registers.set_ime(true);
        }
        let num_cycles = entry + cycles;
        self.mmap.process(num_cycles);
        Ok(num_cycles)
    }

    /// Fetches, decodes and runs one instruction, and returns the cycles
    /// it took.
    pub fn execute_single(&mut self) -> (result: InsnResult)
        requires
            old(self)@.wf(),
        ensures
            (final(self)@, result) == spec_execute_single(old(self)@),
            final(self)@.wf(),
            result matches Ok(cycles) ==> cycles <= 24,
    {
        let opcode: u8 = match self.fetch::<u8>() {
            Ok(opcode) => opcode,
            Err(error) => {
                return Err(error);
            },
        };
        let instruction: Instruction = match self.decode(opcode) {
            Ok(instruction) => instruction,
            Err(error) => {
                return Err(error);
            },
        };
        instruction.execute(self)
    }

    /// Looks at the interrupts, and enters the routine of the one to serve
    /// if there is one. Returns the cycles it took.
    pub fn handle_interrupts(&mut self) -> (result: InsnResult)
        requires
            old(self)@.wf(),
        ensures
            (final(self)@, result) == spec_handle_interrupts(old(self)@),
            final(self)@.wf(),
            result matches Ok(cycles) ==> cycles == 0 || cycles == 24,
    {
        if !self.registers.ime() {
            if self.halting && self.mmap.interrupt_flag != 0 {
                self.halting = false;
            }
            return Ok(0);
        }
        match self.mmap.fetch_interrupt() {
            Some(interrupt) => {
                self.halting = false;
                let vector = interrupt.vector();
                proof {
                    reveal(spec_enter_interrupt);
                }
                enter_interrupt(self, vector)
            },
            None => Ok(0),
        }
    }
}

} // verus!
