//! The machine as its driver sees it.

use vstd::prelude::*;
use crate::bus::cartridge::{Cartridge, CartridgeView};
use crate::bus::joypad::Key;
use crate::bus::ppu::{HEIGHT, WIDTH};
use crate::bus::BusView;
use crate::config::Config;
use crate::cpu::instructions::InsnResult;
use crate::cpu::{spec_execute, Cpu, CpuView};
use crate::GameboyError;

verus! {

/// The whole machine. The driver makes it of a ROM image and a RAM image,
/// steps it, tells it which keys are held and copies its frames.
pub struct Emulator {
    /// The processor, which owns the bus and the peripherals.
    pub cpu: Cpu,
}

impl View for Emulator {
    type V = CpuView;

    open spec fn view(&self) -> CpuView {
        self.cpu@
    }
}

impl Emulator {
    /// Makes the machine of a ROM image and a RAM image, in its state at
    /// boot. Images that make no cartridge are refused.
    pub fn new(config: &Config, rom: Vec<u8>, ram: Vec<u8>) -> (result: Result<
        Emulator,
        GameboyError,
    >)
        ensures
            match result {
                Ok(emulator) => CartridgeView::load(rom@, ram@) is Ok && emulator@
                    == CpuView::boot(*config, CartridgeView::load(rom@, ram@)->Ok_0)
                    && emulator@.wf(),
                Err(error) => CartridgeView::load(rom@, ram@) == Err::<
                    CartridgeView,
                    GameboyError,
                >(error),
            },
    {
        match Cartridge::new(rom, ram) {
            Ok(cartridge) => Ok(Emulator { cpu: Cpu::new(config, cartridge) }),
            Err(error) => Err(error),
        }
    }

    /// Runs one step of the machine and returns the cycles it took.
    pub fn step(&mut self) -> (result: InsnResult)
        requires
            old(self)@.wf(),
        ensures
            (final(self)@, result) == spec_execute(old(self)@),
            final(self)@.wf(),
            result matches Ok(cycles) ==> cycles <= 48,
    {
        self.cpu.execute()
    }

    /// Copies the current frame to `frame_buffer`.
    pub fn flush(&mut self, frame_buffer: &mut [u32])
        requires
            old(self)@.wf(),
            old(frame_buffer)@.len() == WIDTH * HEIGHT,
        ensures
            final(self)@ == old(self)@,
            final(frame_buffer)@ == old(self)@.mmap.ppu.buffer,
    {
        self.cpu.flush(frame_buffer);
    }

    /// Marks `key` as held.
    pub fn down(&mut self, key: Key)
        ensures
            final(self)@ == old(self)@.with_bus(
                BusView { joypad: old(self)@.mmap.joypad.down(key), ..old(self)@.mmap },
            ),
    {
        self.cpu.down(key);
    }

    /// Marks `key` as released.
    pub fn up(&mut self, key: Key)
        ensures
            final(self)@ == old(self)@.with_bus(
                BusView { joypad: old(self)@.mmap.joypad.up(key), ..old(self)@.mmap },
            ),
    {
        self.cpu.up(key);
    }

    /// Returns the cartridge RAM, which the driver keeps where a battery
    /// backs it.
    pub fn ram(&self) -> (ram: &[u8])
        ensures
            ram@ == self@.mmap.cartridge.ram,
    {
        self.cpu.mmap.cartridge.ram()
    }
}

} // verus!
