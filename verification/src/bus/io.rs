//! The I/O registers that are stored and nothing more: the sound registers
//! and the registers that no other peripheral answers to.

use vstd::prelude::*;
use crate::bus::consts::MMAP_IO_PORTS;
use crate::bus::memory_range::{in_range, range_offset};
use crate::bus::Memory;
use crate::config::{Config, HardwareModel};
use crate::GameboyError;

verus! {

/// The number of I/O registers.
pub const IO_SIZE: usize = 0x80;

/// The first address of the I/O registers, which is the joypad register.
pub const IO_P1: u16 = 0xFF00;

/// The interrupt-flag register.
pub const IO_IF: u16 = 0xFF0F;

/// The transfer register of the object attribute memory.
pub const IO_DMA: u16 = 0xFF46;

/// The interrupt-enable register.
pub const IO_IE: u16 = 0xFFFF;

/// The sound master register.
pub const IO_NR52: u16 = 0xFF26;

/// The value of the sound master register at boot.
pub open spec fn boot_nr52(model: HardwareModel) -> u8 {
    if model == HardwareModel::SGB {
        0xF0
    } else {
        0xF1
    }
}

/// The registers after a reset: the sound registers take their values at
/// boot, the others keep theirs.
pub open spec fn reset_registers(registers: Seq<u8>, model: HardwareModel) -> Seq<u8> {
    registers.update(0x10, 0x80).update(0x11, 0xBF).update(0x12, 0xF3).update(0x14, 0xBF).update(
        0x16,
        0x3F,
    ).update(0x17, 0x00).update(0x19, 0xBF).update(0x1A, 0x7F).update(0x1B, 0xFF).update(
        0x1C,
        0x9F,
    ).update(0x1E, 0xBF).update(0x20, 0xFF).update(0x21, 0x00).update(0x22, 0x00).update(
        0x23,
        0xBF,
    ).update(0x24, 0x77).update(0x25, 0xF3).update(0x26, boot_nr52(model))
}

/// What a read of `address` returns.
pub open spec fn io_read(registers: Seq<u8>, address: u16) -> Result<u8, GameboyError> {
    if in_range(MMAP_IO_PORTS, address) {
        Ok(registers[address - 0xFF00])
    } else {
        Err(GameboyError::BadAddress(address))
    }
}

/// The registers after a write of `value` to `address`, and what the write
/// returns.
pub open spec fn io_write(registers: Seq<u8>, address: u16, value: u8) -> (
    Seq<u8>,
    Result<(), GameboyError>,
) {
    if in_range(MMAP_IO_PORTS, address) {
        (registers.update(address - 0xFF00, value), Ok(()))
    } else {
        (registers, Err(GameboyError::BadAddress(address)))
    }
}

/// The stored I/O registers. Their model is the sequence of the 128 bytes
/// from 0xFF00 on.
pub struct IoPorts {
    registers: Vec<u8>,
}

impl View for IoPorts {
    type V = Seq<u8>;

    closed spec fn view(&self) -> Seq<u8> {
        self.registers@
    }
}

impl IoPorts {
    /// Creates the registers in their state at boot.
    pub fn new(config: &Config) -> (io: IoPorts)
        ensures
            io@ == reset_registers(Seq::new(IO_SIZE as nat, |i: int| 0u8), config.model),
            io@.len() == IO_SIZE,
    {
        let mut io = IoPorts { registers: vec![0; IO_SIZE] };
        assert(io.registers@ =~= Seq::new(IO_SIZE as nat, |i: int| 0u8));
        io.reset(config);
        io
    }

    /// Gives the sound registers their values at boot.
    pub fn reset(&mut self, config: &Config)
        requires
            old(self)@.len() == IO_SIZE,
        ensures
            final(self)@ == reset_registers(old(self)@, config.model),
            final(self)@.len() == IO_SIZE,
    {
        self.registers[0x10] = 0x80;
        self.registers[0x11] = 0xBF;
        self.registers[0x12] = 0xF3;
        self.registers[0x14] = 0xBF;
        self.registers[0x16] = 0x3F;
        self.registers[0x17] = 0x00;
        self.registers[0x19] = 0xBF;
        self.registers[0x1A] = 0x7F;
        self.registers[0x1B] = 0xFF;
        self.registers[0x1C] = 0x9F;
        self.registers[0x1E] = 0xBF;
        self.registers[0x20] = 0xFF;
        self.registers[0x21] = 0x00;
        self.registers[0x22] = 0x00;
        self.registers[0x23] = 0xBF;
        self.registers[0x24] = 0x77;
        self.registers[0x25] = 0xF3;
        self.registers[0x26] = match config.model {
            HardwareModel::SGB => 0xF0,
            _ => 0xF1,
        };
    }
}

impl Memory for IoPorts {
    open spec fn valid(&self) -> bool {
        self@.len() == IO_SIZE
    }

    open spec fn read_spec(&self, address: u16) -> Result<u8, GameboyError> {
        io_read(self@, address)
    }

    open spec fn write_spec(
        pre: &Self,
        post: &Self,
        address: u16,
        value: u8,
        result: Result<(), GameboyError>,
    ) -> bool {
        (post@, result) == io_write(pre@, address, value)
    }

    fn write(&mut self, address: u16, value: u8) -> (result: Result<(), GameboyError>) {
        if in_range(MMAP_IO_PORTS, address) {
            let index = range_offset(MMAP_IO_PORTS, address);
            self.registers[index] = value;
            Ok(())
        } else {
            Err(GameboyError::BadAddress(address))
        }
    }

    fn read(&self, address: u16) -> (result: Result<u8, GameboyError>) {
        if in_range(MMAP_IO_PORTS, address) {
            Ok(self.registers[range_offset(MMAP_IO_PORTS, address)])
        } else {
            Err(GameboyError::BadAddress(address))
        }
    }
}

} // verus!
