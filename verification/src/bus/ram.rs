//! The internal RAM: the work RAM with its mirror, and the high RAM.

use vstd::prelude::*;
use crate::bus::consts::{MMAP_RAM_ECHO, MMAP_RAM_HIGH, MMAP_RAM_INTERNAL};
use crate::bus::memory_range::{in_range, range_offset};
use crate::bus::Memory;
use crate::GameboyError;

verus! {

/// The size of the work RAM in bytes.
pub const RAM_SIZE: usize = 0x2000;

/// The size of the high RAM in bytes.
pub const HIGH_RAM_SIZE: usize = 0x7f;

/// The mathematical state of the internal RAM.
#[verifier::ext_equal]
pub struct RamView {
    /// The work RAM.
    pub data: Seq<u8>,
    /// The high RAM.
    pub high_data: Seq<u8>,
}

impl RamView {
    /// The RAM's invariant: the two memories have their sizes.
    pub open spec fn wf(self) -> bool {
        self.data.len() == RAM_SIZE && self.high_data.len() == HIGH_RAM_SIZE
    }

    /// What a read of `address` returns. The mirror range shows the work RAM
    /// from its first byte.
    pub open spec fn read(self, address: u16) -> Result<u8, GameboyError> {
        if in_range(MMAP_RAM_INTERNAL, address) {
            Ok(self.data[address - 0xC000])
        } else if in_range(MMAP_RAM_ECHO, address) {
            Ok(self.data[address - 0xE000])
        } else if in_range(MMAP_RAM_HIGH, address) {
            Ok(self.high_data[address - 0xFF80])
        } else {
            Err(GameboyError::Io("ram_read: Attempt to read out of bounds."))
        }
    }

    /// The state after a write of `value` to `address`, and what the write
    /// returns.
    pub open spec fn write(self, address: u16, value: u8) -> (RamView, Result<(), GameboyError>) {
        if in_range(MMAP_RAM_INTERNAL, address) {
            (RamView { data: self.data.update(address - 0xC000, value), ..self }, Ok(()))
        } else if in_range(MMAP_RAM_ECHO, address) {
            (RamView { data: self.data.update(address - 0xE000, value), ..self }, Ok(()))
        } else if in_range(MMAP_RAM_HIGH, address) {
            (RamView { high_data: self.high_data.update(address - 0xFF80, value), ..self }, Ok(()))
        } else {
            (self, Err(GameboyError::Io("ram_write: Attempt to write out of bounds.")))
        }
    }
}

/// The internal RAM.
pub struct InternalRam {
    data: Vec<u8>,
    high_data: Vec<u8>,
}

impl View for InternalRam {
    type V = RamView;

    closed spec fn view(&self) -> RamView {
        RamView { data: self.data@, high_data: self.high_data@ }
    }
}

impl InternalRam {
    /// Creates the RAM filled with zeros.
    pub fn new() -> (ram: InternalRam)
        ensures
            ram@.wf(),
            ram@.data == Seq::new(RAM_SIZE as nat, |i: int| 0u8),
            ram@.high_data == Seq::new(HIGH_RAM_SIZE as nat, |i: int| 0u8),
    {
        InternalRam { data: vec![0; RAM_SIZE], high_data: vec![0; HIGH_RAM_SIZE] }
    }

    /// Returns the index in the work RAM of an address of the work RAM or of
    /// its mirror.
    fn offset(&self, address: u16) -> (index: usize)
        requires
            in_range(MMAP_RAM_INTERNAL, address) || in_range(MMAP_RAM_ECHO, address),
        ensures
            index == if in_range(MMAP_RAM_INTERNAL, address) {
                address - 0xC000
            } else {
                address - 0xE000
            },
            index < RAM_SIZE,
    {
        if in_range(MMAP_RAM_INTERNAL, address) {
            range_offset(MMAP_RAM_INTERNAL, address)
        } else {
            range_offset(MMAP_RAM_ECHO, address)
        }
    }

    /// Returns the index in the high RAM of an address of the high RAM.
    fn hram_offset(&self, address: u16) -> (index: usize)
        requires
            in_range(MMAP_RAM_HIGH, address),
        ensures
            index == address - 0xFF80,
            index < HIGH_RAM_SIZE,
    {
        range_offset(MMAP_RAM_HIGH, address)
    }
}

impl Memory for InternalRam {
    open spec fn valid(&self) -> bool {
        self@.wf()
    }

    open spec fn read_spec(&self, address: u16) -> Result<u8, GameboyError> {
        self@.read(address)
    }

    open spec fn write_spec(
        pre: &Self,
        post: &Self,
        address: u16,
        value: u8,
        result: Result<(), GameboyError>,
    ) -> bool {
        (post@, result) == pre@.write(address, value)
    }

    fn write(&mut self, address: u16, value: u8) -> (result: Result<(), GameboyError>) {
        if in_range(MMAP_RAM_INTERNAL, address) || in_range(MMAP_RAM_ECHO, address) {
            let index = self.offset(address);
            self.data[index] = value;
            Ok(())
        } else if in_range(MMAP_RAM_HIGH, address) {
            let index = self.hram_offset(address);
            self.high_data[index] = value;
            Ok(())
        } else {
            Err(GameboyError::Io("ram_write: Attempt to write out of bounds."))
        }
    }

    fn read(&self, address: u16) -> (result: Result<u8, GameboyError>) {
        if in_range(MMAP_RAM_INTERNAL, address) || in_range(MMAP_RAM_ECHO, address) {
            Ok(self.data[self.offset(address)])
        } else if in_range(MMAP_RAM_HIGH, address) {
            Ok(self.high_data[self.hram_offset(address)])
        } else {
            Err(GameboyError::Io("ram_read: Attempt to read out of bounds."))
        }
    }
}

/// The mirror: each address from 0xC000 to 0xDDFF and the address 0x2000
/// above it show the same byte, and a write to either is read back at both.
pub proof fn lemma_echo(v: RamView, address: u16, value: u8)
    requires
        v.wf(),
        0xC000 <= address < 0xDE00,
    ensures
        v.read(address) == v.read((address + 0x2000) as u16),
        v.read(address) is Ok,
        v.write(address, value).0.read((address + 0x2000) as u16) == Ok::<u8, GameboyError>(
            value,
        ),
        v.write((address + 0x2000) as u16, value).0.read(address) == Ok::<u8, GameboyError>(
            value,
        ),
        v.write(address, value).0 == v.write((address + 0x2000) as u16, value).0,
{
}

} // verus!
