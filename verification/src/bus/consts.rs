//! The address ranges of the memory map.

use vstd::prelude::*;
use crate::bus::memory_range::MemoryRange;

verus! {

/// The fixed cartridge ROM bank.
pub const MMAP_ROM_BANK0: MemoryRange = 0x0000_3FFF;

/// The switchable cartridge ROM bank.
pub const MMAP_ROM_BANK_SW: MemoryRange = 0x4000_7FFF;

/// The video RAM.
pub const MMAP_VIDEO_RAM: MemoryRange = 0x8000_9FFF;

/// The switchable cartridge RAM bank.
pub const MMAP_RAM_BANK_SW: MemoryRange = 0xA000_BFFF;

/// The work RAM.
pub const MMAP_RAM_INTERNAL: MemoryRange = 0xC000_DFFF;

/// The mirror of the first 0x1E00 bytes of the work RAM.
pub const MMAP_RAM_ECHO: MemoryRange = 0xE000_FDFF;

/// The object attribute memory.
pub const MMAP_SPRITE_OAM: MemoryRange = 0xFE00_FE9F;

/// The I/O registers.
pub const MMAP_IO_PORTS: MemoryRange = 0xFF00_FF7F;

/// The high RAM.
pub const MMAP_RAM_HIGH: MemoryRange = 0xFF80_FFFE;

/// The interrupt-enable register.
pub const MMAP_INTERRUPT_EN: MemoryRange = 0xFFFF_FFFF;

} // verus!
