//! The cartridge: its ROM and RAM, and the bank controller that decides
//! which part of them the bus sees.

use vstd::prelude::*;
use vstd::slice::slice_subrange;
use crate::bus::consts::{MMAP_RAM_BANK_SW, MMAP_ROM_BANK0, MMAP_ROM_BANK_SW};
use crate::bus::memory_range::{in_range, range_offset, MemoryRange};
use crate::bus::rtc::{is_rtc_register, spec_is_rtc_register, Rtc, RtcView};
use crate::bus::Memory;
use crate::GameboyError;

verus! {

/// The game's title in the header.
pub const ROM_GAME_TITLE: MemoryRange = 0x0134_0142;

/// The header byte that tells a color cartridge.
pub const ROM_GAMEBOY_COLOR: usize = 0x0143;

/// The header byte that tells a cartridge for the home system adapter.
pub const ROM_GAMEBOY_SUPER: usize = 0x0146;

/// The header byte that names the bank controller.
pub const ROM_CARTRIDGE_TYPE: usize = 0x0147;

/// The header byte that encodes the number of ROM banks.
pub const ROM_SIZE: usize = 0x0148;

/// The header byte that encodes the size of the RAM.
pub const RAM_SIZE: usize = 0x0149;

/// The size of a ROM bank in bytes.
pub const ROM_BANK_SIZE: usize = 0x4000;

/// The size of a RAM bank in bytes.
pub const RAM_BANK_SIZE: usize = 0x2000;

/// A write to this range enables or disables the RAM and the clock
/// registers.
pub const RAM_ENABLE_SELECT: MemoryRange = 0x0000_1FFF;

/// A write to this range selects the ROM bank.
pub const ROM_BANK_SELECT: MemoryRange = 0x2000_3FFF;

/// A write to this range selects the RAM bank or a clock register.
pub const RAM_BANK_SELECT: MemoryRange = 0x4000_5FFF;

/// A write to this range selects the memory model of a type-1 controller.
pub const MEMORY_MODEL_SELECT: MemoryRange = 0x6000_7FFF;

/// A write to this range latches the clock of a type-3 controller.
pub const CLOCK_DATA_LATCH: MemoryRange = 0x6000_7FFF;

/// The memory layouts of a type-1 bank controller.
#[derive(Clone, Copy, Debug, PartialEq, Eq, Structural)]
pub enum MemoryModel {
    /// 2 MiB of ROM and 8 KiB of RAM.
    MoreRom,
    /// 512 KiB of ROM and 32 KiB of RAM.
    MoreRam,
}

/// The bank controllers.
#[derive(Clone, Copy, Debug, PartialEq, Eq, Structural)]
pub enum CartridgeType {
    /// No controller: 32 KiB of ROM.
    RomOnly,
    /// The type-1 controller, with its memory model.
    MBC1(MemoryModel),
    /// The type-2 controller.
    MBC2,
    /// The type-3 controller, which holds a real-time clock.
    MBC3,
    /// The type-5 controller.
    MBC5,
}

/// The bits of a written value that select the ROM bank: the controllers of
/// type 1, 2, 3 and 5 count banks up to 3, 15, 127 and 127.
pub open spec fn spec_rom_bank_mask(cart_type: CartridgeType) -> u8 {
    match cart_type {
        CartridgeType::RomOnly => 0x00,
        CartridgeType::MBC1(_) => 0x03,
        CartridgeType::MBC2 => 0x0F,
        CartridgeType::MBC3 => 0x7F,
        CartridgeType::MBC5 => 0x7F,
    }
}

/// The number of ROM banks that a value of the header's ROM size byte
/// declares.
pub open spec fn spec_num_rom_banks(code: u8) -> Option<u8> {
    if code == 0x00 {
        Some(2)
    } else if code == 0x01 {
        Some(4)
    } else if code == 0x02 {
        Some(8)
    } else if code == 0x03 {
        Some(16)
    } else if code == 0x04 {
        Some(32)
    } else if code == 0x05 {
        Some(64)
    } else if code == 0x06 {
        Some(128)
    } else if code == 0x52 {
        Some(72)
    } else if code == 0x53 {
        Some(80)
    } else if code == 0x54 {
        Some(96)
    } else {
        None
    }
}

/// The size in bytes of the RAM that a value of the header's RAM size byte
/// declares.
pub open spec fn spec_ram_size(code: u8) -> Option<usize> {
    if code == 0x00 {
        Some(0)
    } else if code == 0x01 {
        Some(0x800)
    } else if code == 0x02 {
        Some(0x2000)
    } else if code == 0x03 {
        Some(0x8000)
    } else if code == 0x04 {
        Some(0x20000)
    } else {
        None
    }
}

/// The bank controller that a value of the header's type byte names.
pub open spec fn spec_cartridge_type(code: u8) -> Option<CartridgeType> {
    if code == 0x00 || code == 0x08 || code == 0x09 {
        Some(CartridgeType::RomOnly)
    } else if code == 0x01 || code == 0x02 || code == 0x03 {
        Some(CartridgeType::MBC1(MemoryModel::MoreRom))
    } else if code == 0x05 || code == 0x06 {
        Some(CartridgeType::MBC2)
    } else if code == 0x12 || code == 0x13 {
        Some(CartridgeType::MBC3)
    } else if code == 0x19 || code == 0x1A || code == 0x1C || code == 0x1D || code == 0x1E {
        Some(CartridgeType::MBC5)
    } else {
        None
    }
}

/// The number of ROM banks that the header of `rom` declares, or why there
/// is none.
pub open spec fn header_rom_banks(rom: Seq<u8>) -> Result<u8, GameboyError> {
    if rom.len() <= RAM_SIZE {
        Err(GameboyError::Cartridge("The image is too short to hold a header."))
    } else {
        match spec_num_rom_banks(rom[ROM_SIZE as int]) {
            Some(banks) => Ok(banks),
            None => Err(GameboyError::Cartridge("Invalid ROM banks configuration.")),
        }
    }
}

/// The size of the ROM that the header of `rom` declares.
pub open spec fn header_rom_size(rom: Seq<u8>) -> Result<usize, GameboyError> {
    match header_rom_banks(rom) {
        Ok(banks) => Ok((banks * ROM_BANK_SIZE) as usize),
        Err(error) => Err(error),
    }
}

/// The size of the RAM that the header of `rom` declares.
pub open spec fn header_ram_size(rom: Seq<u8>) -> Result<usize, GameboyError> {
    if rom.len() <= RAM_SIZE {
        Err(GameboyError::Cartridge("The image is too short to hold a header."))
    } else {
        match spec_ram_size(rom[RAM_SIZE as int]) {
            Some(size) => Ok(size),
            None => Err(GameboyError::Cartridge("Invalid RAM banks configuration.")),
        }
    }
}

/// The mathematical state of the cartridge.
#[verifier::ext_equal]
pub struct CartridgeView {
    /// The ROM image.
    pub rom: Seq<u8>,
    /// The RAM.
    pub ram: Seq<u8>,
    /// The bank controller.
    pub cart_type: CartridgeType,
    /// The real-time clock.
    pub rtc: RtcView,
    /// The selected ROM bank.
    pub rom_bank: u8,
    /// The selected RAM bank.
    pub ram_bank: u8,
    /// Whether the RAM and the clock registers answer.
    pub ram_enabled: bool,
    /// Whether the RAM range shows a clock register.
    pub rtc_mapped: bool,
}

impl CartridgeView {
    /// The cartridge's invariant: the ROM holds two banks at least.
    pub open spec fn wf(self) -> bool {
        self.rom.len() >= 2 * ROM_BANK_SIZE && self.rtc.wf()
    }

    /// The cartridge made of `rom` and `ram`, or why they make none: the
    /// header must declare the sizes that the two images have, and name a
    /// known bank controller.
    pub open spec fn load(rom: Seq<u8>, ram: Seq<u8>) -> Result<CartridgeView, GameboyError> {
        match header_rom_size(rom) {
            Err(error) => Err(error),
            Ok(rom_size) => match header_ram_size(rom) {
                Err(error) => Err(error),
                Ok(ram_size) => if rom.len() != rom_size {
                    Err(
                        GameboyError::Cartridge(
                            "The ROM has not the size that its header declares.",
                        ),
                    )
                } else if ram.len() != ram_size {
                    Err(
                        GameboyError::Cartridge(
                            "The RAM has not the size that the header declares.",
                        ),
                    )
                } else {
                    match spec_cartridge_type(rom[ROM_CARTRIDGE_TYPE as int]) {
                        None => Err(GameboyError::Cartridge("Invalid cartridge type.")),
                        Some(cart_type) => Ok(
                            CartridgeView {
                                rom,
                                ram,
                                cart_type,
                                rtc: RtcView::boot(),
                                rom_bank: 0,
                                ram_bank: 0,
                                ram_enabled: false,
                                rtc_mapped: false,
                            },
                        ),
                    }
                },
            },
        }
    }

    /// The state after `value` was written to `address` to select the ROM
    /// bank, and what the write returns.
    pub open spec fn set_rom_bank(self, address: u16, value: u8) -> (
        CartridgeView,
        Result<(), GameboyError>,
    ) {
        if in_range(ROM_BANK_SELECT, address) {
            (
                CartridgeView { rom_bank: value & spec_rom_bank_mask(self.cart_type), ..self },
                Ok(()),
            )
        } else {
            (self, Err(GameboyError::BadAddress(address)))
        }
    }

    /// The state with the RAM bank that `value` selects: its four low bits.
    pub open spec fn set_ram_bank(self, value: u8) -> CartridgeView {
        CartridgeView { ram_bank: value & 0x0F, ..self }
    }

    /// The ROM bank that the switchable range shows: bank 1 stands in for
    /// bank 0.
    pub open spec fn effective_rom_bank(self) -> int {
        if self.rom_bank == 0 {
            1
        } else {
            self.rom_bank as int
        }
    }

    /// The index in the ROM of an address of the switchable range.
    pub open spec fn rom_offset(self, address: u16) -> int {
        self.effective_rom_bank() * ROM_BANK_SIZE + (address - 0x4000)
    }

    /// The index in the RAM of an address of the RAM range.
    pub open spec fn ram_offset(self, address: u16) -> int {
        self.ram_bank * RAM_BANK_SIZE + (address - 0xA000)
    }

    /// What a read of `address` returns without a bank controller: the byte
    /// of the ROM at `address`.
    pub open spec fn read_romonly(self, address: u16) -> Result<u8, GameboyError> {
        if address < self.rom.len() {
            Ok(self.rom[address as int])
        } else {
            Err(GameboyError::BadAddress(address))
        }
    }

    /// The state after a write without a bank controller: the byte of the
    /// ROM at `address` is replaced.
    pub open spec fn write_romonly(self, address: u16, value: u8) -> (
        CartridgeView,
        Result<(), GameboyError>,
    ) {
        if address < self.rom.len() {
            (CartridgeView { rom: self.rom.update(address as int, value), ..self }, Ok(()))
        } else {
            (self, Err(GameboyError::BadAddress(address)))
        }
    }

    /// What a read of the RAM range returns: the active clock register if
    /// one is mapped, else the byte of the selected RAM bank. A disabled RAM
    /// does not answer.
    pub open spec fn read_ram(self, address: u16) -> Result<u8, GameboyError> {
        if !self.ram_enabled {
            Err(GameboyError::Io("Ram is not enabled for reading."))
        } else if self.rtc_mapped {
            self.rtc.read(address)
        } else if self.ram_offset(address) < self.ram.len() {
            Ok(self.ram[self.ram_offset(address)])
        } else {
            Err(GameboyError::Cartridge("Invalid ram bank number."))
        }
    }

    /// The state after a write to the RAM range, and what the write returns.
    pub open spec fn write_ram(self, address: u16, value: u8) -> (
        CartridgeView,
        Result<(), GameboyError>,
    ) {
        if !self.ram_enabled {
            (self, Err(GameboyError::Io("Ram is not enabled for writing.")))
        } else if self.rtc_mapped {
            (CartridgeView { rtc: self.rtc.write(address, value).0, ..self }, self.rtc.write(
                address,
                value,
            ).1)
        } else if self.ram_offset(address) < self.ram.len() {
            (
                CartridgeView { ram: self.ram.update(self.ram_offset(address), value), ..self },
                Ok(()),
            )
        } else {
            (self, Err(GameboyError::Cartridge("Invalid ram bank number.")))
        }
    }

    /// What a read of `address` returns behind a bank controller: the first
    /// ROM bank, the selected ROM bank, or the RAM range.
    pub open spec fn read_banked(self, address: u16) -> Result<u8, GameboyError> {
        if in_range(MMAP_ROM_BANK0, address) {
            Ok(self.rom[address as int])
        } else if in_range(MMAP_ROM_BANK_SW, address) {
            if self.rom_offset(address) < self.rom.len() {
                Ok(self.rom[self.rom_offset(address)])
            } else {
                Err(GameboyError::Cartridge("Invalid rom bank number."))
            }
        } else if in_range(MMAP_RAM_BANK_SW, address) {
            self.read_ram(address)
        } else {
            Err(GameboyError::BadAddress(address))
        }
    }

    /// The state after a write behind a type-1 controller, and what the
    /// write returns. Writes to the ROM ranges set the controller's latches:
    /// the RAM enable, the ROM bank, the RAM bank and the memory model.
    pub open spec fn write_mbc1(self, address: u16, value: u8) -> (
        CartridgeView,
        Result<(), GameboyError>,
    ) {
        if !(self.cart_type is MBC1) {
            (self, Err(GameboyError::Cartridge("MBC1 memory model was expected.")))
        } else if in_range(MEMORY_MODEL_SELECT, address) {
            (
                CartridgeView {
                    cart_type: CartridgeType::MBC1(
                        if value % 2 == 0 {
                            MemoryModel::MoreRom
                        } else {
                            MemoryModel::MoreRam
                        },
                    ),
                    ..self
                },
                Ok(()),
            )
        } else if in_range(ROM_BANK_SELECT, address) {
            self.set_rom_bank(address, value)
        } else if in_range(RAM_ENABLE_SELECT, address) {
            (CartridgeView { ram_enabled: value % 16 == 0x0A, ..self }, Ok(()))
        } else if in_range(RAM_BANK_SELECT, address) {
            (CartridgeView { rtc_mapped: false, ..self.set_ram_bank(value) }, Ok(()))
        } else if in_range(MMAP_RAM_BANK_SW, address) {
            self.write_ram(address, value)
        } else {
            (self, Err(GameboyError::BadAddress(address)))
        }
    }

    /// The state after a write behind a type-3 controller, and what the
    /// write returns. Writes to the ROM ranges set the controller's latches:
    /// the RAM enable, the ROM bank, the RAM bank or the mapped clock
    /// register, and the clock latch.
    pub open spec fn write_mbc3(self, address: u16, value: u8) -> (
        CartridgeView,
        Result<(), GameboyError>,
    ) {
        if in_range(RAM_ENABLE_SELECT, address) {
            (CartridgeView { ram_enabled: value % 16 == 0x0A, ..self }, Ok(()))
        } else if in_range(ROM_BANK_SELECT, address) {
            self.set_rom_bank(address, value)
        } else if in_range(RAM_BANK_SELECT, address) {
            if spec_is_rtc_register(value) {
                (
                    CartridgeView {
                        rtc: self.rtc.set_active_register(value).0,
                        rtc_mapped: true,
                        ..self
                    },
                    Ok(()),
                )
            } else {
                (CartridgeView { rtc_mapped: false, ..self.set_ram_bank(value) }, Ok(()))
            }
        } else if in_range(CLOCK_DATA_LATCH, address) {
            (CartridgeView { rtc: self.rtc.latch(value), ..self }, Ok(()))
        } else if in_range(MMAP_RAM_BANK_SW, address) {
            self.write_ram(address, value)
        } else {
            (self, Err(GameboyError::BadAddress(address)))
        }
    }

    /// What a read of `address` returns. The controllers of type 2 and 5
    /// are not emulated.
    pub open spec fn read(self, address: u16) -> Result<u8, GameboyError> {
        match self.cart_type {
            CartridgeType::RomOnly => self.read_romonly(address),
            CartridgeType::MBC1(_) => self.read_banked(address),
            CartridgeType::MBC3 => self.read_banked(address),
            _ => Err(GameboyError::NotImplemented),
        }
    }

    /// The state after a write of `value` to `address`, and what the write
    /// returns. The controllers of type 2 and 5 are not emulated.
    pub open spec fn write(self, address: u16, value: u8) -> (
        CartridgeView,
        Result<(), GameboyError>,
    ) {
        match self.cart_type {
            CartridgeType::RomOnly => self.write_romonly(address, value),
            CartridgeType::MBC1(_) => self.write_mbc1(address, value),
            CartridgeType::MBC3 => self.write_mbc3(address, value),
            _ => (self, Err(GameboyError::NotImplemented)),
        }
    }
}

/// The game's cartridge.
pub struct Cartridge {
    rom: Vec<u8>,
    ram: Vec<u8>,
    cart_type: CartridgeType,
    rtc: Rtc,
    rom_bank: u8,
    ram_bank: u8,
    ram_enabled: bool,
    rtc_mapped: bool,
}

impl View for Cartridge {
    type V = CartridgeView;

    closed spec fn view(&self) -> CartridgeView {
        CartridgeView {
            rom: self.rom@,
            ram: self.ram@,
            cart_type: self.cart_type,
            rtc: self.rtc@,
            rom_bank: self.rom_bank,
            ram_bank: self.ram_bank,
            ram_enabled: self.ram_enabled,
            rtc_mapped: self.rtc_mapped,
        }
    }
}

impl Cartridge {
    /// Makes a cartridge of a ROM image and a RAM image.
    pub fn new(rom: Vec<u8>, ram: Vec<u8>) -> (result: Result<Cartridge, GameboyError>)
        ensures
            match result {
                Ok(cartridge) => CartridgeView::load(rom@, ram@) == Ok::<
                    CartridgeView,
                    GameboyError,
                >(cartridge@) && cartridge@.wf(),
                Err(error) => CartridgeView::load(rom@, ram@) == Err::<
                    CartridgeView,
                    GameboyError,
                >(error),
            },
    {
        let rom_size = match Cartridge::rom_size(rom.as_slice()) {
            Ok(size) => size,
            Err(error) => {
                return Err(error);
            },
        };
        let ram_size = match Cartridge::ram_size(rom.as_slice()) {
            Ok(size) => size,
            Err(error) => {
                return Err(error);
            },
        };
        if rom.len() != rom_size {
            return Err(
                GameboyError::Cartridge("The ROM has not the size that its header declares."),
            );
        }
        if ram.len() != ram_size {
            return Err(
                GameboyError::Cartridge("The RAM has not the size that the header declares."),
            );
        }
        let code = rom[ROM_CARTRIDGE_TYPE];
        let cart_type = if code == 0x00 || code == 0x08 || code == 0x09 {
            CartridgeType::RomOnly
        } else if code == 0x01 || code == 0x02 || code == 0x03 {
            CartridgeType::MBC1(MemoryModel::MoreRom)
        } else if code == 0x05 || code == 0x06 {
            CartridgeType::MBC2
        } else if code == 0x12 || code == 0x13 {
            CartridgeType::MBC3
        } else if code == 0x19 || code == 0x1A || code == 0x1C || code == 0x1D || code == 0x1E {
            CartridgeType::MBC5
        } else {
            return Err(GameboyError::Cartridge("Invalid cartridge type."));
        };
        Ok(
            Cartridge {
                rom,
                ram,
                cart_type,
                rtc: Rtc::new(),
                rom_bank: 0,
                ram_bank: 0,
                ram_enabled: false,
                rtc_mapped: false,
            },
        )
    }

    /// Returns the game's title: the fifteen bytes of the header from 0x0134
    /// on.
    pub fn title(&self) -> (title: &[u8])
        requires
            self@.wf(),
        ensures
            title@ == self@.rom.subrange(0x0134, 0x0143),
    {
        slice_subrange(self.rom.as_slice(), 0x0134, 0x0143)
    }

    /// Returns the bank controller.
    pub fn cart_type(&self) -> (cart_type: CartridgeType)
        ensures
            cart_type == self@.cart_type,
    {
        self.cart_type
    }

    /// Returns the RAM, which outlives the cartridge where it is backed by a
    /// battery.
    pub fn ram(&self) -> (ram: &[u8])
        ensures
            ram@ == self@.ram,
    {
        self.ram.as_slice()
    }

    /// Enables or disables the RAM and the clock registers.
    pub fn set_ram_enabled(&mut self, enabled: bool)
        ensures
            final(self)@ == (CartridgeView { ram_enabled: enabled, ..old(self)@ }),
    {
        self.ram_enabled = enabled;
    }

    /// Returns the bits of a written value that select the ROM bank.
    fn rom_bank_mask(&self) -> (mask: u8)
        ensures
            mask == spec_rom_bank_mask(self@.cart_type),
    {
        match self.cart_type {
            CartridgeType::RomOnly => 0x00,
            CartridgeType::MBC1(_) => 0x03,
            CartridgeType::MBC2 => 0x0F,
            CartridgeType::MBC3 => 0x7F,
            CartridgeType::MBC5 => 0x7F,
        }
    }

    /// Selects the ROM bank that `value` names, as a write of `value` to
    /// `address` does. An address outside the ROM bank select range is
    /// refused.
    pub fn set_rom_bank(&mut self, address: u16, value: u8) -> (result: Result<(), GameboyError>)
        ensures
            (final(self)@, result) == old(self)@.set_rom_bank(address, value),
    {
        if in_range(ROM_BANK_SELECT, address) {
            self.rom_bank = value & self.rom_bank_mask();
            Ok(())
        } else {
            Err(GameboyError::BadAddress(address))
        }
    }

    /// Selects the RAM bank that `value` names.
    pub fn set_ram_bank(&mut self, value: u8) -> (result: Result<(), GameboyError>)
        ensures
            final(self)@ == old(self)@.set_ram_bank(value),
            result is Ok,
    {
        self.ram_bank = value & 0x0F;
        Ok(())
    }

    /// Writes without a bank controller.
    fn write_romonly(&mut self, address: u16, value: u8) -> (result: Result<(), GameboyError>)
        requires
            old(self)@.wf(),
            old(self)@.cart_type == CartridgeType::RomOnly,
        ensures
            (final(self)@, result) == old(self)@.write_romonly(address, value),
    {
        if (address as usize) >= self.rom.len() {
            return Err(GameboyError::BadAddress(address));
        }
        self.rom[address as usize] = value;
        Ok(())
    }

    /// Reads without a bank controller.
    fn read_romonly(&self, address: u16) -> (result: Result<u8, GameboyError>)
        requires
            self@.wf(),
            self@.cart_type == CartridgeType::RomOnly,
        ensures
            result == self@.read_romonly(address),
    {
        if (address as usize) >= self.rom.len() {
            return Err(GameboyError::BadAddress(address));
        }
        Ok(self.rom[address as usize])
    }

    /// Writes to the RAM range.
    fn write_ram(&mut self, address: u16, value: u8) -> (result: Result<(), GameboyError>)
        requires
            old(self)@.wf(),
            in_range(MMAP_RAM_BANK_SW, address),
        ensures
            (final(self)@, result) == old(self)@.write_ram(address, value),
    {
        if !self.ram_enabled {
            return Err(GameboyError::Io("Ram is not enabled for writing."));
        }
        if self.rtc_mapped {
            self.rtc.write(address, value)
        } else {
            let mmap_offset: usize = range_offset(MMAP_RAM_BANK_SW, address);
            let ram_offset: usize = RAM_BANK_SIZE * (self.ram_bank as usize) + mmap_offset;
            if self.ram.len() <= ram_offset {
                return Err(GameboyError::Cartridge("Invalid ram bank number."));
            }
            self.ram[ram_offset] = value;
            Ok(())
        }
    }

    /// Reads from the RAM range.
    fn read_ram(&self, address: u16) -> (result: Result<u8, GameboyError>)
        requires
            self@.wf(),
            in_range(MMAP_RAM_BANK_SW, address),
        ensures
            result == self@.read_ram(address),
    {
        if !self.ram_enabled {
            return Err(GameboyError::Io("Ram is not enabled for reading."));
        }
        if self.rtc_mapped {
            self.rtc.read(address)
        } else {
            let mmap_offset: usize = range_offset(MMAP_RAM_BANK_SW, address);
            let ram_offset: usize = RAM_BANK_SIZE * (self.ram_bank as usize) + mmap_offset;
            if self.ram.len() <= ram_offset {
                return Err(GameboyError::Cartridge("Invalid ram bank number."));
            }
            Ok(self.ram[ram_offset])
        }
    }

    /// Writes behind a type-1 controller.
    fn write_mbc1(&mut self, address: u16, value: u8) -> (result: Result<(), GameboyError>)
        requires
            old(self)@.wf(),
        ensures
            (final(self)@, result) == old(self)@.write_mbc1(address, value),
            final(self)@.wf(),
    {
        match self.cart_type {
            CartridgeType::MBC1(_) => {},
            _ => {
                return Err(GameboyError::Cartridge("MBC1 memory model was expected."));
            },
        }
        if in_range(MEMORY_MODEL_SELECT, address) {
            self.cart_type = CartridgeType::MBC1(
                if value % 2 == 0 {
                    MemoryModel::MoreRom
                } else {
                    MemoryModel::MoreRam
                },
            );
            Ok(())
        } else if in_range(ROM_BANK_SELECT, address) {
            self.set_rom_bank(address, value)
        } else if in_range(RAM_ENABLE_SELECT, address) {
            self.ram_enabled = value % 16 == 0x0A;
            Ok(())
        } else if in_range(RAM_BANK_SELECT, address) {
            let _ = self.set_ram_bank(value);
            self.rtc_mapped = false;
            Ok(())
        } else if in_range(MMAP_RAM_BANK_SW, address) {
            self.write_ram(address, value)
        } else {
            Err(GameboyError::BadAddress(address))
        }
    }

    /// Writes behind a type-3 controller.
    fn write_mbc3(&mut self, address: u16, value: u8) -> (result: Result<(), GameboyError>)
        requires
            old(self)@.wf(),
            old(self)@.cart_type == CartridgeType::MBC3,
        ensures
            (final(self)@, result) == old(self)@.write_mbc3(address, value),
            final(self)@.wf(),
    {
        if in_range(RAM_ENABLE_SELECT, address) {
            self.ram_enabled = value % 16 == 0x0A;
            Ok(())
        } else if in_range(ROM_BANK_SELECT, address) {
            self.set_rom_bank(address, value)
        } else if in_range(RAM_BANK_SELECT, address) {
            if is_rtc_register(value) {
                let _ = self.rtc.set_active_register(value);
                self.rtc_mapped = true;
            } else {
                let _ = self.set_ram_bank(value);
                self.rtc_mapped = false;
            }
            Ok(())
        } else if in_range(CLOCK_DATA_LATCH, address) {
            self.rtc.latch(value);
            Ok(())
        } else if in_range(MMAP_RAM_BANK_SW, address) {
            self.write_ram(address, value)
        } else {
            Err(GameboyError::BadAddress(address))
        }
    }

    /// Reads behind a bank controller of type 1 or 3.
    fn read_mbc3(&self, address: u16) -> (result: Result<u8, GameboyError>)
        requires
            self@.wf(),
        ensures
            result == self@.read_banked(address),
    {
        if in_range(MMAP_ROM_BANK0, address) {
            Ok(self.rom[address as usize])
        } else if in_range(MMAP_ROM_BANK_SW, address) {
            let active_bank: usize = if self.rom_bank == 0 {
                1
            } else {
                self.rom_bank as usize
            };
            let bank_base: usize = active_bank * ROM_BANK_SIZE;
            let bank_offset: usize = range_offset(MMAP_ROM_BANK_SW, address);
            let rom_offset = bank_base + bank_offset;
            if self.rom.len() <= rom_offset {
                return Err(GameboyError::Cartridge("Invalid rom bank number."));
            }
            Ok(self.rom[rom_offset])
        } else if in_range(MMAP_RAM_BANK_SW, address) {
            self.read_ram(address)
        } else {
            Err(GameboyError::BadAddress(address))
        }
    }

    /// Returns the number of ROM banks that the header of `rom` declares.
    pub fn num_rom_banks(rom: &[u8]) -> (result: Result<u8, GameboyError>)
        ensures
            result == header_rom_banks(rom@),
    {
        if rom.len() <= RAM_SIZE {
            return Err(GameboyError::Cartridge("The image is too short to hold a header."));
        }
        let code = rom[ROM_SIZE];
        let num_banks: u8 = if code == 0x00 {
            2
        } else if code == 0x01 {
            4
        } else if code == 0x02 {
            8
        } else if code == 0x03 {
            16
        } else if code == 0x04 {
            32
        } else if code == 0x05 {
            64
        } else if code == 0x06 {
            128
        } else if code == 0x52 {
            72
        } else if code == 0x53 {
            80
        } else if code == 0x54 {
            96
        } else {
            return Err(GameboyError::Cartridge("Invalid ROM banks configuration."));
        };
        Ok(num_banks)
    }

    /// Returns the size in bytes of the ROM that the header of `rom`
    /// declares.
    pub fn rom_size(rom: &[u8]) -> (result: Result<usize, GameboyError>)
        ensures
            result == header_rom_size(rom@),
    {
        match Cartridge::num_rom_banks(rom) {
            Ok(banks) => Ok(banks as usize * ROM_BANK_SIZE),
            Err(error) => Err(error),
        }
    }

    /// Returns the size in bytes of the RAM that the header of `rom`
    /// declares.
    pub fn ram_size(rom: &[u8]) -> (result: Result<usize, GameboyError>)
        ensures
            result == header_ram_size(rom@),
    {
        if rom.len() <= RAM_SIZE {
            return Err(GameboyError::Cartridge("The image is too short to hold a header."));
        }
        let code = rom[RAM_SIZE];
        let size: usize = if code == 0x00 {
            0
        } else if code == 0x01 {
            0x800
        } else if code == 0x02 {
            0x2000
        } else if code == 0x03 {
            0x8000
        } else if code == 0x04 {
            0x20000
        } else {
            return Err(GameboyError::Cartridge("Invalid RAM banks configuration."));
        };
        Ok(size)
    }

    /// Makes a RAM of the size that the header of `rom` declares, filled
    /// with zeros.
    pub fn make_ram(rom: &[u8]) -> (result: Result<Vec<u8>, GameboyError>)
        ensures
            match result {
                Ok(ram) => header_ram_size(rom@) == Ok::<usize, GameboyError>(ram@.len() as usize)
                    && forall|i: int| 0 <= i < ram@.len() ==> ram@[i] == 0,
                Err(error) => header_ram_size(rom@) == Err::<usize, GameboyError>(error),
            },
    {
        match Cartridge::ram_size(rom) {
            Ok(size) => Ok(vec![0; size]),
            Err(error) => Err(error),
        }
    }
}

impl Memory for Cartridge {
    open spec fn valid(&self) -> bool {
        self@.wf()
    }

    open spec fn read_spec(&self, address: u16) -> Result<u8, GameboyError> {
        self@.read(address)
    }

    open spec fn write_spec(
        pre: &Self,
        post: &Self,
        address: u16,
        value: u8,
        result: Result<(), GameboyError>,
    ) -> bool {
        (post@, result) == pre@.write(address, value)
    }

    fn write(&mut self, address: u16, value: u8) -> (result: Result<(), GameboyError>) {
        match self.cart_type {
            CartridgeType::RomOnly => self.write_romonly(address, value),
            CartridgeType::MBC1(_) => self.write_mbc1(address, value),
            CartridgeType::MBC3 => self.write_mbc3(address, value),
            _ => Err(GameboyError::NotImplemented),
        }
    }

    fn read(&self, address: u16) -> (result: Result<u8, GameboyError>) {
        match self.cart_type {
            CartridgeType::RomOnly => self.read_romonly(address),
            CartridgeType::MBC1(_) => self.read_mbc3(address),
            CartridgeType::MBC3 => self.read_mbc3(address),
            _ => Err(GameboyError::NotImplemented),
        }
    }
}

/// The RAM keeps what was written to it: behind a type-3 controller with
/// the RAM enabled and no clock register mapped, a byte written to an
/// address of the selected bank is read back at that address.
pub proof fn lemma_ram_read_back(v: CartridgeView, address: u16, value: u8)
    requires
        v.wf(),
        v.cart_type == CartridgeType::MBC3,
        v.ram_enabled,
        !v.rtc_mapped,
        in_range(MMAP_RAM_BANK_SW, address),
        v.ram_offset(address) < v.ram.len(),
    ensures
        v.write(address, value).1 is Ok,
        v.write(address, value).0.read(address) == Ok::<u8, GameboyError>(value),
{
}

} // verus!
