use gameboy_core::bus::cartridge::{Cartridge, CartridgeType, RAM_SIZE, ROM_CARTRIDGE_TYPE};
use gameboy_core::bus::consts::{MMAP_INTERRUPT_EN, MMAP_RAM_BANK_SW};
use gameboy_core::bus::memory_range::{in_range, make_range, range_start, MemoryRange};
use gameboy_core::bus::Memory;
use gameboy_core::config::Config;
use gameboy_core::cpu::alu::alu8::{stores_result, Alu8Op};
use gameboy_core::cpu::state::{CpuState, Flag, Register};
use gameboy_core::cpu::Cpu;

const TEST_CARTRIDGE_TITLE: &[u8] = b"TEST CARTRIDGE\0";

/// Makes an empty ROM of two banks with a header for `cart_type`.
fn empty_rom(cart_type: CartridgeType) -> Vec<u8> {
    let mut rom = vec![0_u8; 0x8000];
    match cart_type {
        CartridgeType::RomOnly => {
            rom[ROM_CARTRIDGE_TYPE] = 0x00;
        }
        CartridgeType::MBC3 => {
            rom[ROM_CARTRIDGE_TYPE] = 0x13;
            rom[RAM_SIZE] = 0x02;
        }
        _ => unreachable!(),
    }
    rom[0x0134..=0x0142].clone_from_slice(TEST_CARTRIDGE_TITLE);
    rom
}

/// Makes a machine around a type-3 cartridge with one bank of RAM.
fn test_cpu() -> Cpu {
    let config = Config::default();
    let rom = empty_rom(CartridgeType::MBC3);
    let ram = Cartridge::make_ram(&rom).unwrap();
    let cartridge = Cartridge::new(rom, ram).unwrap();
    Cpu::new(&config, cartridge)
}

#[test]
fn bus_test_memory_range() {
    let int_enable_ptr: u16 = 0xFFFF;
    let ram_ptr: u16 = 0xA100;

    assert!(in_range(MMAP_INTERRUPT_EN, int_enable_ptr));
    assert!(in_range(MMAP_RAM_BANK_SW, ram_ptr));
}

#[test]
fn mod_test_memory_range() {
    let int_enable_ptr: u16 = 0xFFFF;
    let ram_ptr: u16 = 0xA100;

    assert!(in_range(MMAP_INTERRUPT_EN, int_enable_ptr));
    assert!(in_range(MMAP_RAM_BANK_SW, ram_ptr));
}

#[test]
fn memory_range_test_memory_range() {
    let first_5_bytes: MemoryRange = make_range(0, 4);

    assert!(in_range(first_5_bytes, 3));
    assert!(!in_range(first_5_bytes, 5));
}

#[test]
fn test_cartridge_init() {
    let rom = empty_rom(CartridgeType::RomOnly);
    let ram = Cartridge::make_ram(&rom).unwrap();

    let cart = Cartridge::new(rom, ram).unwrap();

    assert!(CartridgeType::RomOnly == cart.cart_type());
    assert!(TEST_CARTRIDGE_TITLE == cart.title());
}

#[test]
fn test_cartridge_rw() {
    let rom = empty_rom(CartridgeType::MBC3);
    let ram = Cartridge::make_ram(&rom).unwrap();

    let mut cart = Cartridge::new(rom, ram).unwrap();

    // Read the beginning of the cartridge's name.
    let cart_name_start: u16 = 0x0134;
    assert!(TEST_CARTRIDGE_TITLE[0] == cart.read(cart_name_start).unwrap());

    let ram_start = range_start(MMAP_RAM_BANK_SW);
    let ram_enable: u16 = 0x0000;

    // The RAM does not answer before it is enabled.
    assert!(cart.write(ram_start, 0x0).is_err());

    cart.write(ram_enable, 0x0A).unwrap();
    cart.write(ram_start, 0x13).unwrap();
    assert!(0x13 == cart.read(ram_start).unwrap());
}

#[test]
fn test_writeback() {
    let cp_op: Alu8Op = Alu8Op::Cp;
    let sub_op: Alu8Op = Alu8Op::Sub;

    assert!(!stores_result(cp_op));
    assert!(stores_result(sub_op));
}

#[test]
fn test_push_pop() {
    let mut cpu = test_cpu();
    // Move the program counter to the RAM bank.
    cpu.registers.set(Register::PC, 0xA000);
    cpu.registers.set(Register::BC, 0x1234);

    let data: &[u8] = &[/* PUSH BC */ 0xc5, /* POP BC  */ 0xc1];
    cpu.mmap.cartridge.set_ram_enabled(true);
    cpu.mmap.write_all(cpu.registers.get(Register::PC), data).unwrap();

    cpu.execute_single().unwrap();
    cpu.execute_single().unwrap();

    assert!(cpu.registers.get(Register::BC) == 0x1234);
}

#[test]
fn test_fetch() {
    let mut cpu = test_cpu();
    // Move the program counter to the RAM bank.
    cpu.registers.set(Register::PC, 0xA000);

    let data: &[u8] = &[1, 2, 3];
    cpu.mmap.cartridge.set_ram_enabled(true);
    cpu.mmap.write_all(cpu.registers.get(Register::PC), data).unwrap();

    assert!(cpu.fetch::<u16>().unwrap() == 0x0201);
    assert!(cpu.fetch::<u8>().unwrap() == 0x03);
}

#[test]
fn state_test_registers_rw() {
    let cfg = Config::default();
    let mut cpu: CpuState = CpuState::new(&cfg);

    assert_eq!(0x0013, cpu.get(Register::BC));

    cpu.set(Register::AF, 0x1234);
    assert_eq!(0x12, cpu.get(Register::A));
    // The low nibble of the flags register reads as zero.
    assert_eq!(0x30, cpu.get(Register::F));

    cpu.set(Register::B, 0x18);
    assert_eq!(0x18, cpu.get(Register::B));

    cpu.set(Register::SP, 0x7FFC);
    assert_eq!(0x7FFC, cpu.get(Register::SP));
}

#[test]
fn state_test_cpu_flags() {
    let cfg = Config::default();
    let mut cpu: CpuState = CpuState::new(&cfg);

    cpu.set(Register::F, 0b10010000);
    assert_eq!(
        true,
        cpu.get_flag(Flag::Z)
            && !cpu.get_flag(Flag::N)
            && !cpu.get_flag(Flag::H)
            && cpu.get_flag(Flag::C)
    );

    cpu.set(Register::F, 0b01000000);
    assert_eq!(
        true,
        !cpu.get_flag(Flag::Z)
            && cpu.get_flag(Flag::N)
            && !cpu.get_flag(Flag::H)
            && !cpu.get_flag(Flag::C)
    );

    cpu.set_flag(Flag::N, false);
    assert_eq!(false, cpu.get_flag(Flag::N));

    cpu.set_flag(Flag::C, true);
    assert_eq!(true, cpu.get_flag(Flag::C));
}
