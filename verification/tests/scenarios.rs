use gameboy_core::bus::cartridge::{Cartridge, RAM_SIZE, ROM_CARTRIDGE_TYPE, ROM_SIZE};
use gameboy_core::bus::Memory;
use gameboy_core::bus::timer::Timer;
use gameboy_core::config::{Config, HardwareModel};
use gameboy_core::cpu::decode::Instruction;
use gameboy_core::cpu::interrupts::InterruptSource;
use gameboy_core::cpu::state::{CpuState, Flag, Register};
use gameboy_core::cpu::Cpu;
use gameboy_core::emulator::Emulator;
use gameboy_core::GameboyError;

/// Makes a ROM of two banks without a bank controller.
fn plain_rom() -> Vec<u8> {
    let mut rom = vec![0_u8; 0x8000];
    rom[ROM_CARTRIDGE_TYPE] = 0x00;
    rom[ROM_SIZE] = 0x00;
    rom[RAM_SIZE] = 0x00;
    rom
}

/// Makes a machine of `model` around a plain ROM.
fn machine(model: HardwareModel) -> Cpu {
    let config = Config { model };
    let cartridge = Cartridge::new(plain_rom(), Vec::new()).unwrap();
    Cpu::new(&config, cartridge)
}

/// Makes a machine whose program counter is at 0xC000, where `program`
/// stands.
fn machine_running(program: &[u8]) -> Cpu {
    let mut cpu = machine(HardwareModel::GB);
    cpu.mmap.write_all(0xC000, program).unwrap();
    cpu.registers.set(Register::PC, 0xC000);
    cpu
}

#[test]
fn reset_values_of_the_first_model() {
    let cpu = machine(HardwareModel::GB);
    assert_eq!(cpu.registers.get(Register::A), 0x01);
    assert_eq!(cpu.registers.get(Register::F), 0xB0);
    assert_eq!(cpu.registers.get(Register::BC), 0x0013);
    assert_eq!(cpu.registers.get(Register::DE), 0x00D8);
    assert_eq!(cpu.registers.get(Register::HL), 0x014D);
    assert_eq!(cpu.registers.get(Register::SP), 0xFFFE);
    assert_eq!(cpu.registers.get(Register::PC), 0x0100);
    assert!(!cpu.registers.ime());
}

#[test]
fn reset_accumulator_depends_on_the_model() {
    assert_eq!(machine(HardwareModel::GBC).registers.get(Register::A), 0x11);
    assert_eq!(machine(HardwareModel::GBP).registers.get(Register::A), 0xFF);
    assert_eq!(machine(HardwareModel::SGB).registers.get(Register::A), 0x01);
    let mut state = CpuState::new(&Config { model: HardwareModel::GBC });
    state.set(Register::AF, 0);
    state.set(Register::PC, 0x1234);
    state.set_ime(true);
    state.reset();
    assert_eq!(state.get(Register::AF), 0x11B0);
    assert_eq!(state.get(Register::PC), 0x0100);
    assert!(!state.ime());
}

#[test]
fn two_immediate_loads() {
    let mut cpu = machine_running(&[0x06, 0x42, 0x0E, 0x24]);
    let first = cpu.execute().unwrap();
    let second = cpu.execute().unwrap();
    assert_eq!(first + second, 16);
    assert_eq!(cpu.registers.get(Register::B), 0x42);
    assert_eq!(cpu.registers.get(Register::C), 0x24);
    assert_eq!(cpu.registers.get(Register::PC), 0xC004);
}

#[test]
fn add_register_to_accumulator() {
    let mut cpu = machine_running(&[0x80]);
    cpu.registers.set(Register::A, 0x3A);
    cpu.registers.set(Register::B, 0xC6);
    cpu.registers.set(Register::F, 0x00);
    let elapsed = cpu.execute().unwrap();
    assert_eq!(elapsed, 4);
    assert_eq!(cpu.registers.get(Register::A), 0x00);
    assert!(cpu.registers.get_flag(Flag::Z));
    assert!(!cpu.registers.get_flag(Flag::N));
    assert!(cpu.registers.get_flag(Flag::H));
    assert!(cpu.registers.get_flag(Flag::C));
}

#[test]
fn push_then_pop_restores_pair_and_stack_pointer() {
    let mut cpu = machine_running(&[0xC5, 0xC1]);
    cpu.registers.set(Register::SP, 0xDFFE);
    cpu.registers.set(Register::BC, 0x1234);
    assert_eq!(cpu.execute().unwrap(), 16);
    assert_eq!(cpu.registers.get(Register::SP), 0xDFFC);
    assert_eq!(cpu.mmap.read(0xDFFD).unwrap(), 0x12);
    assert_eq!(cpu.mmap.read(0xDFFC).unwrap(), 0x34);
    cpu.registers.set(Register::BC, 0);
    assert_eq!(cpu.execute().unwrap(), 12);
    assert_eq!(cpu.registers.get(Register::BC), 0x1234);
    assert_eq!(cpu.registers.get(Register::SP), 0xDFFE);
}

#[test]
fn transfer_to_object_attribute_memory() {
    let mut cpu = machine(HardwareModel::GB);
    for address in 0xC000..0xC0A0_u16 {
        cpu.mmap.write(address, 0xAA).unwrap();
    }
    cpu.mmap.write(0xC0A0, 0x55).unwrap();
    assert_eq!(cpu.mmap.read(0xFF46).unwrap(), 0);
    cpu.mmap.write(0xFF46, 0xC0).unwrap();
    for address in 0xFE00..0xFEA0_u16 {
        assert_eq!(cpu.mmap.read(address).unwrap(), 0xAA);
    }
    assert_eq!(cpu.mmap.read(0xFF46).unwrap(), 0);
}

#[test]
fn transfer_copies_each_byte_of_the_page() {
    let mut cpu = machine(HardwareModel::GB);
    for index in 0..0xA0_u16 {
        cpu.mmap.write(0xD100 + index, (index as u8) ^ 0x5A).unwrap();
    }
    cpu.mmap.write(0xFF46, 0xD1).unwrap();
    for index in 0..0xA0_u16 {
        assert_eq!(cpu.mmap.read(0xFE00 + index).unwrap(), (index as u8) ^ 0x5A);
    }
}

#[test]
fn transfer_from_an_unmapped_page_fails() {
    let mut cpu = machine(HardwareModel::GB);
    // The page 0xFE holds the attribute memory, then nothing from 0xFEA0 on;
    // the page 0xA0 is the RAM of a cartridge that has none.
    assert!(matches!(cpu.mmap.write(0xFF46, 0xA0), Err(GameboyError::BadAddress(0xA000))));
}

#[test]
fn timer_overflow_reloads_and_raises() {
    let mut timer = Timer::new(&Config::default());
    timer.write(0xFF07, 0x05).unwrap();
    timer.write(0xFF05, 0xFF).unwrap();
    timer.write(0xFF06, 0x80).unwrap();
    for _ in 0..4 {
        timer.process(4);
    }
    assert_eq!(timer.read(0xFF05).unwrap(), 0x80);
    assert_eq!(timer.interrupts() & 0x04, 0x04);
}

#[test]
fn timer_overflow_reaches_the_interrupt_flag() {
    let mut cpu = machine_running(&[0x00, 0x00, 0x00, 0x00]);
    cpu.mmap.write(0xFFFF, 0x04).unwrap();
    cpu.mmap.write(0xFF07, 0x05).unwrap();
    cpu.mmap.write(0xFF05, 0xFF).unwrap();
    cpu.mmap.write(0xFF06, 0x80).unwrap();
    let mut elapsed = 0;
    for _ in 0..4 {
        elapsed += cpu.execute().unwrap();
    }
    assert_eq!(elapsed, 16);
    assert_eq!(cpu.mmap.read(0xFF05).unwrap(), 0x80);
    assert_eq!(cpu.mmap.read(0xFF0F).unwrap() & 0x04, 0x04);
}

#[test]
fn interrupts_that_are_not_enabled_are_dropped_by_a_tick() {
    let mut cpu = machine_running(&[0x00]);
    cpu.mmap.write(0xFF0F, 0x1F).unwrap();
    cpu.mmap.write(0xFFFF, 0x05).unwrap();
    cpu.execute().unwrap();
    assert_eq!(cpu.mmap.read(0xFF0F).unwrap(), 0x05);
}

#[test]
fn interrupts_are_served_by_priority() {
    let mut cpu = machine_running(&[0x00]);
    cpu.registers.set(Register::SP, 0xDFFE);
    cpu.mmap.write(0xFFFF, 0x1F).unwrap();
    cpu.mmap.write(0xFF0F, 0x1F).unwrap();
    let vectors = [0x0040_u16, 0x0048, 0x0050, 0x0058, 0x0060];
    let mut waiting = 0x1F_u8;
    for (index, vector) in vectors.iter().enumerate() {
        let pc = cpu.registers.get(Register::PC);
        let sp = cpu.registers.get(Register::SP);
        cpu.registers.set_ime(true);
        assert_eq!(cpu.handle_interrupts().unwrap(), 24);
        waiting &= !(1 << index);
        assert_eq!(cpu.registers.get(Register::PC), *vector);
        assert!(!cpu.registers.ime());
        assert_eq!(cpu.mmap.read(0xFF0F).unwrap(), waiting);
        assert_eq!(cpu.registers.get(Register::SP), sp - 2);
        let low = cpu.mmap.read(sp - 2).unwrap() as u16;
        let high = cpu.mmap.read(sp - 1).unwrap() as u16;
        assert_eq!(high * 256 + low, pc);
    }
    cpu.registers.set_ime(true);
    assert_eq!(cpu.handle_interrupts().unwrap(), 0);
}

#[test]
fn no_interrupt_is_served_while_disabled() {
    let mut cpu = machine_running(&[0x00]);
    cpu.mmap.write(0xFFFF, 0x1F).unwrap();
    cpu.mmap.write(0xFF0F, 0x1F).unwrap();
    assert_eq!(cpu.handle_interrupts().unwrap(), 0);
    assert_eq!(cpu.registers.get(Register::PC), 0xC000);
    assert_eq!(cpu.mmap.read(0xFF0F).unwrap(), 0x1F);
}

#[test]
fn interrupt_that_is_not_enabled_is_not_served() {
    let mut cpu = machine_running(&[0x00]);
    cpu.registers.set(Register::SP, 0xDFFE);
    cpu.mmap.write(0xFFFF, 0x04).unwrap();
    cpu.mmap.write(0xFF0F, 0x05).unwrap();
    cpu.registers.set_ime(true);
    assert_eq!(cpu.handle_interrupts().unwrap(), 24);
    assert_eq!(cpu.registers.get(Register::PC), 0x0050);
    assert_eq!(cpu.mmap.read(0xFF0F).unwrap(), 0x01);
}

#[test]
fn halt_with_interrupts_disabled_fetches_the_next_byte_twice() {
    // halt; inc A; nop
    let mut cpu = machine_running(&[0x76, 0x3C, 0x00]);
    cpu.registers.set(Register::A, 0x10);
    cpu.mmap.write(0xFFFF, 0x01).unwrap();
    cpu.mmap.write(0xFF0F, 0x01).unwrap();
    assert_eq!(cpu.execute().unwrap(), 4);
    assert!(cpu.halting);
    assert_eq!(cpu.registers.get(Register::PC), 0xC001);
    cpu.execute().unwrap();
    assert!(!cpu.halting);
    assert_eq!(cpu.registers.get(Register::A), 0x11);
    assert_eq!(cpu.registers.get(Register::PC), 0xC001);
    cpu.execute().unwrap();
    assert_eq!(cpu.registers.get(Register::A), 0x12);
    assert_eq!(cpu.registers.get(Register::PC), 0xC002);
}

#[test]
fn halted_processor_waits_four_cycles() {
    let mut cpu = machine_running(&[0x76, 0x3C]);
    cpu.registers.set(Register::A, 0);
    cpu.execute().unwrap();
    assert_eq!(cpu.execute().unwrap(), 4);
    assert_eq!(cpu.execute().unwrap(), 4);
    assert!(cpu.halting);
    assert_eq!(cpu.registers.get(Register::A), 0);
}

#[test]
fn enabling_interrupts_takes_effect_after_the_next_instruction() {
    // ei; nop; nop
    let mut cpu = machine_running(&[0xFB, 0x00, 0x00]);
    cpu.execute().unwrap();
    assert!(!cpu.registers.ime());
    cpu.execute().unwrap();
    assert!(cpu.registers.ime());
    // di
    cpu.mmap.write(0xC002, 0xF3).unwrap();
    cpu.execute().unwrap();
    assert!(!cpu.registers.ime());
}

#[test]
fn undefined_opcode_is_refused() {
    for opcode in [0x10_u8, 0xD3, 0xDB, 0xDD, 0xE3, 0xE4, 0xEB, 0xEC, 0xED, 0xF4, 0xFC, 0xFD] {
        let mut cpu = machine_running(&[opcode]);
        assert!(matches!(cpu.execute(), Err(GameboyError::BadOpcode(found)) if found == opcode));
        let mut cpu = machine_running(&[0x00]);
        assert!(matches!(
            Instruction::Primary(opcode).execute(&mut cpu),
            Err(GameboyError::BadOpcode(found)) if found == opcode
        ));
    }
}

#[test]
fn prefix_is_followed_by_the_extended_opcode() {
    // swap A
    let mut cpu = machine_running(&[0xCB, 0x37]);
    cpu.registers.set(Register::A, 0xF1);
    assert_eq!(cpu.execute().unwrap(), 8);
    assert_eq!(cpu.registers.get(Register::A), 0x1F);
    assert_eq!(cpu.registers.get(Register::PC), 0xC002);
    let mut cpu = machine_running(&[0x00]);
    assert!(matches!(cpu.decode(0x80), Ok(Instruction::Primary(0x80))));
    assert!(matches!(cpu.decode_cb(0x80), Ok(Instruction::Extended(0x80))));
    assert!(matches!(cpu.decode(0xCB), Ok(Instruction::Extended(0x00))));
    assert_eq!(cpu.registers.get(Register::PC), 0xC001);
}

#[test]
fn unmapped_address_is_refused() {
    let mut cpu = machine(HardwareModel::GB);
    assert!(matches!(cpu.mmap.read(0xFEA0), Err(GameboyError::Io(_))));
    assert!(matches!(cpu.mmap.write(0xFEFF, 1), Err(GameboyError::Io(_))));
    assert!(matches!(cpu.mmap.write(0xFF44, 1), Err(GameboyError::BadAddress(0xFF44))));
}

#[test]
fn emulator_is_made_of_images() {
    let config = Config::default();
    let mut rom = plain_rom();
    rom[0x0100] = 0x3C;
    let mut emulator = Emulator::new(&config, rom, Vec::new()).unwrap();
    assert_eq!(emulator.step().unwrap(), 4);
    assert_eq!(emulator.cpu.registers.get(Register::A), 0x02);
    assert_eq!(emulator.ram().len(), 0);
    let mut frame = vec![1_u32; 160 * 144];
    emulator.flush(&mut frame);
    assert!(frame.iter().all(|pixel| *pixel == 0));
    assert!(matches!(
        Emulator::new(&config, vec![0; 0x4000], Vec::new()),
        Err(GameboyError::Cartridge(_))
    ));
}
