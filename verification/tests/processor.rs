use gameboy_core::bus::cartridge::Cartridge;
use gameboy_core::bus::joypad::Key;
use gameboy_core::bus::Memory;
use gameboy_core::config::Config;
use gameboy_core::cpu::alu::alu16::{self, Alu16Op};
use gameboy_core::cpu::alu::alu8::{self, Alu8Op};
use gameboy_core::cpu::instructions::{
    byte_op, decimal_adjust, enter_interrupt, offset, opcode_00, opcode_80, opcode_cb80, ByteOp,
};
use gameboy_core::cpu::state::{get_index, get_type, CpuState, Flag, Flags, Register, RegisterType};
use gameboy_core::cpu::Cpu;
use gameboy_core::GameboyError;

fn machine() -> Cpu {
    let rom = vec![0_u8; 0x8000];
    Cpu::new(&Config::default(), Cartridge::new(rom, Vec::new()).unwrap())
}

fn machine_running(program: &[u8]) -> Cpu {
    let mut cpu = machine();
    cpu.mmap.write_all(0xC000, program).unwrap();
    cpu.registers.set(Register::PC, 0xC000);
    cpu.registers.set(Register::SP, 0xDFFE);
    cpu
}

fn flags(cpu: &Cpu) -> (bool, bool, bool, bool) {
    let flags = cpu.registers.flags();
    (flags.z, flags.n, flags.h, flags.c)
}

const ALL: [Register; 14] = [
    Register::A,
    Register::F,
    Register::AF,
    Register::B,
    Register::C,
    Register::BC,
    Register::D,
    Register::E,
    Register::DE,
    Register::H,
    Register::L,
    Register::HL,
    Register::SP,
    Register::PC,
];

#[test]
fn registers_give_back_what_was_written() {
    for reg in ALL {
        let wide = get_type(&reg) == RegisterType::Wide;
        let values: Vec<u16> = if wide {
            vec![0x0000, 0x0010, 0x1230, 0x8000, 0xFFF0, 0xABC0]
        } else {
            vec![0x00, 0x10, 0x70, 0x80, 0xF0]
        };
        for value in values {
            let mut state = CpuState::new(&Config::default());
            let before = state;
            state.set(reg, value);
            assert_eq!(state.get(reg), value);
            for other in ALL {
                if get_index(&other) != get_index(&reg) {
                    assert_eq!(state.get(other), before.get(other));
                }
            }
        }
    }
    let mut state = CpuState::new(&Config::default());
    state.set(Register::BC, 0x1234);
    state.set(Register::DE, 0x5678);
    state.set(Register::HL, 0x9ABC);
    assert_eq!((state.get(Register::B), state.get(Register::C)), (0x12, 0x34));
    assert_eq!((state.get(Register::D), state.get(Register::E)), (0x56, 0x78));
    assert_eq!((state.get(Register::H), state.get(Register::L)), (0x9A, 0xBC));
    state.set(Register::C, 0xFFEE);
    assert_eq!(state.get(Register::BC), 0x12EE);
    state.set(Register::D, 0x01);
    assert_eq!(state.get(Register::DE), 0x0178);
    // The low nibble of the flags register does not exist.
    state.set(Register::F, 0xFF);
    assert_eq!(state.get(Register::F), 0xF0);
    state.set(Register::AF, 0x120F);
    assert_eq!(state.get(Register::AF), 0x1200);
    assert_eq!(state.get8(Register::A), 0x12);
}

#[test]
fn flags_are_bits_of_the_flags_register() {
    let mut state = CpuState::new(&Config::default());
    for (flag, bit) in [(Flag::Z, 0x80_u16), (Flag::N, 0x40), (Flag::H, 0x20), (Flag::C, 0x10)] {
        state.set(Register::F, 0);
        state.set_flag(flag, true);
        assert_eq!(state.get(Register::F), bit);
        assert!(state.flag(flag));
        state.set(Register::F, 0xF0);
        state.set_flag(flag, false);
        assert_eq!(state.get(Register::F), 0xF0 & !bit);
        assert!(!state.get_flag(flag));
    }
    state.set(Register::A, 0x77);
    state.set_flags(Flags { z: true, n: false, h: true, c: false });
    assert_eq!(state.get(Register::AF), 0x77A0);
    assert_eq!(state.flags(), Flags { z: true, n: false, h: true, c: false });
    assert_eq!(Flags::from_byte(0x5F), Flags { z: false, n: true, h: false, c: true });
    assert_eq!(Flags { z: true, n: true, h: true, c: true }.byte(), 0xF0);
    assert!(Flags::from_byte(0x10).get(Flag::C));
    assert_eq!(Flags::from_byte(0).with(Flag::H, true).byte(), 0x20);
}

#[test]
fn addition_of_every_pair_of_bytes() {
    let mut cpu = machine();
    for a in 0..=255_u16 {
        for b in 0..=255_u16 {
            let result = alu8::add(&mut cpu, a as u8, b as u8);
            assert_eq!(result as u16, (a + b) % 256);
            assert_eq!(
                flags(&cpu),
                (result == 0, false, (a & 0xF) + (b & 0xF) > 0xF, a + b > 255)
            );
        }
    }
}

#[test]
fn subtraction_of_every_pair_of_bytes() {
    let mut cpu = machine();
    for a in 0..=255_i32 {
        for b in 0..=255_i32 {
            let result = alu8::sub(&mut cpu, a as u8, b as u8);
            assert_eq!(result as i32, (a - b).rem_euclid(256));
            assert_eq!(flags(&cpu), (result == 0, true, (a & 0xF) < (b & 0xF), a < b));
            let compared = alu8::cp(&mut cpu, a as u8, b as u8);
            assert_eq!(compared, result);
        }
    }
}

#[test]
fn carry_joins_addition_and_subtraction() {
    let mut cpu = machine();
    for a in [0x00_i32, 0x0F, 0x10, 0x7F, 0x80, 0xFF] {
        for b in [0x00_i32, 0x01, 0x0F, 0xF0, 0xFF] {
            for carry in [0_i32, 1] {
                cpu.registers.set_flag(Flag::C, carry == 1);
                let sum = alu8::adc(&mut cpu, a as u8, b as u8);
                assert_eq!(sum as i32, (a + b + carry) % 256);
                assert_eq!(
                    flags(&cpu),
                    (sum == 0, false, (a & 0xF) + (b & 0xF) + carry > 0xF, a + b + carry > 255)
                );
                cpu.registers.set_flag(Flag::C, carry == 1);
                let difference = alu8::sbc(&mut cpu, a as u8, b as u8);
                assert_eq!(difference as i32, (a - b - carry).rem_euclid(256));
                assert_eq!(
                    flags(&cpu),
                    (difference == 0, true, (a & 0xF) < (b & 0xF) + carry, a < b + carry)
                );
            }
        }
    }
}

#[test]
fn logical_operations() {
    let mut cpu = machine();
    assert_eq!(alu8::and(&mut cpu, 0xF0, 0x3C), 0x30);
    assert_eq!(flags(&cpu), (false, false, true, false));
    assert_eq!(alu8::and(&mut cpu, 0xF0, 0x0F), 0x00);
    assert_eq!(flags(&cpu), (true, false, true, false));
    assert_eq!(alu8::or(&mut cpu, 0xF0, 0x3C), 0xFC);
    assert_eq!(flags(&cpu), (false, false, false, false));
    assert_eq!(alu8::or(&mut cpu, 0, 0), 0);
    assert_eq!(flags(&cpu), (true, false, false, false));
    assert_eq!(alu8::xor(&mut cpu, 0xF0, 0x3C), 0xCC);
    assert_eq!(flags(&cpu), (false, false, false, false));
    assert_eq!(alu8::xor(&mut cpu, 0x5A, 0x5A), 0);
    assert_eq!(flags(&cpu), (true, false, false, false));
    assert_eq!(alu8::apply(Alu8Op::Xor, &mut cpu, 0xFF, 0x0F), 0xF0);
    assert_eq!(alu8::apply(Alu8Op::Cp, &mut cpu, 8, 8), 0);
    assert!(alu8::stores_result(Alu8Op::Add) && alu8::stores_result(Alu8Op::Or));
}

#[test]
fn rotations_and_shifts() {
    let mut cpu = machine();
    assert_eq!(alu8::swap(&mut cpu, 0xA5), 0x5A);
    assert_eq!(flags(&cpu), (false, false, false, false));
    assert_eq!(alu8::swap(&mut cpu, 0), 0);
    assert_eq!(flags(&cpu), (true, false, false, false));
    // Carry-copy rotations.
    cpu.registers.set_flag(Flag::C, false);
    assert_eq!(alu8::rotate_left(&mut cpu, 0x85, false), 0x0B);
    assert_eq!(flags(&cpu), (false, false, false, true));
    assert_eq!(alu8::rotate_right(&mut cpu, 0x01, false), 0x80);
    assert_eq!(flags(&cpu), (false, false, false, true));
    // Rotations through the carry flag.
    cpu.registers.set_flag(Flag::C, false);
    assert_eq!(alu8::rotate_left(&mut cpu, 0x80, true), 0x00);
    assert_eq!(flags(&cpu), (true, false, false, true));
    assert_eq!(alu8::rotate_left(&mut cpu, 0x01, true), 0x03);
    assert_eq!(flags(&cpu), (false, false, false, false));
    cpu.registers.set_flag(Flag::C, true);
    assert_eq!(alu8::rotate_right(&mut cpu, 0x02, true), 0x81);
    assert_eq!(flags(&cpu), (false, false, false, false));
    assert_eq!(alu8::rotate_right(&mut cpu, 0x01, true), 0x00);
    assert_eq!(flags(&cpu), (true, false, false, true));
    // Shifts.
    assert_eq!(alu8::shift_left(&mut cpu, 0xC1), 0x82);
    assert_eq!(flags(&cpu), (false, false, false, true));
    assert_eq!(alu8::shift_right(&mut cpu, 0x81, true), 0x40);
    assert_eq!(flags(&cpu), (false, false, false, true));
    assert_eq!(alu8::shift_right(&mut cpu, 0x81, false), 0xC0);
    assert_eq!(flags(&cpu), (false, false, false, true));
    assert_eq!(alu8::shift_right(&mut cpu, 0x01, true), 0x00);
    assert_eq!(flags(&cpu), (true, false, false, true));
    assert_eq!(alu8::rotated_left(0x80, false, false).0, 0x01);
    assert_eq!(alu8::rotated_right(0x01, true, false).0, 0x00);
    assert_eq!(alu8::shifted_left(0x40).0, 0x80);
    assert_eq!(alu8::shifted_right(0xFE, false).0, 0xFF);
    assert_eq!(alu8::swapped(0x12).0, 0x21);
}

#[test]
fn increments_keep_the_carry_flag() {
    let mut cpu = machine();
    for carry in [false, true] {
        cpu.registers.set(Register::B, 0x0F);
        cpu.registers.set_flags(Flags { z: true, n: true, h: false, c: carry });
        assert_eq!(alu8::inc_register(&mut cpu, Register::B).unwrap(), 4);
        assert_eq!(cpu.registers.get(Register::B), 0x10);
        assert_eq!(flags(&cpu), (false, false, true, carry));
        cpu.registers.set(Register::B, 0xFF);
        alu8::inc_register(&mut cpu, Register::B).unwrap();
        assert_eq!(cpu.registers.get(Register::B), 0x00);
        assert_eq!(flags(&cpu), (true, false, true, carry));
        alu8::dec_register(&mut cpu, Register::B).unwrap();
        assert_eq!(cpu.registers.get(Register::B), 0xFF);
        assert_eq!(flags(&cpu), (false, true, true, carry));
        cpu.registers.set(Register::B, 0x01);
        alu8::dec_register(&mut cpu, Register::B).unwrap();
        assert_eq!(flags(&cpu), (true, true, false, carry));
    }
    cpu.registers.set(Register::HL, 0xC100);
    cpu.mmap.write(0xC100, 0x7F).unwrap();
    assert_eq!(alu8::inc_mem(&mut cpu).unwrap(), 12);
    assert_eq!(cpu.mmap.read(0xC100).unwrap(), 0x80);
    assert_eq!(alu8::dec_mem(&mut cpu).unwrap(), 12);
    assert_eq!(cpu.mmap.read(0xC100).unwrap(), 0x7F);
    cpu.registers.set(Register::HL, 0xFEA0);
    assert!(matches!(alu8::inc_mem(&mut cpu), Err(GameboyError::Io(_))));
}

#[test]
fn operations_on_register_pairs() {
    let mut cpu = machine();
    assert_eq!(alu16::add(&mut cpu, 0x0FFF, 0x0001), 0x1000);
    assert_eq!(flags(&cpu), (false, false, true, false));
    assert_eq!(alu16::add(&mut cpu, 0xFFFF, 0x0001), 0x0000);
    assert_eq!(flags(&cpu), (true, false, true, true));
    assert_eq!(alu16::add(&mut cpu, 0x8000, 0x8000), 0x0000);
    assert_eq!(flags(&cpu), (true, false, false, true));
    // The addition to HL leaves the zero flag as it is.
    cpu.registers.set_flags(Flags { z: false, n: true, h: false, c: false });
    assert_eq!(alu16::add_hl(&mut cpu, 0x8000, 0x8000), 0x0000);
    assert_eq!(flags(&cpu), (false, false, false, true));
    cpu.registers.set_flags(Flags { z: true, n: true, h: false, c: false });
    assert_eq!(alu16::add_hl(&mut cpu, 0x0001, 0x0001), 0x0002);
    assert_eq!(flags(&cpu), (true, false, false, false));
    assert_eq!(alu16::sum(0x1234, 0x1111).0, 0x2345);
    assert_eq!(alu16::apply(Alu16Op::Add, &mut cpu, 1, 2), 3);
    cpu.registers.set(Register::HL, 0x1000);
    cpu.registers.set(Register::BC, 0x0234);
    assert_eq!(
        alu16::op_registers(Alu16Op::AddHl, &mut cpu, Register::HL, Register::BC).unwrap(),
        8
    );
    assert_eq!(cpu.registers.get(Register::HL), 0x1234);
    cpu.registers.set(Register::DE, 0xFFFF);
    let before = cpu.registers.get(Register::F);
    assert_eq!(alu16::inc_register(&mut cpu, Register::DE).unwrap(), 8);
    assert_eq!(cpu.registers.get(Register::DE), 0x0000);
    assert_eq!(alu16::dec_register(&mut cpu, Register::DE).unwrap(), 8);
    assert_eq!(cpu.registers.get(Register::DE), 0xFFFF);
    assert_eq!(cpu.registers.get(Register::F), before);
}

#[test]
fn operations_between_accumulator_and_operands() {
    // sub A, C; cp A, (HL); add A, 0x10; add SP, 0x02
    let mut cpu = machine_running(&[0x91, 0xBE, 0xC6, 0x10, 0xE8, 0x02]);
    cpu.registers.set(Register::A, 0x20);
    cpu.registers.set(Register::C, 0x05);
    cpu.registers.set(Register::HL, 0xC200);
    cpu.mmap.write(0xC200, 0x1B).unwrap();
    assert_eq!(cpu.execute().unwrap(), 4);
    assert_eq!(cpu.registers.get(Register::A), 0x1B);
    assert_eq!(flags(&cpu), (false, true, true, false));
    assert_eq!(cpu.execute().unwrap(), 8);
    assert_eq!(cpu.registers.get(Register::A), 0x1B);
    assert_eq!(flags(&cpu), (true, true, false, false));
    assert_eq!(cpu.execute().unwrap(), 8);
    assert_eq!(cpu.registers.get(Register::A), 0x2B);
    assert_eq!(cpu.execute().unwrap(), 16);
    assert_eq!(cpu.registers.get(Register::SP), 0xE000);
}

#[test]
fn decimal_adjustment() {
    // 15 + 27 = 42
    let mut cpu = machine_running(&[0x80, 0x27, 0x90, 0x27]);
    cpu.registers.set(Register::A, 0x15);
    cpu.registers.set(Register::B, 0x27);
    cpu.execute().unwrap();
    assert_eq!(cpu.registers.get(Register::A), 0x3C);
    assert_eq!(cpu.execute().unwrap(), 4);
    assert_eq!(cpu.registers.get(Register::A), 0x42);
    // 42 - 27 = 15
    cpu.execute().unwrap();
    cpu.execute().unwrap();
    assert_eq!(cpu.registers.get(Register::A), 0x15);
    let none = Flags { z: false, n: false, h: false, c: false };
    assert_eq!(decimal_adjust(0x9A, none), (0x00, Flags { z: true, c: true, ..none }));
    assert_eq!(decimal_adjust(0x0A, none), (0x10, none));
    assert_eq!(
        decimal_adjust(0x00, Flags { n: true, h: true, c: true, ..none }),
        (0x9A, Flags { n: true, c: true, ..none })
    );
}

#[test]
fn accumulator_and_flag_instructions() {
    // cpl; scf; ccf; ccf; rlca; rra
    let mut cpu = machine_running(&[0x2F, 0x37, 0x3F, 0x3F, 0x07, 0x1F]);
    cpu.registers.set(Register::AF, 0x3500);
    cpu.execute().unwrap();
    assert_eq!(cpu.registers.get(Register::A), 0xCA);
    assert_eq!(flags(&cpu), (false, true, true, false));
    cpu.execute().unwrap();
    assert_eq!(flags(&cpu), (false, false, false, true));
    cpu.execute().unwrap();
    assert_eq!(flags(&cpu), (false, false, false, false));
    cpu.execute().unwrap();
    assert_eq!(flags(&cpu), (false, false, false, true));
    assert_eq!(cpu.execute().unwrap(), 4);
    assert_eq!(cpu.registers.get(Register::A), 0x95);
    assert_eq!(flags(&cpu), (false, false, false, true));
    cpu.execute().unwrap();
    assert_eq!(cpu.registers.get(Register::A), 0xCA);
    assert_eq!(flags(&cpu), (false, false, false, true));
}

#[test]
fn bit_instructions() {
    // bit 7, H; set 0, (HL); res 7, (HL); bit 0, (HL); srl B; rl C
    let mut cpu = machine_running(&[
        0xCB, 0x7C, 0xCB, 0xC6, 0xCB, 0xBE, 0xCB, 0x46, 0xCB, 0x38, 0xCB, 0x11,
    ]);
    cpu.registers.set(Register::HL, 0xC300);
    cpu.registers.set(Register::F, 0x10);
    cpu.mmap.write(0xC300, 0x80).unwrap();
    assert_eq!(cpu.execute().unwrap(), 8);
    assert_eq!(flags(&cpu), (false, false, true, true));
    assert_eq!(cpu.execute().unwrap(), 16);
    assert_eq!(cpu.mmap.read(0xC300).unwrap(), 0x81);
    assert_eq!(cpu.execute().unwrap(), 16);
    assert_eq!(cpu.mmap.read(0xC300).unwrap(), 0x01);
    assert_eq!(flags(&cpu), (false, false, true, true));
    assert_eq!(cpu.execute().unwrap(), 12);
    assert_eq!(flags(&cpu), (false, false, true, true));
    cpu.registers.set(Register::B, 0x01);
    cpu.execute().unwrap();
    assert_eq!(cpu.registers.get(Register::B), 0x00);
    assert_eq!(flags(&cpu), (true, false, false, true));
    cpu.registers.set(Register::C, 0x80);
    cpu.execute().unwrap();
    assert_eq!(cpu.registers.get(Register::C), 0x01);
    assert_eq!(flags(&cpu), (false, false, false, true));
    let none = Flags { z: false, n: false, h: false, c: false };
    assert_eq!(byte_op(ByteOp::ResetBit(3), none, 0xFF), (0xF7, none));
    assert_eq!(byte_op(ByteOp::SetBit(3), none, 0x00), (0x08, none));
    assert_eq!(byte_op(ByteOp::TestBit(3), none, 0x08).1, Flags { h: true, ..none });
    assert_eq!(byte_op(ByteOp::TestBit(3), none, 0xF7).1, Flags { z: true, h: true, ..none });
    assert_eq!(byte_op(ByteOp::Sra, none, 0x80).0, 0xC0);
    assert_eq!(byte_op(ByteOp::Swap, none, 0x0F).0, 0xF0);
    assert_eq!(opcode_cb80(&mut cpu).unwrap(), 8);
}

#[test]
fn loads_and_stores() {
    // ld HL, 0xC400; ld (HL+), A; ld (HL-), A; ld A, (HL+); ld (nn), SP; ld (n), A; ld A, (C)
    let mut cpu = machine_running(&[
        0x21, 0x00, 0xC4, 0x22, 0x32, 0x2A, 0x08, 0x10, 0xC4, 0xE0, 0x80, 0xF2, 0x36, 0x99, 0xFA,
        0x01, 0xC4, 0xF9, 0x40, 0x66,
    ]);
    cpu.registers.set(Register::A, 0x5A);
    assert_eq!(cpu.execute().unwrap(), 12);
    assert_eq!(cpu.registers.get(Register::HL), 0xC400);
    assert_eq!(cpu.execute().unwrap(), 8);
    assert_eq!(cpu.registers.get(Register::HL), 0xC401);
    cpu.registers.set(Register::A, 0xA5);
    cpu.execute().unwrap();
    assert_eq!(cpu.registers.get(Register::HL), 0xC400);
    assert_eq!(cpu.mmap.read(0xC401).unwrap(), 0xA5);
    cpu.execute().unwrap();
    assert_eq!(cpu.registers.get(Register::A), 0x5A);
    assert_eq!(cpu.execute().unwrap(), 20);
    assert_eq!(cpu.mmap.read(0xC410).unwrap(), 0xFE);
    assert_eq!(cpu.mmap.read(0xC411).unwrap(), 0xDF);
    assert_eq!(cpu.execute().unwrap(), 12);
    assert_eq!(cpu.mmap.read(0xFF80).unwrap(), 0x5A);
    cpu.registers.set(Register::C, 0x80);
    cpu.registers.set(Register::A, 0);
    assert_eq!(cpu.execute().unwrap(), 8);
    assert_eq!(cpu.registers.get(Register::A), 0x5A);
    assert_eq!(cpu.execute().unwrap(), 12);
    assert_eq!(cpu.mmap.read(0xC401).unwrap(), 0x99);
    assert_eq!(cpu.execute().unwrap(), 16);
    assert_eq!(cpu.registers.get(Register::A), 0x99);
    assert_eq!(cpu.execute().unwrap(), 8);
    assert_eq!(cpu.registers.get(Register::SP), 0xC401);
    assert_eq!(cpu.execute().unwrap(), 4);
    assert_eq!(cpu.execute().unwrap(), 8);
    assert_eq!(cpu.registers.get(Register::H), 0x99);
}

#[test]
fn jumps_calls_and_returns() {
    // jr +2; (skipped); call 0xC010; ...; at 0xC010: ret NZ; ret
    let mut program = vec![0_u8; 0x20];
    program[0..2].copy_from_slice(&[0x18, 0x02]);
    program[4..7].copy_from_slice(&[0xCD, 0x10, 0xC0]);
    program[7..9].copy_from_slice(&[0x20, 0xF7]);
    program[0x10..0x12].copy_from_slice(&[0xC0, 0xC9]);
    let mut cpu = machine_running(&program);
    assert_eq!(cpu.execute().unwrap(), 8);
    assert_eq!(cpu.registers.get(Register::PC), 0xC004);
    assert_eq!(cpu.execute().unwrap(), 12);
    assert_eq!(cpu.registers.get(Register::PC), 0xC010);
    assert_eq!(cpu.registers.get(Register::SP), 0xDFFC);
    cpu.registers.set_flag(Flag::Z, true);
    assert_eq!(cpu.execute().unwrap(), 8);
    assert_eq!(cpu.registers.get(Register::PC), 0xC011);
    assert_eq!(cpu.execute().unwrap(), 8);
    assert_eq!(cpu.registers.get(Register::PC), 0xC007);
    assert_eq!(cpu.registers.get(Register::SP), 0xDFFE);
    // jr NZ, -9 is not taken while the zero flag is set, and taken when it is clear.
    cpu.execute().unwrap();
    assert_eq!(cpu.registers.get(Register::PC), 0xC009);
    cpu.registers.set(Register::PC, 0xC007);
    cpu.registers.set_flag(Flag::Z, false);
    cpu.execute().unwrap();
    assert_eq!(cpu.registers.get(Register::PC), 0xC000);
    assert_eq!(offset(0x0001, -2), 0xFFFF);
    assert_eq!(offset(0xFFFF, 2), 0x0001);
}

#[test]
fn restarts_and_interrupt_returns() {
    // rst 0x28; ...; jp (HL); reti
    let mut cpu = machine_running(&[0xEF, 0xE9, 0xD9]);
    assert_eq!(cpu.execute().unwrap(), 16);
    assert_eq!(cpu.registers.get(Register::PC), 0x0028);
    assert_eq!(cpu.registers.get(Register::SP), 0xDFFC);
    cpu.registers.set(Register::PC, 0xC001);
    cpu.registers.set(Register::HL, 0xC002);
    assert_eq!(cpu.execute().unwrap(), 4);
    assert_eq!(cpu.registers.get(Register::PC), 0xC002);
    assert_eq!(cpu.execute().unwrap(), 8);
    assert_eq!(cpu.registers.get(Register::PC), 0xC001);
    assert!(cpu.registers.ime());
    cpu.registers.set(Register::SP, 0xDFFE);
    assert_eq!(enter_interrupt(&mut cpu, 0x48).unwrap(), 24);
    assert_eq!(cpu.registers.get(Register::PC), 0x0048);
    assert!(!cpu.registers.ime());
}

#[test]
fn handlers_are_reached_by_name() {
    let mut cpu = machine_running(&[]);
    assert_eq!(opcode_00(&mut cpu).unwrap(), 4);
    cpu.registers.set(Register::A, 1);
    cpu.registers.set(Register::B, 2);
    assert_eq!(opcode_80(&mut cpu).unwrap(), 4);
    assert_eq!(cpu.registers.get(Register::A), 3);
}

#[test]
fn a_step_advances_the_peripherals() {
    let mut cpu = machine_running(&[0x00; 64]);
    let before = cpu.mmap.read(0xFF04).unwrap();
    let mut elapsed = 0;
    while elapsed < 0x100 {
        elapsed += cpu.execute().unwrap();
    }
    assert_eq!(cpu.mmap.read(0xFF04).unwrap(), before.wrapping_add(1));
    assert_eq!(cpu.mmap.read(0xFF41).unwrap() & 3, 0);
}

#[test]
fn keys_reach_the_joypad() {
    let mut cpu = machine_running(&[0x00]);
    cpu.mmap.write(0xFFFF, 0x10).unwrap();
    cpu.up(Key::Start);
    cpu.up(Key::A);
    cpu.mmap.write(0xFF00, 0x10).unwrap();
    assert_eq!(cpu.mmap.read(0xFF00).unwrap() & 0x0F, 0x09);
    cpu.down(Key::Start);
    assert_eq!(cpu.mmap.read(0xFF00).unwrap() & 0x0F, 0x01);
    cpu.execute().unwrap();
    assert_eq!(cpu.mmap.read(0xFF0F).unwrap(), 0x10);
}

#[test]
fn a_line_is_drawn() {
    let mut cpu = machine();
    // Tile 0, first row: color index 1 in every column. Tile 1, first row: index 2.
    cpu.mmap.write(0x8000, 0xFF).unwrap();
    cpu.mmap.write(0x8011, 0xFF).unwrap();
    // One object at the column 10 of the first line, with the first object palette.
    cpu.mmap.write(0xFE00, 16).unwrap();
    cpu.mmap.write(0xFE01, 18).unwrap();
    cpu.mmap.write(0xFE02, 1).unwrap();
    cpu.mmap.write(0xFE03, 0).unwrap();
    cpu.mmap.write(0xFF48, 0xE4).unwrap();
    cpu.mmap.write(0xFF40, 0x93).unwrap();
    cpu.mmap.process(80 + 172);
    cpu.mmap.process(456);
    let mut frame = vec![0_u32; 160 * 144];
    cpu.flush(&mut frame);
    for x in 0..160 {
        let expected = if (10..18).contains(&x) { 0x346856 } else { 0x081820 };
        assert_eq!(frame[x], expected, "column {}", x);
        // The second row of the tile is empty: color index 0, the lightest shade.
        assert_eq!(frame[160 + x], 0xe0f8d0);
    }
    assert!(frame[320..].iter().all(|pixel| *pixel == 0));
}

#[test]
fn objects_behind_the_background() {
    let mut cpu = machine();
    cpu.mmap.write(0x8011, 0xFF).unwrap();
    cpu.mmap.write(0xFE00, 16).unwrap();
    cpu.mmap.write(0xFE01, 8).unwrap();
    cpu.mmap.write(0xFE02, 1).unwrap();
    cpu.mmap.write(0xFE03, 0x80).unwrap();
    cpu.mmap.write(0xFF48, 0xE4).unwrap();
    // With the background off the line is cleared to the darkest color, on which
    // an object behind the background shows.
    cpu.mmap.write(0xFF40, 0x92).unwrap();
    cpu.mmap.process(80 + 172);
    let mut frame = vec![0_u32; 160 * 144];
    cpu.flush(&mut frame);
    assert_eq!(frame[0], 0x346856);
    assert_eq!(frame[8], 0x081820);
    // With the background on, its lightest shade hides the object.
    let mut cpu = machine();
    cpu.mmap.write(0x8011, 0xFF).unwrap();
    cpu.mmap.write(0xFE00, 16).unwrap();
    cpu.mmap.write(0xFE01, 8).unwrap();
    cpu.mmap.write(0xFE02, 1).unwrap();
    cpu.mmap.write(0xFE03, 0x80).unwrap();
    cpu.mmap.write(0xFF40, 0x93).unwrap();
    cpu.mmap.process(80 + 172);
    cpu.flush(&mut frame);
    assert_eq!(frame[0], 0xe0f8d0);
}

#[test]
fn the_window_covers_the_background() {
    let mut cpu = machine();
    // Tile 1 is full of color index 3; the window map at 0x1C00 shows it.
    for row in 0..16 {
        cpu.mmap.write(0x8010 + row, 0xFF).unwrap();
    }
    for cell in 0..0x400 {
        cpu.mmap.write(0x9C00 + cell, 1).unwrap();
    }
    cpu.mmap.write(0xFF47, 0xE4).unwrap();
    cpu.mmap.write(0xFF4A, 1).unwrap();
    cpu.mmap.write(0xFF4B, 7 + 80).unwrap();
    cpu.mmap.write(0xFF40, 0xF1).unwrap();
    cpu.mmap.process(456 + 80 + 172);
    let mut frame = vec![0_u32; 160 * 144];
    cpu.flush(&mut frame);
    // The window starts on the second line, at the column 80.
    assert!(frame[0..160].iter().all(|pixel| *pixel == 0xe0f8d0));
    assert!(frame[160..240].iter().all(|pixel| *pixel == 0xe0f8d0));
    assert!(frame[240..320].iter().all(|pixel| *pixel == 0x081820));
}
