//! The instructions of the processor: what each does to the machine, and
//! one handler per opcode.

use vstd::prelude::*;
use crate::cpu::alu::alu16::Alu16Op;
use crate::cpu::alu::alu8::Alu8Op;
use crate::cpu::alu::{alu16, alu8};
use crate::cpu::decode::{spec_extended, spec_primary};
use crate::cpu::state::{get_type, is_byte, Flag, Flags, Register, RegisterType};
use crate::cpu::{Cpu, CpuView};
use crate::GameboyError;

verus! {

/// What an instruction returns: the number of cycles it took, or why it
/// could not run.
pub type InsnResult = Result<usize, GameboyError>;

/// The address `address` moved by `by`, modulo 65536.
pub open spec fn offset_address(address: u16, by: int) -> u16 {
    ((address + by) % 0x1_0000) as u16
}

/// The signed value of a displacement byte.
pub open spec fn displacement(byte: u8) -> int {
    if byte >= 128 {
        byte - 256
    } else {
        byte as int
    }
}

/// The state after the byte that follows the opcode was loaded into a byte
/// register, and the eight cycles it takes.
#[verifier::opaque]
pub open spec fn spec_load_imm8_to_register(cpu: CpuView, reg: Register) -> (CpuView, InsnResult) {
    match cpu.fetch8().1 {
        Err(error) => (cpu.fetch8().0, Err(error)),
        Ok(value) => (cpu.fetch8().0.with_register(reg, value as u16), Ok(8)),
    }
}

/// The state after the word that follows the opcode was loaded into a
/// register pair, and the twelve cycles it takes.
#[verifier::opaque]
pub open spec fn spec_load_imm16_to_register(cpu: CpuView, reg: Register) -> (
    CpuView,
    InsnResult,
) {
    match cpu.fetch16().1 {
        Err(error) => (cpu.fetch16().0, Err(error)),
        Ok(value) => (cpu.fetch16().0.with_register(reg, value), Ok(12)),
    }
}

/// The state after `src` was copied to `dst`, and the cycles it takes: four
/// for a byte, eight for a pair.
#[verifier::opaque]
pub open spec fn spec_move_registers(cpu: CpuView, dst: Register, src: Register) -> (
    CpuView,
    InsnResult,
) {
    (
        cpu.with_register(dst, cpu.register(src)),
        Ok(
            if is_byte(dst) {
                4
            } else {
                8
            },
        ),
    )
}

/// The state after the byte that the pair `mem` addresses was loaded into
/// `reg`, and the eight cycles it takes.
#[verifier::opaque]
pub open spec fn spec_load_mem_to_register(cpu: CpuView, reg: Register, mem: Register) -> (
    CpuView,
    InsnResult,
) {
    match cpu.read(cpu.register(mem)) {
        Err(error) => (cpu, Err(error)),
        Ok(value) => (cpu.with_register(reg, value as u16), Ok(8)),
    }
}

/// The state after `value` was stored at `address`, and `cycles` cycles if
/// the store went through.
#[verifier::opaque]
pub open spec fn spec_store(cpu: CpuView, address: u16, value: u8, cycles: usize) -> (
    CpuView,
    InsnResult,
) {
    match cpu.write(address, value).1 {
        Err(error) => (cpu.write(address, value).0, Err(error)),
        Ok(_) => (cpu.write(address, value).0, Ok(cycles)),
    }
}

/// The state after the byte register `reg` was stored where the pair `mem`
/// points, and the eight cycles it takes.
#[verifier::opaque]
pub open spec fn spec_store_register_into_mem(cpu: CpuView, mem: Register, reg: Register) -> (
    CpuView,
    InsnResult,
) {
    spec_store(cpu, cpu.register(mem), cpu.register(reg) as u8, 8)
}

/// The state after `value` was pushed: the stack pointer moves down by two,
/// the high byte goes right below the old stack pointer and the low byte
/// below it.
pub open spec fn spec_push(cpu: CpuView, value: u16) -> (CpuView, Result<(), GameboyError>) {
    let sp = cpu.register(Register::SP);
    let moved = cpu.with_register(Register::SP, offset_address(sp, -2));
    match moved.write(offset_address(sp, -1), (value / 256) as u8).1 {
        Err(error) => (moved.write(offset_address(sp, -1), (value / 256) as u8).0, Err(error)),
        Ok(_) => moved.write(offset_address(sp, -1), (value / 256) as u8).0.write(
            offset_address(sp, -2),
            (value % 256) as u8,
        ),
    }
}

/// The state after the pair `reg` was pushed, and the sixteen cycles it
/// takes.
#[verifier::opaque]
pub open spec fn spec_push_nn(cpu: CpuView, reg: Register) -> (CpuView, InsnResult) {
    match spec_push(cpu, cpu.register(reg)).1 {
        Err(error) => (spec_push(cpu, cpu.register(reg)).0, Err(error)),
        Ok(_) => (spec_push(cpu, cpu.register(reg)).0, Ok(16)),
    }
}

/// The word on top of the stack: the low byte at the stack pointer, the
/// high byte above it.
pub open spec fn spec_stack_top(cpu: CpuView) -> Result<u16, GameboyError> {
    let sp = cpu.register(Register::SP);
    match cpu.read(sp) {
        Err(error) => Err(error),
        Ok(low) => match cpu.read(offset_address(sp, 1)) {
            Err(error) => Err(error),
            Ok(high) => Ok((high * 256 + low) as u16),
        },
    }
}

/// The state after the word on top of the stack was popped into the pair
/// `reg`, and the twelve cycles it takes: the stack pointer moves up by
/// two.
#[verifier::opaque]
pub open spec fn spec_pop_nn(cpu: CpuView, reg: Register) -> (CpuView, InsnResult) {
    match spec_stack_top(cpu) {
        Err(error) => (cpu, Err(error)),
        Ok(value) => (
            cpu.with_register(reg, value).with_register(
                Register::SP,
                offset_address(cpu.register(Register::SP), 2),
            ),
            Ok(12),
        ),
    }
}

/// The state after a relative jump that is taken if `taken` holds, and the
/// eight cycles it takes: the displacement byte that follows the opcode is
/// added to the program counter that follows it.
#[verifier::opaque]
pub open spec fn spec_jump_relative_if(cpu: CpuView, taken: bool) -> (CpuView, InsnResult) {
    match cpu.fetch8().1 {
        Err(error) => (cpu.fetch8().0, Err(error)),
        Ok(byte) => {
            let fetched = cpu.fetch8().0;
            (
                if taken {
                    fetched.with_register(
                        Register::PC,
                        offset_address(fetched.register(Register::PC), displacement(byte)),
                    )
                } else {
                    fetched
                },
                Ok(8),
            )
        },
    }
}

/// The state after a relative jump.
#[verifier::opaque]
pub open spec fn spec_jump_relative(cpu: CpuView) -> (CpuView, InsnResult) {
    spec_jump_relative_if(cpu, true)
}

/// The state after a relative jump that is taken if `flag` is
/// `expected_state`.
#[verifier::opaque]
pub open spec fn spec_jump_relative_conditional(cpu: CpuView, flag: Flag, expected_state: bool) -> (
    CpuView,
    InsnResult,
) {
    spec_jump_relative_if(cpu, cpu.flags().spec_get(flag) == expected_state)
}

/// The state after a jump to the word that follows the opcode, taken if
/// `taken` holds, and the twelve cycles it takes.
#[verifier::opaque]
pub open spec fn spec_jump_if(cpu: CpuView, taken: bool) -> (CpuView, InsnResult) {
    match cpu.fetch16().1 {
        Err(error) => (cpu.fetch16().0, Err(error)),
        Ok(target) => (
            if taken {
                cpu.fetch16().0.with_register(Register::PC, target)
            } else {
                cpu.fetch16().0
            },
            Ok(12),
        ),
    }
}

/// The state after a jump that is taken if `flag` is `expected_state`.
#[verifier::opaque]
pub open spec fn spec_jump_conditional(cpu: CpuView, flag: Flag, expected_state: bool) -> (
    CpuView,
    InsnResult,
) {
    spec_jump_if(cpu, cpu.flags().spec_get(flag) == expected_state)
}

/// The state after a call of the word that follows the opcode, made if
/// `taken` holds, and the twelve cycles it takes: the address of the next
/// instruction is pushed before the jump.
#[verifier::opaque]
pub open spec fn spec_call_if(cpu: CpuView, taken: bool) -> (CpuView, InsnResult) {
    match cpu.fetch16().1 {
        Err(error) => (cpu.fetch16().0, Err(error)),
        Ok(target) => {
            let fetched = cpu.fetch16().0;
            if taken {
                match spec_push(fetched, fetched.register(Register::PC)).1 {
                    Err(error) => (
                        spec_push(fetched, fetched.register(Register::PC)).0,
                        Err(error),
                    ),
                    Ok(_) => (
                        spec_push(fetched, fetched.register(Register::PC)).0.with_register(
                            Register::PC,
                            target,
                        ),
                        Ok(12),
                    ),
                }
            } else {
                (fetched, Ok(12))
            }
        },
    }
}

/// The state after a call that is made if `flag` is `expected_state`.
#[verifier::opaque]
pub open spec fn spec_call_conditional(cpu: CpuView, flag: Flag, expected_state: bool) -> (
    CpuView,
    InsnResult,
) {
    spec_call_if(cpu, cpu.flags().spec_get(flag) == expected_state)
}

/// The state after a return that is made if `taken` holds, and the eight
/// cycles it takes: the program counter is popped.
#[verifier::opaque]
pub open spec fn spec_ret_if(cpu: CpuView, taken: bool) -> (CpuView, InsnResult) {
    if taken {
        match spec_pop_nn(cpu, Register::PC).1 {
            Err(error) => (spec_pop_nn(cpu, Register::PC).0, Err(error)),
            Ok(_) => (spec_pop_nn(cpu, Register::PC).0, Ok(8)),
        }
    } else {
        (cpu, Ok(8))
    }
}

/// The state after a return that is made if `flag` is `expected_state`.
#[verifier::opaque]
pub open spec fn spec_ret_conditional(cpu: CpuView, flag: Flag, expected_state: bool) -> (
    CpuView,
    InsnResult,
) {
    spec_ret_if(cpu, cpu.flags().spec_get(flag) == expected_state)
}

/// The state after a call of the fixed address `target`, and the sixteen
/// cycles it takes.
#[verifier::opaque]
pub open spec fn spec_restart(cpu: CpuView, target: u16) -> (CpuView, InsnResult) {
    match spec_push(cpu, cpu.register(Register::PC)).1 {
        Err(error) => (spec_push(cpu, cpu.register(Register::PC)).0, Err(error)),
        Ok(_) => (
            spec_push(cpu, cpu.register(Register::PC)).0.with_register(Register::PC, target),
            Ok(16),
        ),
    }
}

/// The state after the processor entered the interrupt routine at
/// `int_vector`, and the twenty-four cycles it takes: the program counter
/// is pushed, the interrupts are disabled, and the routine is jumped to.
#[verifier::opaque]
pub open spec fn spec_enter_interrupt(cpu: CpuView, int_vector: u16) -> (CpuView, InsnResult) {
    match spec_push(cpu, cpu.register(Register::PC)).1 {
        Err(error) => (spec_push(cpu, cpu.register(Register::PC)).0, Err(error)),
        Ok(_) => {
            let pushed = spec_push(cpu, cpu.register(Register::PC)).0;
            (
                CpuView {
                    registers: crate::cpu::state::CpuState {
                        ime: false,
                        ..pushed.registers
                    }.spec_set(Register::PC, int_vector),
                    ..pushed
                },
                Ok(24),
            )
        },
    }
}

/// The byte with bit `bit` cleared.
pub open spec fn spec_reset_bit(value: u8, bit: u8) -> u8 {
    value & !(1u8 << bit)
}

/// The byte with bit `bit` set.
pub open spec fn spec_set_bit(value: u8, bit: u8) -> u8 {
    value | (1u8 << bit)
}

/// Whether bit `bit` of the byte is set.
pub open spec fn spec_test_bit(value: u8, bit: u8) -> bool {
    value & (1u8 << bit) != 0
}

/// The operations of the extended table on one byte.
#[derive(PartialEq, Eq, Structural, Clone, Copy, Debug)]
pub enum ByteOp {
    /// Rotate left; bit 7 goes to bit 0 and to the carry flag.
    Rlc,
    /// Rotate right; bit 0 goes to bit 7 and to the carry flag.
    Rrc,
    /// Rotate left through the carry flag.
    Rl,
    /// Rotate right through the carry flag.
    Rr,
    /// Shift left.
    Sla,
    /// Shift right, keeping bit 7.
    Sra,
    /// Exchange the nibbles.
    Swap,
    /// Shift right, clearing bit 7.
    Srl,
    /// Test a bit: the zero flag tells that it is clear.
    TestBit(u8),
    /// Clear a bit.
    ResetBit(u8),
    /// Set a bit.
    SetBit(u8),
}

/// The byte and the flags that `op` makes of `value` and of the flags
/// before it. A bit test keeps the byte and the carry flag; clearing and
/// setting a bit keep the flags.
pub open spec fn spec_byte_op(op: ByteOp, flags: Flags, value: u8) -> (u8, Flags) {
    match op {
        ByteOp::Rlc => alu8::spec_rotate_left(value, false, flags.c),
        ByteOp::Rrc => alu8::spec_rotate_right(value, false, flags.c),
        ByteOp::Rl => alu8::spec_rotate_left(value, true, flags.c),
        ByteOp::Rr => alu8::spec_rotate_right(value, true, flags.c),
        ByteOp::Sla => alu8::spec_shift_left(value),
        ByteOp::Sra => alu8::spec_shift_right(value, false),
        ByteOp::Swap => alu8::spec_swap(value),
        ByteOp::Srl => alu8::spec_shift_right(value, true),
        ByteOp::TestBit(bit) => (value, Flags {
            z: !spec_test_bit(value, bit),
            n: false,
            h: true,
            c: flags.c,
        }),
        ByteOp::ResetBit(bit) => (spec_reset_bit(value, bit), flags),
        ByteOp::SetBit(bit) => (spec_set_bit(value, bit), flags),
    }
}

/// Whether `op` names a bit that a byte has.
pub open spec fn byte_op_valid(op: ByteOp) -> bool {
    match op {
        ByteOp::TestBit(bit) => bit < 8,
        ByteOp::ResetBit(bit) => bit < 8,
        ByteOp::SetBit(bit) => bit < 8,
        _ => true,
    }
}

/// The state after `op` ran on the byte register `reg`, and the eight
/// cycles it takes.
#[verifier::opaque]
pub open spec fn spec_register_op(cpu: CpuView, op: ByteOp, reg: Register) -> (
    CpuView,
    InsnResult,
) {
    let outcome = spec_byte_op(op, cpu.flags(), cpu.register(reg) as u8);
    (
        match op {
            ByteOp::TestBit(_) => cpu.with_flags(outcome.1),
            ByteOp::ResetBit(_) => cpu.with_register(reg, outcome.0 as u16),
            ByteOp::SetBit(_) => cpu.with_register(reg, outcome.0 as u16),
            _ => cpu.with_register(reg, outcome.0 as u16).with_flags(outcome.1),
        },
        Ok(8),
    )
}

/// The state after `op` ran on the byte that `HL` addresses, and the cycles
/// it takes: twelve for a bit test, which writes nothing, else sixteen. The
/// flags change once the byte is written.
#[verifier::opaque]
pub open spec fn spec_memory_op(cpu: CpuView, op: ByteOp) -> (CpuView, InsnResult) {
    let address = cpu.register(Register::HL);
    match cpu.read(address) {
        Err(error) => (cpu, Err(error)),
        Ok(value) => {
            let outcome = spec_byte_op(op, cpu.flags(), value);
            match op {
                ByteOp::TestBit(_) => (cpu.with_flags(outcome.1), Ok(12)),
                ByteOp::ResetBit(_) => spec_store(cpu, address, outcome.0, 16),
                ByteOp::SetBit(_) => spec_store(cpu, address, outcome.0, 16),
                _ => match cpu.write(address, outcome.0).1 {
                    Err(error) => (cpu.write(address, outcome.0).0, Err(error)),
                    Ok(_) => (cpu.write(address, outcome.0).0.with_flags(outcome.1), Ok(16)),
                },
            }
        },
    }
}

/// The state after bit `bit` of the byte register `reg` was cleared.
pub open spec fn spec_reset_register_bit(cpu: CpuView, reg: Register, bit: u8) -> (
    CpuView,
    InsnResult,
) {
    spec_register_op(cpu, ByteOp::ResetBit(bit), reg)
}

/// The state after bit `bit` of the byte that `HL` addresses was cleared.
pub open spec fn spec_reset_memory_bit(cpu: CpuView, bit: u8) -> (CpuView, InsnResult) {
    spec_memory_op(cpu, ByteOp::ResetBit(bit))
}

/// The state after the accumulator was rotated by one of the four short
/// rotations, and the four cycles it takes: the zero flag is cleared.
#[verifier::opaque]
pub open spec fn spec_rotate_accumulator(cpu: CpuView, op: ByteOp) -> (CpuView, InsnResult) {
    let outcome = spec_byte_op(op, cpu.flags(), cpu.register(Register::A) as u8);
    (
        cpu.with_register(Register::A, outcome.0 as u16).with_flags(
            Flags { z: false, ..outcome.1 },
        ),
        Ok(4),
    )
}

/// The accumulator and the flags after the decimal adjustment: the
/// accumulator holds two decimal digits again after an addition or a
/// subtraction of such numbers.
pub open spec fn spec_decimal_adjust(value: u8, flags: Flags) -> (u8, Flags) {
    let low = flags.h || (!flags.n && value % 16 > 9);
    let high = flags.c || (!flags.n && value > 0x99);
    let adjust = (if low {
        0x06int
    } else {
        0int
    }) + (if high {
        0x60int
    } else {
        0int
    });
    let result = if flags.n {
        ((value - adjust) % 256) as u8
    } else {
        ((value + adjust) % 256) as u8
    };
    (result, Flags { z: result == 0, n: flags.n, h: false, c: high })
}

/// The state after the store of the stack pointer at the word that follows
/// the opcode, low byte first, and the twenty cycles it takes.
#[verifier::opaque]
pub open spec fn spec_store_sp(cpu: CpuView) -> (CpuView, InsnResult) {
    match cpu.fetch16().1 {
        Err(error) => (cpu.fetch16().0, Err(error)),
        Ok(address) => {
            let fetched = cpu.fetch16().0;
            let value = fetched.register(Register::SP);
            match fetched.write(address, (value % 256) as u8).1 {
                Err(error) => (fetched.write(address, (value % 256) as u8).0, Err(error)),
                Ok(_) => spec_store(
                    fetched.write(address, (value % 256) as u8).0,
                    offset_address(address, 1),
                    (value / 256) as u8,
                    20,
                ),
            }
        },
    }
}

/// The state after the accumulator was stored where `HL` points and `HL`
/// moved by `step`, and the eight cycles it takes.
#[verifier::opaque]
pub open spec fn spec_store_and_step(cpu: CpuView, step: int) -> (CpuView, InsnResult) {
    let address = cpu.register(Register::HL);
    match cpu.write(address, cpu.register(Register::A) as u8).1 {
        Err(error) => (cpu.write(address, cpu.register(Register::A) as u8).0, Err(error)),
        Ok(_) => (
            cpu.write(address, cpu.register(Register::A) as u8).0.with_register(
                Register::HL,
                offset_address(address, step),
            ),
            Ok(8),
        ),
    }
}

/// The state after the byte where `HL` points was loaded into the
/// accumulator and `HL` moved by `step`, and the eight cycles it takes.
#[verifier::opaque]
pub open spec fn spec_load_and_step(cpu: CpuView, step: int) -> (CpuView, InsnResult) {
    let address = cpu.register(Register::HL);
    match cpu.read(address) {
        Err(error) => (cpu, Err(error)),
        Ok(value) => (
            cpu.with_register(Register::A, value as u16).with_register(
                Register::HL,
                offset_address(address, step),
            ),
            Ok(8),
        ),
    }
}

/// The state after the byte that follows the opcode was stored where `HL`
/// points, and the twelve cycles it takes.
#[verifier::opaque]
pub open spec fn spec_store_imm(cpu: CpuView) -> (CpuView, InsnResult) {
    match cpu.fetch8().1 {
        Err(error) => (cpu.fetch8().0, Err(error)),
        Ok(value) => spec_store(
            cpu.fetch8().0,
            cpu.fetch8().0.register(Register::HL),
            value,
            12,
        ),
    }
}

/// The address in the last page that the byte `low` names.
pub open spec fn high_page(low: u16) -> u16 {
    (0xFF00 + low % 256) as u16
}

/// The state after the accumulator was stored in the last page at the byte
/// that follows the opcode, and the twelve cycles it takes.
#[verifier::opaque]
pub open spec fn spec_store_high_imm(cpu: CpuView) -> (CpuView, InsnResult) {
    match cpu.fetch8().1 {
        Err(error) => (cpu.fetch8().0, Err(error)),
        Ok(low) => spec_store(
            cpu.fetch8().0,
            high_page(low as u16),
            cpu.fetch8().0.register(Register::A) as u8,
            12,
        ),
    }
}

/// The state after the accumulator was loaded from the last page at the
/// byte that follows the opcode, and the twelve cycles it takes.
#[verifier::opaque]
pub open spec fn spec_load_high_imm(cpu: CpuView) -> (CpuView, InsnResult) {
    match cpu.fetch8().1 {
        Err(error) => (cpu.fetch8().0, Err(error)),
        Ok(low) => match cpu.fetch8().0.read(high_page(low as u16)) {
            Err(error) => (cpu.fetch8().0, Err(error)),
            Ok(value) => (cpu.fetch8().0.with_register(Register::A, value as u16), Ok(12)),
        },
    }
}

/// The state after the accumulator was stored in the last page at the byte
/// that `C` holds, and the eight cycles it takes.
#[verifier::opaque]
pub open spec fn spec_store_high_c(cpu: CpuView) -> (CpuView, InsnResult) {
    spec_store(cpu, high_page(cpu.register(Register::C)), cpu.register(Register::A) as u8, 8)
}

/// The state after the accumulator was loaded from the last page at the
/// byte that `C` holds, and the eight cycles it takes.
#[verifier::opaque]
pub open spec fn spec_load_high_c(cpu: CpuView) -> (CpuView, InsnResult) {
    match cpu.read(high_page(cpu.register(Register::C))) {
        Err(error) => (cpu, Err(error)),
        Ok(value) => (cpu.with_register(Register::A, value as u16), Ok(8)),
    }
}

/// The state after the accumulator was stored at the word that follows the
/// opcode, and the sixteen cycles it takes.
#[verifier::opaque]
pub open spec fn spec_store_absolute(cpu: CpuView) -> (CpuView, InsnResult) {
    match cpu.fetch16().1 {
        Err(error) => (cpu.fetch16().0, Err(error)),
        Ok(address) => spec_store(
            cpu.fetch16().0,
            address,
            cpu.fetch16().0.register(Register::A) as u8,
            16,
        ),
    }
}

/// The state after the accumulator was loaded from the word that follows
/// the opcode, and the sixteen cycles it takes.
#[verifier::opaque]
pub open spec fn spec_load_absolute(cpu: CpuView) -> (CpuView, InsnResult) {
    match cpu.fetch16().1 {
        Err(error) => (cpu.fetch16().0, Err(error)),
        Ok(address) => match cpu.fetch16().0.read(address) {
            Err(error) => (cpu.fetch16().0, Err(error)),
            Ok(value) => (cpu.fetch16().0.with_register(Register::A, value as u16), Ok(16)),
        },
    }
}

/// The state with the interrupts enabled or disabled at once.
pub open spec fn spec_set_ime(cpu: CpuView, enabled: bool) -> CpuView {
    CpuView { registers: crate::cpu::state::CpuState { ime: enabled, ..cpu.registers }, ..cpu }
}

/// The state after `HL` took the sum of the stack pointer and of the byte
/// that follows the opcode, and the twelve cycles it takes: the flags are
/// those of the 16-bit addition, with the zero flag cleared.
#[verifier::opaque]
pub open spec fn spec_load_hl_sp_offset(cpu: CpuView) -> (CpuView, InsnResult) {
    match cpu.fetch8().1 {
        Err(error) => (cpu.fetch8().0, Err(error)),
        Ok(offset) => {
            let fetched = cpu.fetch8().0;
            let outcome = alu16::spec_add(fetched.register(Register::SP), offset as u16);
            (
                fetched.with_register(Register::HL, outcome.0).with_flags(
                    Flags { z: false, ..outcome.1 },
                ),
                Ok(12),
            )
        },
    }
}

/// The state after the accumulator was adjusted to two decimal digits, and
/// the four cycles it takes.
#[verifier::opaque]
pub open spec fn spec_adjust_accumulator(cpu: CpuView) -> (CpuView, InsnResult) {
    let outcome = spec_decimal_adjust(cpu.register(Register::A) as u8, cpu.flags());
    (cpu.with_register(Register::A, outcome.0 as u16).with_flags(outcome.1), Ok(4))
}

/// The state after the accumulator was complemented, and the four cycles
/// it takes: the subtract and half-carry flags are set.
#[verifier::opaque]
pub open spec fn spec_complement(cpu: CpuView) -> (CpuView, InsnResult) {
    (
        cpu.with_register(Register::A, (255 - cpu.register(Register::A)) as u16).with_flags(
            Flags { n: true, h: true, ..cpu.flags() },
        ),
        Ok(4),
    )
}

/// The state after the carry flag was set to `carry`, and the four cycles
/// it takes: the subtract and half-carry flags are cleared.
#[verifier::opaque]
pub open spec fn spec_carry(cpu: CpuView, carry: bool) -> (CpuView, InsnResult) {
    (cpu.with_flags(Flags { n: false, h: false, c: carry, ..cpu.flags() }), Ok(4))
}

/// The state after a return that enables the interrupts, and the eight
/// cycles it takes.
#[verifier::opaque]
pub open spec fn spec_return_from_interrupt(cpu: CpuView) -> (CpuView, InsnResult) {
    match spec_pop_nn(cpu, Register::PC).1 {
        Err(error) => (spec_pop_nn(cpu, Register::PC).0, Err(error)),
        Ok(_) => (spec_set_ime(spec_pop_nn(cpu, Register::PC).0, true), Ok(8)),
    }
}

/// Returns the address `address` moved by `by`, modulo 65536.
pub fn offset(address: u16, by: i32) -> (moved: u16)
    requires
        -0x1_0000 < by < 0x1_0000,
    ensures
        moved == offset_address(address, by as int),
{
    let wide: i32 = address as i32 + 0x1_0000 + by;
    assert((address + by + 0x1_0000) % 0x1_0000 == (address + by) % 0x1_0000) by {
        vstd::arithmetic::div_mod::lemma_mod_add_multiples_vanish(address + by, 0x1_0000);
    }
    (wide % 0x1_0000) as u16
}

/// Stores `value` at `address`, and returns `cycles` if the store went
/// through.
fn store(cpu: &mut Cpu, address: u16, value: u8, cycles: usize) -> (result: InsnResult)
    requires
        old(cpu)@.wf(),
        cycles <= 24,
    ensures
        (final(cpu)@, result) == spec_store(old(cpu)@, address, value, cycles),
        final(cpu)@.wf(),
        result matches Ok(taken) ==> taken <= 24,
{
    proof {
        reveal(spec_store);
    }
    match cpu.mmap.write(address, value) {
        Ok(_) => Ok(cycles),
        Err(error) => Err(error),
    }
}

/// Pushes `value` on the stack.
fn push(cpu: &mut Cpu, value: u16) -> (result: Result<(), GameboyError>)
    requires
        old(cpu)@.wf(),
    ensures
        (final(cpu)@, result) == spec_push(old(cpu)@, value),
        final(cpu)@.wf(),
{
    let sp: u16 = cpu.registers.get(Register::SP);
    cpu.registers.set(Register::SP, offset(sp, -2));
    match cpu.mmap.write(offset(sp, -1), (value / 256) as u8) {
        Ok(_) => {},
        Err(error) => {
            return Err(error);
        },
    }
    cpu.mmap.write(offset(sp, -2), (value % 256) as u8)
}

/// Reads the word on top of the stack.
fn stack_top(cpu: &Cpu) -> (result: Result<u16, GameboyError>)
    requires
        cpu@.wf(),
    ensures
        result == spec_stack_top(cpu@),
{
    let sp: u16 = cpu.registers.get(Register::SP);
    let low = match cpu.mmap.read(sp) {
        Ok(low) => low,
        Err(error) => {
            return Err(error);
        },
    };
    let high = match cpu.mmap.read(offset(sp, 1)) {
        Ok(high) => high,
        Err(error) => {
            return Err(error);
        },
    };
    Ok(high as u16 * 256 + low as u16)
}

/// Loads the byte that follows the opcode into a byte register.
pub fn load_imm8_to_register(cpu: &mut Cpu, reg: Register) -> (result: InsnResult)
    requires
        old(cpu)@.wf(),
        is_byte(reg),
    ensures
        (final(cpu)@, result) == spec_load_imm8_to_register(old(cpu)@, reg),
        final(cpu)@.wf(),
        result matches Ok(cycles) ==> cycles <= 24,
{
    proof {
        reveal(spec_load_imm8_to_register);
    }
    let value: u8 = match cpu.fetch::<u8>() {
        Ok(value) => value,
        Err(error) => {
            return Err(error);
        },
    };
    cpu.registers.set(reg, value as u16);
    Ok(8)
}

/// Loads the word that follows the opcode into a register pair.
pub fn load_imm16_to_register(cpu: &mut Cpu, reg: Register) -> (result: InsnResult)
    requires
        old(cpu)@.wf(),
        !is_byte(reg),
    ensures
        (final(cpu)@, result) == spec_load_imm16_to_register(old(cpu)@, reg),
        final(cpu)@.wf(),
        result matches Ok(cycles) ==> cycles <= 24,
{
    proof {
        reveal(spec_load_imm16_to_register);
    }
    let value: u16 = match cpu.fetch::<u16>() {
        Ok(value) => value,
        Err(error) => {
            return Err(error);
        },
    };
    cpu.registers.set(reg, value);
    Ok(12)
}

/// Copies `src` to `dst`; both are bytes or both are pairs.
pub fn move_registers(cpu: &mut Cpu, dst: Register, src: Register) -> (result: InsnResult)
    requires
        old(cpu)@.wf(),
        is_byte(src) == is_byte(dst),
    ensures
        (final(cpu)@, result) == spec_move_registers(old(cpu)@, dst, src),
        final(cpu)@.wf(),
        result matches Ok(cycles) ==> cycles <= 24,
{
    proof {
        reveal(spec_move_registers);
    }
    let value = cpu.registers.get(src);
    cpu.registers.set(dst, value);
    match get_type(&dst) {
        RegisterType::Wide => Ok(8),
        _ => Ok(4),
    }
}

/// Loads the byte that the pair `mem` addresses into the byte register
/// `reg`.
pub fn load_mem_to_register(cpu: &mut Cpu, reg: Register, mem: Register) -> (result: InsnResult)
    requires
        old(cpu)@.wf(),
        !is_byte(mem),
        is_byte(reg),
    ensures
        (final(cpu)@, result) == spec_load_mem_to_register(old(cpu)@, reg, mem),
        final(cpu)@.wf(),
        result matches Ok(cycles) ==> cycles <= 24,
{
    proof {
        reveal(spec_load_mem_to_register);
    }
    let address = cpu.registers.get(mem);
    let value: u8 = match cpu.mmap.read(address) {
        Ok(value) => value,
        Err(error) => {
            return Err(error);
        },
    };
    cpu.registers.set(reg, value as u16);
    Ok(8)
}

/// Stores the byte register `reg` where the pair `mem` points.
pub fn store_register_into_mem(cpu: &mut Cpu, mem: Register, reg: Register) -> (result:
    InsnResult)
    requires
        old(cpu)@.wf(),
        !is_byte(mem),
        is_byte(reg),
    ensures
        (final(cpu)@, result) == spec_store_register_into_mem(old(cpu)@, mem, reg),
        final(cpu)@.wf(),
        result matches Ok(cycles) ==> cycles <= 24,
{
    proof {
        reveal(spec_store_register_into_mem);
    }
    let value: u8 = cpu.registers.get8(reg);
    let address = cpu.registers.get(mem);
    store(cpu, address, value, 8)
}

/// Pushes a register pair on the stack.
pub fn push_nn(cpu: &mut Cpu, reg: Register) -> (result: InsnResult)
    requires
        old(cpu)@.wf(),
        !is_byte(reg),
    ensures
        (final(cpu)@, result) == spec_push_nn(old(cpu)@, reg),
        final(cpu)@.wf(),
        result matches Ok(cycles) ==> cycles <= 24,
{
    proof {
        reveal(spec_push_nn);
    }
    let value: u16 = cpu.registers.get(reg);
    match push(cpu, value) {
        Ok(_) => Ok(16),
        Err(error) => Err(error),
    }
}

/// Pops a register pair from the stack.
pub fn pop_nn(cpu: &mut Cpu, reg: Register) -> (result: InsnResult)
    requires
        old(cpu)@.wf(),
        !is_byte(reg),
    ensures
        (final(cpu)@, result) == spec_pop_nn(old(cpu)@, reg),
        final(cpu)@.wf(),
        result matches Ok(cycles) ==> cycles <= 24,
{
    proof {
        reveal(spec_pop_nn);
    }
    let address: u16 = cpu.registers.get(Register::SP);
    let value = match stack_top(cpu) {
        Ok(value) => value,
        Err(error) => {
            return Err(error);
        },
    };
    cpu.registers.set(reg, value);
    cpu.registers.set(Register::SP, offset(address, 2));
    Ok(12)
}

/// Jumps by the displacement that follows the opcode, if `taken` holds.
fn jump_relative_if(cpu: &mut Cpu, taken: bool) -> (result: InsnResult)
    requires
        old(cpu)@.wf(),
    ensures
        (final(cpu)@, result) == spec_jump_relative_if(old(cpu)@, taken),
        final(cpu)@.wf(),
        result matches Ok(cycles) ==> cycles <= 24,
{
    proof {
        reveal(spec_jump_relative_if);
    }
    let byte: u8 = match cpu.fetch::<u8>() {
        Ok(byte) => byte,
        Err(error) => {
            return Err(error);
        },
    };
    let by: i32 = if byte >= 128 {
        byte as i32 - 256
    } else {
        byte as i32
    };
    let address: u16 = cpu.registers.get(Register::PC);
    if taken {
        cpu.registers.set(Register::PC, offset(address, by));
    }
    Ok(8)
}

/// Jumps by the displacement that follows the opcode.
pub fn jump_relative(cpu: &mut Cpu) -> (result: InsnResult)
    requires
        old(cpu)@.wf(),
    ensures
        (final(cpu)@, result) == spec_jump_relative(old(cpu)@),
        final(cpu)@.wf(),
        result matches Ok(cycles) ==> cycles <= 24,
{
    proof {
        reveal(spec_jump_relative);
    }
    jump_relative_if(cpu, true)
}

/// Jumps by the displacement that follows the opcode, if `flag` is
/// `expected_state`.
pub fn jump_relative_conditional(cpu: &mut Cpu, flag: Flag, expected_state: bool) -> (result:
    InsnResult)
    requires
        old(cpu)@.wf(),
    ensures
        (final(cpu)@, result) == spec_jump_relative_conditional(old(cpu)@, flag, expected_state),
        final(cpu)@.wf(),
        result matches Ok(cycles) ==> cycles <= 24,
{
    proof {
        reveal(spec_jump_relative_conditional);
    }
    let taken = cpu.registers.flag(flag) == expected_state;
    jump_relative_if(cpu, taken)
}

/// Jumps to the word that follows the opcode, if `taken` holds.
fn jump_if(cpu: &mut Cpu, taken: bool) -> (result: InsnResult)
    requires
        old(cpu)@.wf(),
    ensures
        (final(cpu)@, result) == spec_jump_if(old(cpu)@, taken),
        final(cpu)@.wf(),
        result matches Ok(cycles) ==> cycles <= 24,
{
    proof {
        reveal(spec_jump_if);
    }
    let target: u16 = match cpu.fetch::<u16>() {
        Ok(target) => target,
        Err(error) => {
            return Err(error);
        },
    };
    if taken {
        cpu.registers.set(Register::PC, target);
    }
    Ok(12)
}

/// Jumps to the word that follows the opcode, if `flag` is
/// `expected_state`.
pub fn jump_conditional(cpu: &mut Cpu, flag: Flag, expected_state: bool) -> (result: InsnResult)
    requires
        old(cpu)@.wf(),
    ensures
        (final(cpu)@, result) == spec_jump_conditional(old(cpu)@, flag, expected_state),
        final(cpu)@.wf(),
        result matches Ok(cycles) ==> cycles <= 24,
{
    proof {
        reveal(spec_jump_conditional);
    }
    let taken = cpu.registers.flag(flag) == expected_state;
    jump_if(cpu, taken)
}

/// Calls the word that follows the opcode, if `taken` holds.
fn call_if(cpu: &mut Cpu, taken: bool) -> (result: InsnResult)
    requires
        old(cpu)@.wf(),
    ensures
        (final(cpu)@, result) == spec_call_if(old(cpu)@, taken),
        final(cpu)@.wf(),
        result matches Ok(cycles) ==> cycles <= 24,
{
    proof {
        reveal(spec_call_if);
    }
    let target: u16 = match cpu.fetch::<u16>() {
        Ok(target) => target,
        Err(error) => {
            return Err(error);
        },
    };
    if taken {
        let next = cpu.registers.get(Register::PC);
        match push(cpu, next) {
            Ok(_) => {},
            Err(error) => {
                return Err(error);
            },
        }
        cpu.registers.set(Register::PC, target);
    }
    Ok(12)
}

/// Calls the word that follows the opcode, if `flag` is `expected_state`.
pub fn call_conditional(cpu: &mut Cpu, flag: Flag, expected_state: bool) -> (result: InsnResult)
    requires
        old(cpu)@.wf(),
    ensures
        (final(cpu)@, result) == spec_call_conditional(old(cpu)@, flag, expected_state),
        final(cpu)@.wf(),
        result matches Ok(cycles) ==> cycles <= 24,
{
    proof {
        reveal(spec_call_conditional);
    }
    let taken = cpu.registers.flag(flag) == expected_state;
    call_if(cpu, taken)
}

/// Returns to the address on top of the stack, if `taken` holds.
fn ret_if(cpu: &mut Cpu, taken: bool) -> (result: InsnResult)
    requires
        old(cpu)@.wf(),
    ensures
        (final(cpu)@, result) == spec_ret_if(old(cpu)@, taken),
        final(cpu)@.wf(),
        result matches Ok(cycles) ==> cycles <= 24,
{
    proof {
        reveal(spec_ret_if);
    }
    if taken {
        match pop_nn(cpu, Register::PC) {
            Ok(_) => {},
            Err(error) => {
                return Err(error);
            },
        }
    }
    Ok(8)
}

/// Returns to the address on top of the stack, if `flag` is
/// `expected_state`.
pub fn ret_conditional(cpu: &mut Cpu, flag: Flag, expected_state: bool) -> (result: InsnResult)
    requires
        old(cpu)@.wf(),
    ensures
        (final(cpu)@, result) == spec_ret_conditional(old(cpu)@, flag, expected_state),
        final(cpu)@.wf(),
        result matches Ok(cycles) ==> cycles <= 24,
{
    proof {
        reveal(spec_ret_conditional);
    }
    let taken = cpu.registers.flag(flag) == expected_state;
    ret_if(cpu, taken)
}

/// Calls the fixed address `target`.
pub fn restart(cpu: &mut Cpu, target: u16) -> (result: InsnResult)
    requires
        old(cpu)@.wf(),
    ensures
        (final(cpu)@, result) == spec_restart(old(cpu)@, target),
        final(cpu)@.wf(),
        result matches Ok(cycles) ==> cycles <= 24,
{
    proof {
        reveal(spec_restart);
    }
    let next = cpu.registers.get(Register::PC);
    match push(cpu, next) {
        Ok(_) => {},
        Err(error) => {
            return Err(error);
        },
    }
    cpu.registers.set(Register::PC, target);
    Ok(16)
}

/// Enters the interrupt routine at `int_vector`.
pub fn enter_interrupt(cpu: &mut Cpu, int_vector: u16) -> (result: InsnResult)
    requires
        old(cpu)@.wf(),
        int_vector < 0x100,
    ensures
        (final(cpu)@, result) == spec_enter_interrupt(old(cpu)@, int_vector),
        final(cpu)@.wf(),
        result matches Ok(cycles) ==> cycles <= 24,
{
    proof {
        reveal(spec_enter_interrupt);
    }
    let next = cpu.registers.get(Register::PC);
    match push(cpu, next) {
        Ok(_) => {},
        Err(error) => {
            return Err(error);
        },
    }
    cpu.registers.set_ime(false);
    cpu.registers.set(Register::PC, int_vector);
    Ok(24)
}

/// Runs `op` on `value`, with the flags `flags` before it.
pub fn byte_op(op: ByteOp, flags: Flags, value: u8) -> (outcome: (u8, Flags))
    requires
        byte_op_valid(op),
    ensures
        outcome == spec_byte_op(op, flags, value),
{
    match op {
        ByteOp::Rlc => alu8::rotated_left(value, false, flags.c),
        ByteOp::Rrc => alu8::rotated_right(value, false, flags.c),
        ByteOp::Rl => alu8::rotated_left(value, true, flags.c),
        ByteOp::Rr => alu8::rotated_right(value, true, flags.c),
        ByteOp::Sla => alu8::shifted_left(value),
        ByteOp::Sra => alu8::shifted_right(value, false),
        ByteOp::Swap => alu8::swapped(value),
        ByteOp::Srl => alu8::shifted_right(value, true),
        ByteOp::TestBit(bit) => (value, Flags {
            z: !(value & (1u8 << bit) != 0),
            n: false,
            h: true,
            c: flags.c,
        }),
        ByteOp::ResetBit(bit) => (value & !(1u8 << bit), flags),
        ByteOp::SetBit(bit) => (value | (1u8 << bit), flags),
    }
}

/// Runs `op` on the byte register `reg`.
pub fn register_op(cpu: &mut Cpu, op: ByteOp, reg: Register) -> (result: InsnResult)
    requires
        old(cpu)@.wf(),
        is_byte(reg),
        byte_op_valid(op),
    ensures
        (final(cpu)@, result) == spec_register_op(old(cpu)@, op, reg),
        final(cpu)@.wf(),
        result matches Ok(cycles) ==> cycles <= 24,
{
    proof {
        reveal(spec_register_op);
    }
    let outcome = byte_op(op, cpu.registers.flags(), cpu.registers.get8(reg));
    match op {
        ByteOp::TestBit(_) => {
            cpu.registers.set_flags(outcome.1);
        },
        ByteOp::ResetBit(_) => {
            cpu.registers.set(reg, outcome.0 as u16);
        },
        ByteOp::SetBit(_) => {
            cpu.registers.set(reg, outcome.0 as u16);
        },
        _ => {
            cpu.registers.set(reg, outcome.0 as u16);
            cpu.registers.set_flags(outcome.1);
        },
    }
    Ok(8)
}

/// Runs `op` on the byte that `HL` addresses.
pub fn memory_op(cpu: &mut Cpu, op: ByteOp) -> (result: InsnResult)
    requires
        old(cpu)@.wf(),
        byte_op_valid(op),
    ensures
        (final(cpu)@, result) == spec_memory_op(old(cpu)@, op),
        final(cpu)@.wf(),
        result matches Ok(cycles) ==> cycles <= 24,
{
    proof {
        reveal(spec_memory_op);
    }
    let address = cpu.registers.get(Register::HL);
    let value = match cpu.mmap.read(address) {
        Ok(value) => value,
        Err(error) => {
            return Err(error);
        },
    };
    let outcome = byte_op(op, cpu.registers.flags(), value);
    match op {
        ByteOp::TestBit(_) => {
            cpu.registers.set_flags(outcome.1);
            Ok(12)
        },
        ByteOp::ResetBit(_) => store(cpu, address, outcome.0, 16),
        ByteOp::SetBit(_) => store(cpu, address, outcome.0, 16),
        _ => {
            match cpu.mmap.write(address, outcome.0) {
                Ok(_) => {},
                Err(error) => {
                    return Err(error);
                },
            }
            cpu.registers.set_flags(outcome.1);
            Ok(16)
        },
    }
}

/// Clears bit `bit` of the byte register `reg`.
pub fn reset_register_bit(cpu: &mut Cpu, reg: Register, bit: u8) -> (result: InsnResult)
    requires
        old(cpu)@.wf(),
        is_byte(reg),
        bit < 8,
    ensures
        (final(cpu)@, result) == spec_reset_register_bit(old(cpu)@, reg, bit),
        final(cpu)@.wf(),
        result matches Ok(cycles) ==> cycles <= 24,
{
    register_op(cpu, ByteOp::ResetBit(bit), reg)
}

/// Clears bit `bit` of the byte that `HL` addresses.
pub fn reset_memory_bit(cpu: &mut Cpu, bit: u8) -> (result: InsnResult)
    requires
        old(cpu)@.wf(),
        bit < 8,
    ensures
        (final(cpu)@, result) == spec_reset_memory_bit(old(cpu)@, bit),
        final(cpu)@.wf(),
        result matches Ok(cycles) ==> cycles <= 24,
{
    memory_op(cpu, ByteOp::ResetBit(bit))
}

/// Rotates the accumulator by one of the four short rotations.
pub fn rotate_accumulator(cpu: &mut Cpu, op: ByteOp) -> (result: InsnResult)
    requires
        old(cpu)@.wf(),
        byte_op_valid(op),
    ensures
        (final(cpu)@, result) == spec_rotate_accumulator(old(cpu)@, op),
        final(cpu)@.wf(),
        result matches Ok(cycles) ==> cycles <= 24,
{
    proof {
        reveal(spec_rotate_accumulator);
    }
    let outcome = byte_op(op, cpu.registers.flags(), cpu.registers.get8(Register::A));
    cpu.registers.set(Register::A, outcome.0 as u16);
    cpu.registers.set_flags(Flags { z: false, ..outcome.1 });
    Ok(4)
}

/// Returns the accumulator and the flags after the decimal adjustment.
pub fn decimal_adjust(value: u8, flags: Flags) -> (outcome: (u8, Flags))
    ensures
        outcome == spec_decimal_adjust(value, flags),
{
    let low = flags.h || (!flags.n && value % 16 > 9);
    let high = flags.c || (!flags.n && value > 0x99);
    let low_part: u16 = if low {
        0x06
    } else {
        0
    };
    let high_part: u16 = if high {
        0x60
    } else {
        0
    };
    let adjust: u16 = low_part + high_part;
    let result: u8 = if flags.n {
        assert((value - adjust + 256) % 256 == (value - adjust) % 256) by {
            vstd::arithmetic::div_mod::lemma_mod_add_multiples_vanish(value - adjust, 256);
        }
        ((value as u16 + 256 - adjust) % 256) as u8
    } else {
        ((value as u16 + adjust) % 256) as u8
    };
    (result, Flags { z: result == 0, n: flags.n, h: false, c: high })
}



/// Stores the stack pointer at the word that follows the opcode.
pub fn store_sp(cpu: &mut Cpu) -> (result: InsnResult)
    requires
        old(cpu)@.wf(),
    ensures
        (final(cpu)@, result) == spec_store_sp(old(cpu)@),
        final(cpu)@.wf(),
        result matches Ok(cycles) ==> cycles <= 24,
{
    proof {
        reveal(spec_store_sp);
    }
    let address: u16 = match cpu.fetch::<u16>() {
        Ok(address) => address,
        Err(error) => {
            return Err(error);
        },
    };
    let value = cpu.registers.get(Register::SP);
    match cpu.mmap.write(address, (value % 256) as u8) {
        Ok(_) => {},
        Err(error) => {
            return Err(error);
        },
    }
    store(cpu, offset(address, 1), (value / 256) as u8, 20)
}

/// Stores the accumulator where `HL` points, then moves `HL` up or down by
/// one.
pub fn store_and_step(cpu: &mut Cpu, up: bool) -> (result: InsnResult)
    requires
        old(cpu)@.wf(),
    ensures
        (final(cpu)@, result) == spec_store_and_step(
            old(cpu)@,
            if up {
                1
            } else {
                -1
            },
        ),
        final(cpu)@.wf(),
        result matches Ok(cycles) ==> cycles <= 24,
{
    proof {
        reveal(spec_store_and_step);
    }
    let address = cpu.registers.get(Register::HL);
    let value: u8 = cpu.registers.get8(Register::A);
    match cpu.mmap.write(address, value) {
        Ok(_) => {},
        Err(error) => {
            return Err(error);
        },
    }
    let by: i32 = if up {
        1
    } else {
        -1
    };
    cpu.registers.set(Register::HL, offset(address, by));
    Ok(8)
}

/// Loads the accumulator from where `HL` points, then moves `HL` up or
/// down by one.
pub fn load_and_step(cpu: &mut Cpu, up: bool) -> (result: InsnResult)
    requires
        old(cpu)@.wf(),
    ensures
        (final(cpu)@, result) == spec_load_and_step(
            old(cpu)@,
            if up {
                1
            } else {
                -1
            },
        ),
        final(cpu)@.wf(),
        result matches Ok(cycles) ==> cycles <= 24,
{
    proof {
        reveal(spec_load_and_step);
    }
    let address = cpu.registers.get(Register::HL);
    let value: u8 = match cpu.mmap.read(address) {
        Ok(value) => value,
        Err(error) => {
            return Err(error);
        },
    };
    let by: i32 = if up {
        1
    } else {
        -1
    };
    cpu.registers.set(Register::A, value as u16);
    cpu.registers.set(Register::HL, offset(address, by));
    Ok(8)
}

/// Stores the byte that follows the opcode where `HL` points.
pub fn store_imm(cpu: &mut Cpu) -> (result: InsnResult)
    requires
        old(cpu)@.wf(),
    ensures
        (final(cpu)@, result) == spec_store_imm(old(cpu)@),
        final(cpu)@.wf(),
        result matches Ok(cycles) ==> cycles <= 24,
{
    proof {
        reveal(spec_store_imm);
    }
    let value: u8 = match cpu.fetch::<u8>() {
        Ok(value) => value,
        Err(error) => {
            return Err(error);
        },
    };
    let address = cpu.registers.get(Register::HL);
    store(cpu, address, value, 12)
}

/// Returns the address in the last page that the byte `low` names.
fn high_page_address(low: u16) -> (address: u16)
    ensures
        address == high_page(low),
{
    0xFF00 + low % 256
}

/// Stores the accumulator in the last page at the byte that follows the
/// opcode.
pub fn store_high_imm(cpu: &mut Cpu) -> (result: InsnResult)
    requires
        old(cpu)@.wf(),
    ensures
        (final(cpu)@, result) == spec_store_high_imm(old(cpu)@),
        final(cpu)@.wf(),
        result matches Ok(cycles) ==> cycles <= 24,
{
    proof {
        reveal(spec_store_high_imm);
    }
    let low: u8 = match cpu.fetch::<u8>() {
        Ok(low) => low,
        Err(error) => {
            return Err(error);
        },
    };
    let value: u8 = cpu.registers.get8(Register::A);
    store(cpu, high_page_address(low as u16), value, 12)
}

/// Loads the accumulator from the last page at the byte that follows the
/// opcode.
pub fn load_high_imm(cpu: &mut Cpu) -> (result: InsnResult)
    requires
        old(cpu)@.wf(),
    ensures
        (final(cpu)@, result) == spec_load_high_imm(old(cpu)@),
        final(cpu)@.wf(),
        result matches Ok(cycles) ==> cycles <= 24,
{
    proof {
        reveal(spec_load_high_imm);
    }
    let low: u8 = match cpu.fetch::<u8>() {
        Ok(low) => low,
        Err(error) => {
            return Err(error);
        },
    };
    let value: u8 = match cpu.mmap.read(high_page_address(low as u16)) {
        Ok(value) => value,
        Err(error) => {
            return Err(error);
        },
    };
    cpu.registers.set(Register::A, value as u16);
    Ok(12)
}

/// Stores the accumulator in the last page at the byte that `C` holds.
pub fn store_high_c(cpu: &mut Cpu) -> (result: InsnResult)
    requires
        old(cpu)@.wf(),
    ensures
        (final(cpu)@, result) == spec_store_high_c(old(cpu)@),
        final(cpu)@.wf(),
        result matches Ok(cycles) ==> cycles <= 24,
{
    proof {
        reveal(spec_store_high_c);
    }
    let address = high_page_address(cpu.registers.get(Register::C));
    let value: u8 = cpu.registers.get8(Register::A);
    store(cpu, address, value, 8)
}

/// Loads the accumulator from the last page at the byte that `C` holds.
pub fn load_high_c(cpu: &mut Cpu) -> (result: InsnResult)
    requires
        old(cpu)@.wf(),
    ensures
        (final(cpu)@, result) == spec_load_high_c(old(cpu)@),
        final(cpu)@.wf(),
        result matches Ok(cycles) ==> cycles <= 24,
{
    proof {
        reveal(spec_load_high_c);
    }
    let address = high_page_address(cpu.registers.get(Register::C));
    let value: u8 = match cpu.mmap.read(address) {
        Ok(value) => value,
        Err(error) => {
            return Err(error);
        },
    };
    cpu.registers.set(Register::A, value as u16);
    Ok(8)
}

/// Stores the accumulator at the word that follows the opcode.
pub fn store_absolute(cpu: &mut Cpu) -> (result: InsnResult)
    requires
        old(cpu)@.wf(),
    ensures
        (final(cpu)@, result) == spec_store_absolute(old(cpu)@),
        final(cpu)@.wf(),
        result matches Ok(cycles) ==> cycles <= 24,
{
    proof {
        reveal(spec_store_absolute);
    }
    let address: u16 = match cpu.fetch::<u16>() {
        Ok(address) => address,
        Err(error) => {
            return Err(error);
        },
    };
    let value: u8 = cpu.registers.get8(Register::A);
    store(cpu, address, value, 16)
}

/// Loads the accumulator from the word that follows the opcode.
pub fn load_absolute(cpu: &mut Cpu) -> (result: InsnResult)
    requires
        old(cpu)@.wf(),
    ensures
        (final(cpu)@, result) == spec_load_absolute(old(cpu)@),
        final(cpu)@.wf(),
        result matches Ok(cycles) ==> cycles <= 24,
{
    proof {
        reveal(spec_load_absolute);
    }
    let address: u16 = match cpu.fetch::<u16>() {
        Ok(address) => address,
        Err(error) => {
            return Err(error);
        },
    };
    let value: u8 = match cpu.mmap.read(address) {
        Ok(value) => value,
        Err(error) => {
            return Err(error);
        },
    };
    cpu.registers.set(Register::A, value as u16);
    Ok(16)
}

/// Loads into `HL` the sum of the stack pointer and of the byte that
/// follows the opcode.
pub fn load_hl_sp_offset(cpu: &mut Cpu) -> (result: InsnResult)
    requires
        old(cpu)@.wf(),
    ensures
        (final(cpu)@, result) == spec_load_hl_sp_offset(old(cpu)@),
        final(cpu)@.wf(),
        result matches Ok(cycles) ==> cycles <= 24,
{
    proof {
        reveal(spec_load_hl_sp_offset);
    }
    let by: u16 = match cpu.fetch::<u8>() {
        Ok(byte) => byte as u16,
        Err(error) => {
            return Err(error);
        },
    };
    let sp = cpu.registers.get(Register::SP);
    let outcome = alu16::sum(sp, by);
    cpu.registers.set(Register::HL, outcome.0);
    cpu.registers.set_flags(Flags { z: false, ..outcome.1 });
    Ok(12)
}

/// Adjusts the accumulator to two decimal digits.
pub fn adjust_accumulator(cpu: &mut Cpu) -> (result: InsnResult)
    requires
        old(cpu)@.wf(),
    ensures
        (final(cpu)@, result) == spec_adjust_accumulator(old(cpu)@),
        final(cpu)@.wf(),
        result matches Ok(cycles) ==> cycles <= 24,
{
    proof {
        reveal(spec_adjust_accumulator);
    }
    let outcome = decimal_adjust(cpu.registers.get8(Register::A), cpu.registers.flags());
    cpu.registers.set(Register::A, outcome.0 as u16);
    cpu.registers.set_flags(outcome.1);
    Ok(4)
}

/// Complements the accumulator.
pub fn complement(cpu: &mut Cpu) -> (result: InsnResult)
    requires
        old(cpu)@.wf(),
    ensures
        (final(cpu)@, result) == spec_complement(old(cpu)@),
        final(cpu)@.wf(),
        result matches Ok(cycles) ==> cycles <= 24,
{
    proof {
        reveal(spec_complement);
    }
    let value = cpu.registers.get8(Register::A);
    let flags = cpu.registers.flags();
    cpu.registers.set(Register::A, (255 - value) as u16);
    cpu.registers.set_flags(Flags { n: true, h: true, ..flags });
    Ok(4)
}

/// Sets the carry flag to `carry`.
pub fn set_carry(cpu: &mut Cpu, carry: bool) -> (result: InsnResult)
    requires
        old(cpu)@.wf(),
    ensures
        (final(cpu)@, result) == spec_carry(old(cpu)@, carry),
        final(cpu)@.wf(),
        result matches Ok(cycles) ==> cycles <= 24,
{
    proof {
        reveal(spec_carry);
    }
    let flags = cpu.registers.flags();
    cpu.registers.set_flags(Flags { n: false, h: false, c: carry, ..flags });
    Ok(4)
}

/// Returns to the address on top of the stack and enables the interrupts.
pub fn return_from_interrupt(cpu: &mut Cpu) -> (result: InsnResult)
    requires
        old(cpu)@.wf(),
    ensures
        (final(cpu)@, result) == spec_return_from_interrupt(old(cpu)@),
        final(cpu)@.wf(),
        result matches Ok(cycles) ==> cycles <= 24,
{
    proof {
        reveal(spec_return_from_interrupt);
    }
    match pop_nn(cpu, Register::PC) {
        Ok(_) => {},
        Err(error) => {
            return Err(error);
        },
    }
    cpu.registers.set_ime(true);
    Ok(8)
}

/// nop
pub fn opcode_00(cpu: &mut Cpu) -> (result: InsnResult)
    requires
        old(cpu)@.wf(),
    ensures
        (final(cpu)@, result) == spec_primary(old(cpu)@, 0x00),
        final(cpu)@.wf(),
        result matches Ok(cycles) ==> cycles <= 24,
{
    Ok(4)
}

/// ld BC, nn
pub fn opcode_01(cpu: &mut Cpu) -> (result: InsnResult)
    requires
        old(cpu)@.wf(),
    ensures
        (final(cpu)@, result) == spec_primary(old(cpu)@, 0x01),
        final(cpu)@.wf(),
        result matches Ok(cycles) ==> cycles <= 24,
{
    load_imm16_to_register(cpu, Register::BC)
}

/// ld (BC), A
pub fn opcode_02(cpu: &mut Cpu) -> (result: InsnResult)
    requires
        old(cpu)@.wf(),
    ensures
        (final(cpu)@, result) == spec_primary(old(cpu)@, 0x02),
        final(cpu)@.wf(),
        result matches Ok(cycles) ==> cycles <= 24,
{
    store_register_into_mem(cpu, Register::BC, Register::A)
}

/// inc BC
pub fn opcode_03(cpu: &mut Cpu) -> (result: InsnResult)
    requires
        old(cpu)@.wf(),
    ensures
        (final(cpu)@, result) == spec_primary(old(cpu)@, 0x03),
        final(cpu)@.wf(),
        result matches Ok(cycles) ==> cycles <= 24,
{
    alu16::inc_register(cpu, Register::BC)
}

/// inc B
pub fn opcode_04(cpu: &mut Cpu) -> (result: InsnResult)
    requires
        old(cpu)@.wf(),
    ensures
        (final(cpu)@, result) == spec_primary(old(cpu)@, 0x04),
        final(cpu)@.wf(),
        result matches Ok(cycles) ==> cycles <= 24,
{
    alu8::inc_register(cpu, Register::B)
}

/// dec B
pub fn opcode_05(cpu: &mut Cpu) -> (result: InsnResult)
    requires
        old(cpu)@.wf(),
    ensures
        (final(cpu)@, result) == spec_primary(old(cpu)@, 0x05),
        final(cpu)@.wf(),
        result matches Ok(cycles) ==> cycles <= 24,
{
    alu8::dec_register(cpu, Register::B)
}

/// ld B, n
pub fn opcode_06(cpu: &mut Cpu) -> (result: InsnResult)
    requires
        old(cpu)@.wf(),
    ensures
        (final(cpu)@, result) == spec_primary(old(cpu)@, 0x06),
        final(cpu)@.wf(),
        result matches Ok(cycles) ==> cycles <= 24,
{
    load_imm8_to_register(cpu, Register::B)
}

/// rlca
pub fn opcode_07(cpu: &mut Cpu) -> (result: InsnResult)
    requires
        old(cpu)@.wf(),
    ensures
        (final(cpu)@, result) == spec_primary(old(cpu)@, 0x07),
        final(cpu)@.wf(),
        result matches Ok(cycles) ==> cycles <= 24,
{
    rotate_accumulator(cpu, ByteOp::Rlc)
}

/// ld (nn), SP
pub fn opcode_08(cpu: &mut Cpu) -> (result: InsnResult)
    requires
        old(cpu)@.wf(),
    ensures
        (final(cpu)@, result) == spec_primary(old(cpu)@, 0x08),
        final(cpu)@.wf(),
        result matches Ok(cycles) ==> cycles <= 24,
{
    store_sp(cpu)
}

/// add HL, BC
pub fn opcode_09(cpu: &mut Cpu) -> (result: InsnResult)
    requires
        old(cpu)@.wf(),
    ensures
        (final(cpu)@, result) == spec_primary(old(cpu)@, 0x09),
        final(cpu)@.wf(),
        result matches Ok(cycles) ==> cycles <= 24,
{
    alu16::op_registers(Alu16Op::AddHl, cpu, Register::HL, Register::BC)
}

/// ld A, (BC)
pub fn opcode_0a(cpu: &mut Cpu) -> (result: InsnResult)
    requires
        old(cpu)@.wf(),
    ensures
        (final(cpu)@, result) == spec_primary(old(cpu)@, 0x0a),
        final(cpu)@.wf(),
        result matches Ok(cycles) ==> cycles <= 24,
{
    load_mem_to_register(cpu, Register::A, Register::BC)
}

/// dec BC
pub fn opcode_0b(cpu: &mut Cpu) -> (result: InsnResult)
    requires
        old(cpu)@.wf(),
    ensures
        (final(cpu)@, result) == spec_primary(old(cpu)@, 0x0b),
        final(cpu)@.wf(),
        result matches Ok(cycles) ==> cycles <= 24,
{
    alu16::dec_register(cpu, Register::BC)
}

/// inc C
pub fn opcode_0c(cpu: &mut Cpu) -> (result: InsnResult)
    requires
        old(cpu)@.wf(),
    ensures
        (final(cpu)@, result) == spec_primary(old(cpu)@, 0x0c),
        final(cpu)@.wf(),
        result matches Ok(cycles) ==> cycles <= 24,
{
    alu8::inc_register(cpu, Register::C)
}

/// dec C
pub fn opcode_0d(cpu: &mut Cpu) -> (result: InsnResult)
    requires
        old(cpu)@.wf(),
    ensures
        (final(cpu)@, result) == spec_primary(old(cpu)@, 0x0d),
        final(cpu)@.wf(),
        result matches Ok(cycles) ==> cycles <= 24,
{
    alu8::dec_register(cpu, Register::C)
}

/// ld C, n
pub fn opcode_0e(cpu: &mut Cpu) -> (result: InsnResult)
    requires
        old(cpu)@.wf(),
    ensures
        (final(cpu)@, result) == spec_primary(old(cpu)@, 0x0e),
        final(cpu)@.wf(),
        result matches Ok(cycles) ==> cycles <= 24,
{
    load_imm8_to_register(cpu, Register::C)
}

/// rrca
pub fn opcode_0f(cpu: &mut Cpu) -> (result: InsnResult)
    requires
        old(cpu)@.wf(),
    ensures
        (final(cpu)@, result) == spec_primary(old(cpu)@, 0x0f),
        final(cpu)@.wf(),
        result matches Ok(cycles) ==> cycles <= 24,
{
    rotate_accumulator(cpu, ByteOp::Rrc)
}

/// ld DE, nn
pub fn opcode_11(cpu: &mut Cpu) -> (result: InsnResult)
    requires
        old(cpu)@.wf(),
    ensures
        (final(cpu)@, result) == spec_primary(old(cpu)@, 0x11),
        final(cpu)@.wf(),
        result matches Ok(cycles) ==> cycles <= 24,
{
    load_imm16_to_register(cpu, Register::DE)
}

/// ld (DE), A
pub fn opcode_12(cpu: &mut Cpu) -> (result: InsnResult)
    requires
        old(cpu)@.wf(),
    ensures
        (final(cpu)@, result) == spec_primary(old(cpu)@, 0x12),
        final(cpu)@.wf(),
        result matches Ok(cycles) ==> cycles <= 24,
{
    store_register_into_mem(cpu, Register::DE, Register::A)
}

/// inc DE
pub fn opcode_13(cpu: &mut Cpu) -> (result: InsnResult)
    requires
        old(cpu)@.wf(),
    ensures
        (final(cpu)@, result) == spec_primary(old(cpu)@, 0x13),
        final(cpu)@.wf(),
        result matches Ok(cycles) ==> cycles <= 24,
{
    alu16::inc_register(cpu, Register::DE)
}

/// inc D
pub fn opcode_14(cpu: &mut Cpu) -> (result: InsnResult)
    requires
        old(cpu)@.wf(),
    ensures
        (final(cpu)@, result) == spec_primary(old(cpu)@, 0x14),
        final(cpu)@.wf(),
        result matches Ok(cycles) ==> cycles <= 24,
{
    alu8::inc_register(cpu, Register::D)
}

/// dec D
pub fn opcode_15(cpu: &mut Cpu) -> (result: InsnResult)
    requires
        old(cpu)@.wf(),
    ensures
        (final(cpu)@, result) == spec_primary(old(cpu)@, 0x15),
        final(cpu)@.wf(),
        result matches Ok(cycles) ==> cycles <= 24,
{
    alu8::dec_register(cpu, Register::D)
}

/// ld D, n
pub fn opcode_16(cpu: &mut Cpu) -> (result: InsnResult)
    requires
        old(cpu)@.wf(),
    ensures
        (final(cpu)@, result) == spec_primary(old(cpu)@, 0x16),
        final(cpu)@.wf(),
        result matches Ok(cycles) ==> cycles <= 24,
{
    load_imm8_to_register(cpu, Register::D)
}

/// rla
pub fn opcode_17(cpu: &mut Cpu) -> (result: InsnResult)
    requires
        old(cpu)@.wf(),
    ensures
        (final(cpu)@, result) == spec_primary(old(cpu)@, 0x17),
        final(cpu)@.wf(),
        result matches Ok(cycles) ==> cycles <= 24,
{
    rotate_accumulator(cpu, ByteOp::Rl)
}

/// jr n
pub fn opcode_18(cpu: &mut Cpu) -> (result: InsnResult)
    requires
        old(cpu)@.wf(),
    ensures
        (final(cpu)@, result) == spec_primary(old(cpu)@, 0x18),
        final(cpu)@.wf(),
        result matches Ok(cycles) ==> cycles <= 24,
{
    jump_relative(cpu)
}

/// add HL, DE
pub fn opcode_19(cpu: &mut Cpu) -> (result: InsnResult)
    requires
        old(cpu)@.wf(),
    ensures
        (final(cpu)@, result) == spec_primary(old(cpu)@, 0x19),
        final(cpu)@.wf(),
        result matches Ok(cycles) ==> cycles <= 24,
{
    alu16::op_registers(Alu16Op::AddHl, cpu, Register::HL, Register::DE)
}

/// ld A, (DE)
pub fn opcode_1a(cpu: &mut Cpu) -> (result: InsnResult)
    requires
        old(cpu)@.wf(),
    ensures
        (final(cpu)@, result) == spec_primary(old(cpu)@, 0x1a),
        final(cpu)@.wf(),
        result matches Ok(cycles) ==> cycles <= 24,
{
    load_mem_to_register(cpu, Register::A, Register::DE)
}

/// dec DE
pub fn opcode_1b(cpu: &mut Cpu) -> (result: InsnResult)
    requires
        old(cpu)@.wf(),
    ensures
        (final(cpu)@, result) == spec_primary(old(cpu)@, 0x1b),
        final(cpu)@.wf(),
        result matches Ok(cycles) ==> cycles <= 24,
{
    alu16::dec_register(cpu, Register::DE)
}

/// inc E
pub fn opcode_1c(cpu: &mut Cpu) -> (result: InsnResult)
    requires
        old(cpu)@.wf(),
    ensures
        (final(cpu)@, result) == spec_primary(old(cpu)@, 0x1c),
        final(cpu)@.wf(),
        result matches Ok(cycles) ==> cycles <= 24,
{
    alu8::inc_register(cpu, Register::E)
}

/// dec E
pub fn opcode_1d(cpu: &mut Cpu) -> (result: InsnResult)
    requires
        old(cpu)@.wf(),
    ensures
        (final(cpu)@, result) == spec_primary(old(cpu)@, 0x1d),
        final(cpu)@.wf(),
        result matches Ok(cycles) ==> cycles <= 24,
{
    alu8::dec_register(cpu, Register::E)
}

/// ld E, n
pub fn opcode_1e(cpu: &mut Cpu) -> (result: InsnResult)
    requires
        old(cpu)@.wf(),
    ensures
        (final(cpu)@, result) == spec_primary(old(cpu)@, 0x1e),
        final(cpu)@.wf(),
        result matches Ok(cycles) ==> cycles <= 24,
{
    load_imm8_to_register(cpu, Register::E)
}

/// rra
pub fn opcode_1f(cpu: &mut Cpu) -> (result: InsnResult)
    requires
        old(cpu)@.wf(),
    ensures
        (final(cpu)@, result) == spec_primary(old(cpu)@, 0x1f),
        final(cpu)@.wf(),
        result matches Ok(cycles) ==> cycles <= 24,
{
    rotate_accumulator(cpu, ByteOp::Rr)
}

/// jr NZ, n
pub fn opcode_20(cpu: &mut Cpu) -> (result: InsnResult)
    requires
        old(cpu)@.wf(),
    ensures
        (final(cpu)@, result) == spec_primary(old(cpu)@, 0x20),
        final(cpu)@.wf(),
        result matches Ok(cycles) ==> cycles <= 24,
{
    jump_relative_conditional(cpu, Flag::Z, false)
}

/// ld HL, nn
pub fn opcode_21(cpu: &mut Cpu) -> (result: InsnResult)
    requires
        old(cpu)@.wf(),
    ensures
        (final(cpu)@, result) == spec_primary(old(cpu)@, 0x21),
        final(cpu)@.wf(),
        result matches Ok(cycles) ==> cycles <= 24,
{
    load_imm16_to_register(cpu, Register::HL)
}

/// ld (HL+), A
pub fn opcode_22(cpu: &mut Cpu) -> (result: InsnResult)
    requires
        old(cpu)@.wf(),
    ensures
        (final(cpu)@, result) == spec_primary(old(cpu)@, 0x22),
        final(cpu)@.wf(),
        result matches Ok(cycles) ==> cycles <= 24,
{
    store_and_step(cpu, true)
}

/// inc HL
pub fn opcode_23(cpu: &mut Cpu) -> (result: InsnResult)
    requires
        old(cpu)@.wf(),
    ensures
        (final(cpu)@, result) == spec_primary(old(cpu)@, 0x23),
        final(cpu)@.wf(),
        result matches Ok(cycles) ==> cycles <= 24,
{
    alu16::inc_register(cpu, Register::HL)
}

/// inc H
pub fn opcode_24(cpu: &mut Cpu) -> (result: InsnResult)
    requires
        old(cpu)@.wf(),
    ensures
        (final(cpu)@, result) == spec_primary(old(cpu)@, 0x24),
        final(cpu)@.wf(),
        result matches Ok(cycles) ==> cycles <= 24,
{
    alu8::inc_register(cpu, Register::H)
}

/// dec H
pub fn opcode_25(cpu: &mut Cpu) -> (result: InsnResult)
    requires
        old(cpu)@.wf(),
    ensures
        (final(cpu)@, result) == spec_primary(old(cpu)@, 0x25),
        final(cpu)@.wf(),
        result matches Ok(cycles) ==> cycles <= 24,
{
    alu8::dec_register(cpu, Register::H)
}

/// ld H, n
pub fn opcode_26(cpu: &mut Cpu) -> (result: InsnResult)
    requires
        old(cpu)@.wf(),
    ensures
        (final(cpu)@, result) == spec_primary(old(cpu)@, 0x26),
        final(cpu)@.wf(),
        result matches Ok(cycles) ==> cycles <= 24,
{
    load_imm8_to_register(cpu, Register::H)
}

/// daa
pub fn opcode_27(cpu: &mut Cpu) -> (result: InsnResult)
    requires
        old(cpu)@.wf(),
    ensures
        (final(cpu)@, result) == spec_primary(old(cpu)@, 0x27),
        final(cpu)@.wf(),
        result matches Ok(cycles) ==> cycles <= 24,
{
    adjust_accumulator(cpu)
}

/// jr Z, n
pub fn opcode_28(cpu: &mut Cpu) -> (result: InsnResult)
    requires
        old(cpu)@.wf(),
    ensures
        (final(cpu)@, result) == spec_primary(old(cpu)@, 0x28),
        final(cpu)@.wf(),
        result matches Ok(cycles) ==> cycles <= 24,
{
    jump_relative_conditional(cpu, Flag::Z, true)
}

/// add HL, HL
pub fn opcode_29(cpu: &mut Cpu) -> (result: InsnResult)
    requires
        old(cpu)@.wf(),
    ensures
        (final(cpu)@, result) == spec_primary(old(cpu)@, 0x29),
        final(cpu)@.wf(),
        result matches Ok(cycles) ==> cycles <= 24,
{
    alu16::op_registers(Alu16Op::AddHl, cpu, Register::HL, Register::HL)
}

/// ld A, (HL+)
pub fn opcode_2a(cpu: &mut Cpu) -> (result: InsnResult)
    requires
        old(cpu)@.wf(),
    ensures
        (final(cpu)@, result) == spec_primary(old(cpu)@, 0x2a),
        final(cpu)@.wf(),
        result matches Ok(cycles) ==> cycles <= 24,
{
    load_and_step(cpu, true)
}

/// dec HL
pub fn opcode_2b(cpu: &mut Cpu) -> (result: InsnResult)
    requires
        old(cpu)@.wf(),
    ensures
        (final(cpu)@, result) == spec_primary(old(cpu)@, 0x2b),
        final(cpu)@.wf(),
        result matches Ok(cycles) ==> cycles <= 24,
{
    alu16::dec_register(cpu, Register::HL)
}

/// inc L
pub fn opcode_2c(cpu: &mut Cpu) -> (result: InsnResult)
    requires
        old(cpu)@.wf(),
    ensures
        (final(cpu)@, result) == spec_primary(old(cpu)@, 0x2c),
        final(cpu)@.wf(),
        result matches Ok(cycles) ==> cycles <= 24,
{
    alu8::inc_register(cpu, Register::L)
}

/// dec L
pub fn opcode_2d(cpu: &mut Cpu) -> (result: InsnResult)
    requires
        old(cpu)@.wf(),
    ensures
        (final(cpu)@, result) == spec_primary(old(cpu)@, 0x2d),
        final(cpu)@.wf(),
        result matches Ok(cycles) ==> cycles <= 24,
{
    alu8::dec_register(cpu, Register::L)
}

/// ld L, n
pub fn opcode_2e(cpu: &mut Cpu) -> (result: InsnResult)
    requires
        old(cpu)@.wf(),
    ensures
        (final(cpu)@, result) == spec_primary(old(cpu)@, 0x2e),
        final(cpu)@.wf(),
        result matches Ok(cycles) ==> cycles <= 24,
{
    load_imm8_to_register(cpu, Register::L)
}

/// cpl
pub fn opcode_2f(cpu: &mut Cpu) -> (result: InsnResult)
    requires
        old(cpu)@.wf(),
    ensures
        (final(cpu)@, result) == spec_primary(old(cpu)@, 0x2f),
        final(cpu)@.wf(),
        result matches Ok(cycles) ==> cycles <= 24,
{
    complement(cpu)
}

/// jr NC, n
pub fn opcode_30(cpu: &mut Cpu) -> (result: InsnResult)
    requires
        old(cpu)@.wf(),
    ensures
        (final(cpu)@, result) == spec_primary(old(cpu)@, 0x30),
        final(cpu)@.wf(),
        result matches Ok(cycles) ==> cycles <= 24,
{
    jump_relative_conditional(cpu, Flag::C, false)
}

/// ld SP, nn
pub fn opcode_31(cpu: &mut Cpu) -> (result: InsnResult)
    requires
        old(cpu)@.wf(),
    ensures
        (final(cpu)@, result) == spec_primary(old(cpu)@, 0x31),
        final(cpu)@.wf(),
        result matches Ok(cycles) ==> cycles <= 24,
{
    load_imm16_to_register(cpu, Register::SP)
}

/// ld (HL-), A
pub fn opcode_32(cpu: &mut Cpu) -> (result: InsnResult)
    requires
        old(cpu)@.wf(),
    ensures
        (final(cpu)@, result) == spec_primary(old(cpu)@, 0x32),
        final(cpu)@.wf(),
        result matches Ok(cycles) ==> cycles <= 24,
{
    store_and_step(cpu, false)
}

/// inc SP
pub fn opcode_33(cpu: &mut Cpu) -> (result: InsnResult)
    requires
        old(cpu)@.wf(),
    ensures
        (final(cpu)@, result) == spec_primary(old(cpu)@, 0x33),
        final(cpu)@.wf(),
        result matches Ok(cycles) ==> cycles <= 24,
{
    alu16::inc_register(cpu, Register::SP)
}

/// inc (HL)
pub fn opcode_34(cpu: &mut Cpu) -> (result: InsnResult)
    requires
        old(cpu)@.wf(),
    ensures
        (final(cpu)@, result) == spec_primary(old(cpu)@, 0x34),
        final(cpu)@.wf(),
        result matches Ok(cycles) ==> cycles <= 24,
{
    alu8::inc_mem(cpu)
}

/// dec (HL)
pub fn opcode_35(cpu: &mut Cpu) -> (result: InsnResult)
    requires
        old(cpu)@.wf(),
    ensures
        (final(cpu)@, result) == spec_primary(old(cpu)@, 0x35),
        final(cpu)@.wf(),
        result matches Ok(cycles) ==> cycles <= 24,
{
    alu8::dec_mem(cpu)
}

/// ld (HL), n
pub fn opcode_36(cpu: &mut Cpu) -> (result: InsnResult)
    requires
        old(cpu)@.wf(),
    ensures
        (final(cpu)@, result) == spec_primary(old(cpu)@, 0x36),
        final(cpu)@.wf(),
        result matches Ok(cycles) ==> cycles <= 24,
{
    store_imm(cpu)
}

/// scf
pub fn opcode_37(cpu: &mut Cpu) -> (result: InsnResult)
    requires
        old(cpu)@.wf(),
    ensures
        (final(cpu)@, result) == spec_primary(old(cpu)@, 0x37),
        final(cpu)@.wf(),
        result matches Ok(cycles) ==> cycles <= 24,
{
    set_carry(cpu, true)
}

/// jr C, n
pub fn opcode_38(cpu: &mut Cpu) -> (result: InsnResult)
    requires
        old(cpu)@.wf(),
    ensures
        (final(cpu)@, result) == spec_primary(old(cpu)@, 0x38),
        final(cpu)@.wf(),
        result matches Ok(cycles) ==> cycles <= 24,
{
    jump_relative_conditional(cpu, Flag::C, true)
}

/// add HL, SP
pub fn opcode_39(cpu: &mut Cpu) -> (result: InsnResult)
    requires
        old(cpu)@.wf(),
    ensures
        (final(cpu)@, result) == spec_primary(old(cpu)@, 0x39),
        final(cpu)@.wf(),
        result matches Ok(cycles) ==> cycles <= 24,
{
    alu16::op_registers(Alu16Op::AddHl, cpu, Register::HL, Register::SP)
}

/// ld A, (HL-)
pub fn opcode_3a(cpu: &mut Cpu) -> (result: InsnResult)
    requires
        old(cpu)@.wf(),
    ensures
        (final(cpu)@, result) == spec_primary(old(cpu)@, 0x3a),
        final(cpu)@.wf(),
        result matches Ok(cycles) ==> cycles <= 24,
{
    load_and_step(cpu, false)
}

/// dec SP
pub fn opcode_3b(cpu: &mut Cpu) -> (result: InsnResult)
    requires
        old(cpu)@.wf(),
    ensures
        (final(cpu)@, result) == spec_primary(old(cpu)@, 0x3b),
        final(cpu)@.wf(),
        result matches Ok(cycles) ==> cycles <= 24,
{
    alu16::dec_register(cpu, Register::SP)
}

/// inc A
pub fn opcode_3c(cpu: &mut Cpu) -> (result: InsnResult)
    requires
        old(cpu)@.wf(),
    ensures
        (final(cpu)@, result) == spec_primary(old(cpu)@, 0x3c),
        final(cpu)@.wf(),
        result matches Ok(cycles) ==> cycles <= 24,
{
    alu8::inc_register(cpu, Register::A)
}

/// dec A
pub fn opcode_3d(cpu: &mut Cpu) -> (result: InsnResult)
    requires
        old(cpu)@.wf(),
    ensures
        (final(cpu)@, result) == spec_primary(old(cpu)@, 0x3d),
        final(cpu)@.wf(),
        result matches Ok(cycles) ==> cycles <= 24,
{
    alu8::dec_register(cpu, Register::A)
}

/// ld A, n
pub fn opcode_3e(cpu: &mut Cpu) -> (result: InsnResult)
    requires
        old(cpu)@.wf(),
    ensures
        (final(cpu)@, result) == spec_primary(old(cpu)@, 0x3e),
        final(cpu)@.wf(),
        result matches Ok(cycles) ==> cycles <= 24,
{
    load_imm8_to_register(cpu, Register::A)
}

/// ccf
pub fn opcode_3f(cpu: &mut Cpu) -> (result: InsnResult)
    requires
        old(cpu)@.wf(),
    ensures
        (final(cpu)@, result) == spec_primary(old(cpu)@, 0x3f),
        final(cpu)@.wf(),
        result matches Ok(cycles) ==> cycles <= 24,
{
    let set = cpu.registers.flag(Flag::C);
    set_carry(cpu, !set)
}

/// ld B, B
pub fn opcode_40(cpu: &mut Cpu) -> (result: InsnResult)
    requires
        old(cpu)@.wf(),
    ensures
        (final(cpu)@, result) == spec_primary(old(cpu)@, 0x40),
        final(cpu)@.wf(),
        result matches Ok(cycles) ==> cycles <= 24,
{
    move_registers(cpu, Register::B, Register::B)
}

/// ld B, C
pub fn opcode_41(cpu: &mut Cpu) -> (result: InsnResult)
    requires
        old(cpu)@.wf(),
    ensures
        (final(cpu)@, result) == spec_primary(old(cpu)@, 0x41),
        final(cpu)@.wf(),
        result matches Ok(cycles) ==> cycles <= 24,
{
    move_registers(cpu, Register::B, Register::C)
}

/// ld B, D
pub fn opcode_42(cpu: &mut Cpu) -> (result: InsnResult)
    requires
        old(cpu)@.wf(),
    ensures
        (final(cpu)@, result) == spec_primary(old(cpu)@, 0x42),
        final(cpu)@.wf(),
        result matches Ok(cycles) ==> cycles <= 24,
{
    move_registers(cpu, Register::B, Register::D)
}

/// ld B, E
pub fn opcode_43(cpu: &mut Cpu) -> (result: InsnResult)
    requires
        old(cpu)@.wf(),
    ensures
        (final(cpu)@, result) == spec_primary(old(cpu)@, 0x43),
        final(cpu)@.wf(),
        result matches Ok(cycles) ==> cycles <= 24,
{
    move_registers(cpu, Register::B, Register::E)
}

/// ld B, H
pub fn opcode_44(cpu: &mut Cpu) -> (result: InsnResult)
    requires
        old(cpu)@.wf(),
    ensures
        (final(cpu)@, result) == spec_primary(old(cpu)@, 0x44),
        final(cpu)@.wf(),
        result matches Ok(cycles) ==> cycles <= 24,
{
    move_registers(cpu, Register::B, Register::H)
}

/// ld B, L
pub fn opcode_45(cpu: &mut Cpu) -> (result: InsnResult)
    requires
        old(cpu)@.wf(),
    ensures
        (final(cpu)@, result) == spec_primary(old(cpu)@, 0x45),
        final(cpu)@.wf(),
        result matches Ok(cycles) ==> cycles <= 24,
{
    move_registers(cpu, Register::B, Register::L)
}

/// ld B, (HL)
pub fn opcode_46(cpu: &mut Cpu) -> (result: InsnResult)
    requires
        old(cpu)@.wf(),
    ensures
        (final(cpu)@, result) == spec_primary(old(cpu)@, 0x46),
        final(cpu)@.wf(),
        result matches Ok(cycles) ==> cycles <= 24,
{
    load_mem_to_register(cpu, Register::B, Register::HL)
}

/// ld B, A
pub fn opcode_47(cpu: &mut Cpu) -> (result: InsnResult)
    requires
        old(cpu)@.wf(),
    ensures
        (final(cpu)@, result) == spec_primary(old(cpu)@, 0x47),
        final(cpu)@.wf(),
        result matches Ok(cycles) ==> cycles <= 24,
{
    move_registers(cpu, Register::B, Register::A)
}

/// ld C, B
pub fn opcode_48(cpu: &mut Cpu) -> (result: InsnResult)
    requires
        old(cpu)@.wf(),
    ensures
        (final(cpu)@, result) == spec_primary(old(cpu)@, 0x48),
        final(cpu)@.wf(),
        result matches Ok(cycles) ==> cycles <= 24,
{
    move_registers(cpu, Register::C, Register::B)
}

/// ld C, C
pub fn opcode_49(cpu: &mut Cpu) -> (result: InsnResult)
    requires
        old(cpu)@.wf(),
    ensures
        (final(cpu)@, result) == spec_primary(old(cpu)@, 0x49),
        final(cpu)@.wf(),
        result matches Ok(cycles) ==> cycles <= 24,
{
    move_registers(cpu, Register::C, Register::C)
}

/// ld C, D
pub fn opcode_4a(cpu: &mut Cpu) -> (result: InsnResult)
    requires
        old(cpu)@.wf(),
    ensures
        (final(cpu)@, result) == spec_primary(old(cpu)@, 0x4a),
        final(cpu)@.wf(),
        result matches Ok(cycles) ==> cycles <= 24,
{
    move_registers(cpu, Register::C, Register::D)
}

/// ld C, E
pub fn opcode_4b(cpu: &mut Cpu) -> (result: InsnResult)
    requires
        old(cpu)@.wf(),
    ensures
        (final(cpu)@, result) == spec_primary(old(cpu)@, 0x4b),
        final(cpu)@.wf(),
        result matches Ok(cycles) ==> cycles <= 24,
{
    move_registers(cpu, Register::C, Register::E)
}

/// ld C, H
pub fn opcode_4c(cpu: &mut Cpu) -> (result: InsnResult)
    requires
        old(cpu)@.wf(),
    ensures
        (final(cpu)@, result) == spec_primary(old(cpu)@, 0x4c),
        final(cpu)@.wf(),
        result matches Ok(cycles) ==> cycles <= 24,
{
    move_registers(cpu, Register::C, Register::H)
}

/// ld C, L
pub fn opcode_4d(cpu: &mut Cpu) -> (result: InsnResult)
    requires
        old(cpu)@.wf(),
    ensures
        (final(cpu)@, result) == spec_primary(old(cpu)@, 0x4d),
        final(cpu)@.wf(),
        result matches Ok(cycles) ==> cycles <= 24,
{
    move_registers(cpu, Register::C, Register::L)
}

/// ld C, (HL)
pub fn opcode_4e(cpu: &mut Cpu) -> (result: InsnResult)
    requires
        old(cpu)@.wf(),
    ensures
        (final(cpu)@, result) == spec_primary(old(cpu)@, 0x4e),
        final(cpu)@.wf(),
        result matches Ok(cycles) ==> cycles <= 24,
{
    load_mem_to_register(cpu, Register::C, Register::HL)
}

/// ld C, A
pub fn opcode_4f(cpu: &mut Cpu) -> (result: InsnResult)
    requires
        old(cpu)@.wf(),
    ensures
        (final(cpu)@, result) == spec_primary(old(cpu)@, 0x4f),
        final(cpu)@.wf(),
        result matches Ok(cycles) ==> cycles <= 24,
{
    move_registers(cpu, Register::C, Register::A)
}

/// ld D, B
pub fn opcode_50(cpu: &mut Cpu) -> (result: InsnResult)
    requires
        old(cpu)@.wf(),
    ensures
        (final(cpu)@, result) == spec_primary(old(cpu)@, 0x50),
        final(cpu)@.wf(),
        result matches Ok(cycles) ==> cycles <= 24,
{
    move_registers(cpu, Register::D, Register::B)
}

/// ld D, C
pub fn opcode_51(cpu: &mut Cpu) -> (result: InsnResult)
    requires
        old(cpu)@.wf(),
    ensures
        (final(cpu)@, result) == spec_primary(old(cpu)@, 0x51),
        final(cpu)@.wf(),
        result matches Ok(cycles) ==> cycles <= 24,
{
    move_registers(cpu, Register::D, Register::C)
}

/// ld D, D
pub fn opcode_52(cpu: &mut Cpu) -> (result: InsnResult)
    requires
        old(cpu)@.wf(),
    ensures
        (final(cpu)@, result) == spec_primary(old(cpu)@, 0x52),
        final(cpu)@.wf(),
        result matches Ok(cycles) ==> cycles <= 24,
{
    move_registers(cpu, Register::D, Register::D)
}

/// ld D, E
pub fn opcode_53(cpu: &mut Cpu) -> (result: InsnResult)
    requires
        old(cpu)@.wf(),
    ensures
        (final(cpu)@, result) == spec_primary(old(cpu)@, 0x53),
        final(cpu)@.wf(),
        result matches Ok(cycles) ==> cycles <= 24,
{
    move_registers(cpu, Register::D, Register::E)
}

/// ld D, H
pub fn opcode_54(cpu: &mut Cpu) -> (result: InsnResult)
    requires
        old(cpu)@.wf(),
    ensures
        (final(cpu)@, result) == spec_primary(old(cpu)@, 0x54),
        final(cpu)@.wf(),
        result matches Ok(cycles) ==> cycles <= 24,
{
    move_registers(cpu, Register::D, Register::H)
}

/// ld D, L
pub fn opcode_55(cpu: &mut Cpu) -> (result: InsnResult)
    requires
        old(cpu)@.wf(),
    ensures
        (final(cpu)@, result) == spec_primary(old(cpu)@, 0x55),
        final(cpu)@.wf(),
        result matches Ok(cycles) ==> cycles <= 24,
{
    move_registers(cpu, Register::D, Register::L)
}

/// ld D, (HL)
pub fn opcode_56(cpu: &mut Cpu) -> (result: InsnResult)
    requires
        old(cpu)@.wf(),
    ensures
        (final(cpu)@, result) == spec_primary(old(cpu)@, 0x56),
        final(cpu)@.wf(),
        result matches Ok(cycles) ==> cycles <= 24,
{
    load_mem_to_register(cpu, Register::D, Register::HL)
}

/// ld D, A
pub fn opcode_57(cpu: &mut Cpu) -> (result: InsnResult)
    requires
        old(cpu)@.wf(),
    ensures
        (final(cpu)@, result) == spec_primary(old(cpu)@, 0x57),
        final(cpu)@.wf(),
        result matches Ok(cycles) ==> cycles <= 24,
{
    move_registers(cpu, Register::D, Register::A)
}

/// ld E, B
pub fn opcode_58(cpu: &mut Cpu) -> (result: InsnResult)
    requires
        old(cpu)@.wf(),
    ensures
        (final(cpu)@, result) == spec_primary(old(cpu)@, 0x58),
        final(cpu)@.wf(),
        result matches Ok(cycles) ==> cycles <= 24,
{
    move_registers(cpu, Register::E, Register::B)
}

/// ld E, C
pub fn opcode_59(cpu: &mut Cpu) -> (result: InsnResult)
    requires
        old(cpu)@.wf(),
    ensures
        (final(cpu)@, result) == spec_primary(old(cpu)@, 0x59),
        final(cpu)@.wf(),
        result matches Ok(cycles) ==> cycles <= 24,
{
    move_registers(cpu, Register::E, Register::C)
}

/// ld E, D
pub fn opcode_5a(cpu: &mut Cpu) -> (result: InsnResult)
    requires
        old(cpu)@.wf(),
    ensures
        (final(cpu)@, result) == spec_primary(old(cpu)@, 0x5a),
        final(cpu)@.wf(),
        result matches Ok(cycles) ==> cycles <= 24,
{
    move_registers(cpu, Register::E, Register::D)
}

/// ld E, E
pub fn opcode_5b(cpu: &mut Cpu) -> (result: InsnResult)
    requires
        old(cpu)@.wf(),
    ensures
        (final(cpu)@, result) == spec_primary(old(cpu)@, 0x5b),
        final(cpu)@.wf(),
        result matches Ok(cycles) ==> cycles <= 24,
{
    move_registers(cpu, Register::E, Register::E)
}

/// ld E, H
pub fn opcode_5c(cpu: &mut Cpu) -> (result: InsnResult)
    requires
        old(cpu)@.wf(),
    ensures
        (final(cpu)@, result) == spec_primary(old(cpu)@, 0x5c),
        final(cpu)@.wf(),
        result matches Ok(cycles) ==> cycles <= 24,
{
    move_registers(cpu, Register::E, Register::H)
}

/// ld E, L
pub fn opcode_5d(cpu: &mut Cpu) -> (result: InsnResult)
    requires
        old(cpu)@.wf(),
    ensures
        (final(cpu)@, result) == spec_primary(old(cpu)@, 0x5d),
        final(cpu)@.wf(),
        result matches Ok(cycles) ==> cycles <= 24,
{
    move_registers(cpu, Register::E, Register::L)
}

/// ld E, (HL)
pub fn opcode_5e(cpu: &mut Cpu) -> (result: InsnResult)
    requires
        old(cpu)@.wf(),
    ensures
        (final(cpu)@, result) == spec_primary(old(cpu)@, 0x5e),
        final(cpu)@.wf(),
        result matches Ok(cycles) ==> cycles <= 24,
{
    load_mem_to_register(cpu, Register::E, Register::HL)
}

/// ld E, A
pub fn opcode_5f(cpu: &mut Cpu) -> (result: InsnResult)
    requires
        old(cpu)@.wf(),
    ensures
        (final(cpu)@, result) == spec_primary(old(cpu)@, 0x5f),
        final(cpu)@.wf(),
        result matches Ok(cycles) ==> cycles <= 24,
{
    move_registers(cpu, Register::E, Register::A)
}

/// ld H, B
pub fn opcode_60(cpu: &mut Cpu) -> (result: InsnResult)
    requires
        old(cpu)@.wf(),
    ensures
        (final(cpu)@, result) == spec_primary(old(cpu)@, 0x60),
        final(cpu)@.wf(),
        result matches Ok(cycles) ==> cycles <= 24,
{
    move_registers(cpu, Register::H, Register::B)
}

/// ld H, C
pub fn opcode_61(cpu: &mut Cpu) -> (result: InsnResult)
    requires
        old(cpu)@.wf(),
    ensures
        (final(cpu)@, result) == spec_primary(old(cpu)@, 0x61),
        final(cpu)@.wf(),
        result matches Ok(cycles) ==> cycles <= 24,
{
    move_registers(cpu, Register::H, Register::C)
}

/// ld H, D
pub fn opcode_62(cpu: &mut Cpu) -> (result: InsnResult)
    requires
        old(cpu)@.wf(),
    ensures
        (final(cpu)@, result) == spec_primary(old(cpu)@, 0x62),
        final(cpu)@.wf(),
        result matches Ok(cycles) ==> cycles <= 24,
{
    move_registers(cpu, Register::H, Register::D)
}

/// ld H, E
pub fn opcode_63(cpu: &mut Cpu) -> (result: InsnResult)
    requires
        old(cpu)@.wf(),
    ensures
        (final(cpu)@, result) == spec_primary(old(cpu)@, 0x63),
        final(cpu)@.wf(),
        result matches Ok(cycles) ==> cycles <= 24,
{
    move_registers(cpu, Register::H, Register::E)
}

/// ld H, H
pub fn opcode_64(cpu: &mut Cpu) -> (result: InsnResult)
    requires
        old(cpu)@.wf(),
    ensures
        (final(cpu)@, result) == spec_primary(old(cpu)@, 0x64),
        final(cpu)@.wf(),
        result matches Ok(cycles) ==> cycles <= 24,
{
    move_registers(cpu, Register::H, Register::H)
}

/// ld H, L
pub fn opcode_65(cpu: &mut Cpu) -> (result: InsnResult)
    requires
        old(cpu)@.wf(),
    ensures
        (final(cpu)@, result) == spec_primary(old(cpu)@, 0x65),
        final(cpu)@.wf(),
        result matches Ok(cycles) ==> cycles <= 24,
{
    move_registers(cpu, Register::H, Register::L)
}

/// ld H, (HL)
pub fn opcode_66(cpu: &mut Cpu) -> (result: InsnResult)
    requires
        old(cpu)@.wf(),
    ensures
        (final(cpu)@, result) == spec_primary(old(cpu)@, 0x66),
        final(cpu)@.wf(),
        result matches Ok(cycles) ==> cycles <= 24,
{
    load_mem_to_register(cpu, Register::H, Register::HL)
}

/// ld H, A
pub fn opcode_67(cpu: &mut Cpu) -> (result: InsnResult)
    requires
        old(cpu)@.wf(),
    ensures
        (final(cpu)@, result) == spec_primary(old(cpu)@, 0x67),
        final(cpu)@.wf(),
        result matches Ok(cycles) ==> cycles <= 24,
{
    move_registers(cpu, Register::H, Register::A)
}

/// ld L, B
pub fn opcode_68(cpu: &mut Cpu) -> (result: InsnResult)
    requires
        old(cpu)@.wf(),
    ensures
        (final(cpu)@, result) == spec_primary(old(cpu)@, 0x68),
        final(cpu)@.wf(),
        result matches Ok(cycles) ==> cycles <= 24,
{
    move_registers(cpu, Register::L, Register::B)
}

/// ld L, C
pub fn opcode_69(cpu: &mut Cpu) -> (result: InsnResult)
    requires
        old(cpu)@.wf(),
    ensures
        (final(cpu)@, result) == spec_primary(old(cpu)@, 0x69),
        final(cpu)@.wf(),
        result matches Ok(cycles) ==> cycles <= 24,
{
    move_registers(cpu, Register::L, Register::C)
}

/// ld L, D
pub fn opcode_6a(cpu: &mut Cpu) -> (result: InsnResult)
    requires
        old(cpu)@.wf(),
    ensures
        (final(cpu)@, result) == spec_primary(old(cpu)@, 0x6a),
        final(cpu)@.wf(),
        result matches Ok(cycles) ==> cycles <= 24,
{
    move_registers(cpu, Register::L, Register::D)
}

/// ld L, E
pub fn opcode_6b(cpu: &mut Cpu) -> (result: InsnResult)
    requires
        old(cpu)@.wf(),
    ensures
        (final(cpu)@, result) == spec_primary(old(cpu)@, 0x6b),
        final(cpu)@.wf(),
        result matches Ok(cycles) ==> cycles <= 24,
{
    move_registers(cpu, Register::L, Register::E)
}

/// ld L, H
pub fn opcode_6c(cpu: &mut Cpu) -> (result: InsnResult)
    requires
        old(cpu)@.wf(),
    ensures
        (final(cpu)@, result) == spec_primary(old(cpu)@, 0x6c),
        final(cpu)@.wf(),
        result matches Ok(cycles) ==> cycles <= 24,
{
    move_registers(cpu, Register::L, Register::H)
}

/// ld L, L
pub fn opcode_6d(cpu: &mut Cpu) -> (result: InsnResult)
    requires
        old(cpu)@.wf(),
    ensures
        (final(cpu)@, result) == spec_primary(old(cpu)@, 0x6d),
        final(cpu)@.wf(),
        result matches Ok(cycles) ==> cycles <= 24,
{
    move_registers(cpu, Register::L, Register::L)
}

/// ld L, (HL)
pub fn opcode_6e(cpu: &mut Cpu) -> (result: InsnResult)
    requires
        old(cpu)@.wf(),
    ensures
        (final(cpu)@, result) == spec_primary(old(cpu)@, 0x6e),
        final(cpu)@.wf(),
        result matches Ok(cycles) ==> cycles <= 24,
{
    load_mem_to_register(cpu, Register::L, Register::HL)
}

/// ld L, A
pub fn opcode_6f(cpu: &mut Cpu) -> (result: InsnResult)
    requires
        old(cpu)@.wf(),
    ensures
        (final(cpu)@, result) == spec_primary(old(cpu)@, 0x6f),
        final(cpu)@.wf(),
        result matches Ok(cycles) ==> cycles <= 24,
{
    move_registers(cpu, Register::L, Register::A)
}

/// ld (HL), B
pub fn opcode_70(cpu: &mut Cpu) -> (result: InsnResult)
    requires
        old(cpu)@.wf(),
    ensures
        (final(cpu)@, result) == spec_primary(old(cpu)@, 0x70),
        final(cpu)@.wf(),
        result matches Ok(cycles) ==> cycles <= 24,
{
    store_register_into_mem(cpu, Register::HL, Register::B)
}

/// ld (HL), C
pub fn opcode_71(cpu: &mut Cpu) -> (result: InsnResult)
    requires
        old(cpu)@.wf(),
    ensures
        (final(cpu)@, result) == spec_primary(old(cpu)@, 0x71),
        final(cpu)@.wf(),
        result matches Ok(cycles) ==> cycles <= 24,
{
    store_register_into_mem(cpu, Register::HL, Register::C)
}

/// ld (HL), D
pub fn opcode_72(cpu: &mut Cpu) -> (result: InsnResult)
    requires
        old(cpu)@.wf(),
    ensures
        (final(cpu)@, result) == spec_primary(old(cpu)@, 0x72),
        final(cpu)@.wf(),
        result matches Ok(cycles) ==> cycles <= 24,
{
    store_register_into_mem(cpu, Register::HL, Register::D)
}

/// ld (HL), E
pub fn opcode_73(cpu: &mut Cpu) -> (result: InsnResult)
    requires
        old(cpu)@.wf(),
    ensures
        (final(cpu)@, result) == spec_primary(old(cpu)@, 0x73),
        final(cpu)@.wf(),
        result matches Ok(cycles) ==> cycles <= 24,
{
    store_register_into_mem(cpu, Register::HL, Register::E)
}

/// ld (HL), H
pub fn opcode_74(cpu: &mut Cpu) -> (result: InsnResult)
    requires
        old(cpu)@.wf(),
    ensures
        (final(cpu)@, result) == spec_primary(old(cpu)@, 0x74),
        final(cpu)@.wf(),
        result matches Ok(cycles) ==> cycles <= 24,
{
    store_register_into_mem(cpu, Register::HL, Register::H)
}

/// ld (HL), L
pub fn opcode_75(cpu: &mut Cpu) -> (result: InsnResult)
    requires
        old(cpu)@.wf(),
    ensures
        (final(cpu)@, result) == spec_primary(old(cpu)@, 0x75),
        final(cpu)@.wf(),
        result matches Ok(cycles) ==> cycles <= 24,
{
    store_register_into_mem(cpu, Register::HL, Register::L)
}

/// halt
pub fn opcode_76(cpu: &mut Cpu) -> (result: InsnResult)
    requires
        old(cpu)@.wf(),
    ensures
        (final(cpu)@, result) == spec_primary(old(cpu)@, 0x76),
        final(cpu)@.wf(),
        result matches Ok(cycles) ==> cycles <= 24,
{
    cpu.halt();
    Ok(4)
}

/// ld (HL), A
pub fn opcode_77(cpu: &mut Cpu) -> (result: InsnResult)
    requires
        old(cpu)@.wf(),
    ensures
        (final(cpu)@, result) == spec_primary(old(cpu)@, 0x77),
        final(cpu)@.wf(),
        result matches Ok(cycles) ==> cycles <= 24,
{
    store_register_into_mem(cpu, Register::HL, Register::A)
}

/// ld A, B
pub fn opcode_78(cpu: &mut Cpu) -> (result: InsnResult)
    requires
        old(cpu)@.wf(),
    ensures
        (final(cpu)@, result) == spec_primary(old(cpu)@, 0x78),
        final(cpu)@.wf(),
        result matches Ok(cycles) ==> cycles <= 24,
{
    move_registers(cpu, Register::A, Register::B)
}

/// ld A, C
pub fn opcode_79(cpu: &mut Cpu) -> (result: InsnResult)
    requires
        old(cpu)@.wf(),
    ensures
        (final(cpu)@, result) == spec_primary(old(cpu)@, 0x79),
        final(cpu)@.wf(),
        result matches Ok(cycles) ==> cycles <= 24,
{
    move_registers(cpu, Register::A, Register::C)
}

/// ld A, D
pub fn opcode_7a(cpu: &mut Cpu) -> (result: InsnResult)
    requires
        old(cpu)@.wf(),
    ensures
        (final(cpu)@, result) == spec_primary(old(cpu)@, 0x7a),
        final(cpu)@.wf(),
        result matches Ok(cycles) ==> cycles <= 24,
{
    move_registers(cpu, Register::A, Register::D)
}

/// ld A, E
pub fn opcode_7b(cpu: &mut Cpu) -> (result: InsnResult)
    requires
        old(cpu)@.wf(),
    ensures
        (final(cpu)@, result) == spec_primary(old(cpu)@, 0x7b),
        final(cpu)@.wf(),
        result matches Ok(cycles) ==> cycles <= 24,
{
    move_registers(cpu, Register::A, Register::E)
}

/// ld A, H
pub fn opcode_7c(cpu: &mut Cpu) -> (result: InsnResult)
    requires
        old(cpu)@.wf(),
    ensures
        (final(cpu)@, result) == spec_primary(old(cpu)@, 0x7c),
        final(cpu)@.wf(),
        result matches Ok(cycles) ==> cycles <= 24,
{
    move_registers(cpu, Register::A, Register::H)
}

/// ld A, L
pub fn opcode_7d(cpu: &mut Cpu) -> (result: InsnResult)
    requires
        old(cpu)@.wf(),
    ensures
        (final(cpu)@, result) == spec_primary(old(cpu)@, 0x7d),
        final(cpu)@.wf(),
        result matches Ok(cycles) ==> cycles <= 24,
{
    move_registers(cpu, Register::A, Register::L)
}

/// ld A, (HL)
pub fn opcode_7e(cpu: &mut Cpu) -> (result: InsnResult)
    requires
        old(cpu)@.wf(),
    ensures
        (final(cpu)@, result) == spec_primary(old(cpu)@, 0x7e),
        final(cpu)@.wf(),
        result matches Ok(cycles) ==> cycles <= 24,
{
    load_mem_to_register(cpu, Register::A, Register::HL)
}

/// ld A, A
pub fn opcode_7f(cpu: &mut Cpu) -> (result: InsnResult)
    requires
        old(cpu)@.wf(),
    ensures
        (final(cpu)@, result) == spec_primary(old(cpu)@, 0x7f),
        final(cpu)@.wf(),
        result matches Ok(cycles) ==> cycles <= 24,
{
    move_registers(cpu, Register::A, Register::A)
}

/// add A, B
pub fn opcode_80(cpu: &mut Cpu) -> (result: InsnResult)
    requires
        old(cpu)@.wf(),
    ensures
        (final(cpu)@, result) == spec_primary(old(cpu)@, 0x80),
        final(cpu)@.wf(),
        result matches Ok(cycles) ==> cycles <= 24,
{
    alu8::op_registers(Alu8Op::Add, cpu, Register::A, Register::B)
}

/// add A, C
pub fn opcode_81(cpu: &mut Cpu) -> (result: InsnResult)
    requires
        old(cpu)@.wf(),
    ensures
        (final(cpu)@, result) == spec_primary(old(cpu)@, 0x81),
        final(cpu)@.wf(),
        result matches Ok(cycles) ==> cycles <= 24,
{
    alu8::op_registers(Alu8Op::Add, cpu, Register::A, Register::C)
}

/// add A, D
pub fn opcode_82(cpu: &mut Cpu) -> (result: InsnResult)
    requires
        old(cpu)@.wf(),
    ensures
        (final(cpu)@, result) == spec_primary(old(cpu)@, 0x82),
        final(cpu)@.wf(),
        result matches Ok(cycles) ==> cycles <= 24,
{
    alu8::op_registers(Alu8Op::Add, cpu, Register::A, Register::D)
}

/// add A, E
pub fn opcode_83(cpu: &mut Cpu) -> (result: InsnResult)
    requires
        old(cpu)@.wf(),
    ensures
        (final(cpu)@, result) == spec_primary(old(cpu)@, 0x83),
        final(cpu)@.wf(),
        result matches Ok(cycles) ==> cycles <= 24,
{
    alu8::op_registers(Alu8Op::Add, cpu, Register::A, Register::E)
}

/// add A, H
pub fn opcode_84(cpu: &mut Cpu) -> (result: InsnResult)
    requires
        old(cpu)@.wf(),
    ensures
        (final(cpu)@, result) == spec_primary(old(cpu)@, 0x84),
        final(cpu)@.wf(),
        result matches Ok(cycles) ==> cycles <= 24,
{
    alu8::op_registers(Alu8Op::Add, cpu, Register::A, Register::H)
}

/// add A, L
pub fn opcode_85(cpu: &mut Cpu) -> (result: InsnResult)
    requires
        old(cpu)@.wf(),
    ensures
        (final(cpu)@, result) == spec_primary(old(cpu)@, 0x85),
        final(cpu)@.wf(),
        result matches Ok(cycles) ==> cycles <= 24,
{
    alu8::op_registers(Alu8Op::Add, cpu, Register::A, Register::L)
}

/// add A, (HL)
pub fn opcode_86(cpu: &mut Cpu) -> (result: InsnResult)
    requires
        old(cpu)@.wf(),
    ensures
        (final(cpu)@, result) == spec_primary(old(cpu)@, 0x86),
        final(cpu)@.wf(),
        result matches Ok(cycles) ==> cycles <= 24,
{
    alu8::op_mem(Alu8Op::Add, cpu)
}

/// add A, A
pub fn opcode_87(cpu: &mut Cpu) -> (result: InsnResult)
    requires
        old(cpu)@.wf(),
    ensures
        (final(cpu)@, result) == spec_primary(old(cpu)@, 0x87),
        final(cpu)@.wf(),
        result matches Ok(cycles) ==> cycles <= 24,
{
    alu8::op_registers(Alu8Op::Add, cpu, Register::A, Register::A)
}

/// adc A, B
pub fn opcode_88(cpu: &mut Cpu) -> (result: InsnResult)
    requires
        old(cpu)@.wf(),
    ensures
        (final(cpu)@, result) == spec_primary(old(cpu)@, 0x88),
        final(cpu)@.wf(),
        result matches Ok(cycles) ==> cycles <= 24,
{
    alu8::op_registers(Alu8Op::Adc, cpu, Register::A, Register::B)
}

/// adc A, C
pub fn opcode_89(cpu: &mut Cpu) -> (result: InsnResult)
    requires
        old(cpu)@.wf(),
    ensures
        (final(cpu)@, result) == spec_primary(old(cpu)@, 0x89),
        final(cpu)@.wf(),
        result matches Ok(cycles) ==> cycles <= 24,
{
    alu8::op_registers(Alu8Op::Adc, cpu, Register::A, Register::C)
}

/// adc A, D
pub fn opcode_8a(cpu: &mut Cpu) -> (result: InsnResult)
    requires
        old(cpu)@.wf(),
    ensures
        (final(cpu)@, result) == spec_primary(old(cpu)@, 0x8a),
        final(cpu)@.wf(),
        result matches Ok(cycles) ==> cycles <= 24,
{
    alu8::op_registers(Alu8Op::Adc, cpu, Register::A, Register::D)
}

/// adc A, E
pub fn opcode_8b(cpu: &mut Cpu) -> (result: InsnResult)
    requires
        old(cpu)@.wf(),
    ensures
        (final(cpu)@, result) == spec_primary(old(cpu)@, 0x8b),
        final(cpu)@.wf(),
        result matches Ok(cycles) ==> cycles <= 24,
{
    alu8::op_registers(Alu8Op::Adc, cpu, Register::A, Register::E)
}

/// adc A, H
pub fn opcode_8c(cpu: &mut Cpu) -> (result: InsnResult)
    requires
        old(cpu)@.wf(),
    ensures
        (final(cpu)@, result) == spec_primary(old(cpu)@, 0x8c),
        final(cpu)@.wf(),
        result matches Ok(cycles) ==> cycles <= 24,
{
    alu8::op_registers(Alu8Op::Adc, cpu, Register::A, Register::H)
}

/// adc A, L
pub fn opcode_8d(cpu: &mut Cpu) -> (result: InsnResult)
    requires
        old(cpu)@.wf(),
    ensures
        (final(cpu)@, result) == spec_primary(old(cpu)@, 0x8d),
        final(cpu)@.wf(),
        result matches Ok(cycles) ==> cycles <= 24,
{
    alu8::op_registers(Alu8Op::Adc, cpu, Register::A, Register::L)
}

/// adc A, (HL)
pub fn opcode_8e(cpu: &mut Cpu) -> (result: InsnResult)
    requires
        old(cpu)@.wf(),
    ensures
        (final(cpu)@, result) == spec_primary(old(cpu)@, 0x8e),
        final(cpu)@.wf(),
        result matches Ok(cycles) ==> cycles <= 24,
{
    alu8::op_mem(Alu8Op::Adc, cpu)
}

/// adc A, A
pub fn opcode_8f(cpu: &mut Cpu) -> (result: InsnResult)
    requires
        old(cpu)@.wf(),
    ensures
        (final(cpu)@, result) == spec_primary(old(cpu)@, 0x8f),
        final(cpu)@.wf(),
        result matches Ok(cycles) ==> cycles <= 24,
{
    alu8::op_registers(Alu8Op::Adc, cpu, Register::A, Register::A)
}

/// sub A, B
pub fn opcode_90(cpu: &mut Cpu) -> (result: InsnResult)
    requires
        old(cpu)@.wf(),
    ensures
        (final(cpu)@, result) == spec_primary(old(cpu)@, 0x90),
        final(cpu)@.wf(),
        result matches Ok(cycles) ==> cycles <= 24,
{
    alu8::op_registers(Alu8Op::Sub, cpu, Register::A, Register::B)
}

/// sub A, C
pub fn opcode_91(cpu: &mut Cpu) -> (result: InsnResult)
    requires
        old(cpu)@.wf(),
    ensures
        (final(cpu)@, result) == spec_primary(old(cpu)@, 0x91),
        final(cpu)@.wf(),
        result matches Ok(cycles) ==> cycles <= 24,
{
    alu8::op_registers(Alu8Op::Sub, cpu, Register::A, Register::C)
}

/// sub A, D
pub fn opcode_92(cpu: &mut Cpu) -> (result: InsnResult)
    requires
        old(cpu)@.wf(),
    ensures
        (final(cpu)@, result) == spec_primary(old(cpu)@, 0x92),
        final(cpu)@.wf(),
        result matches Ok(cycles) ==> cycles <= 24,
{
    alu8::op_registers(Alu8Op::Sub, cpu, Register::A, Register::D)
}

/// sub A, E
pub fn opcode_93(cpu: &mut Cpu) -> (result: InsnResult)
    requires
        old(cpu)@.wf(),
    ensures
        (final(cpu)@, result) == spec_primary(old(cpu)@, 0x93),
        final(cpu)@.wf(),
        result matches Ok(cycles) ==> cycles <= 24,
{
    alu8::op_registers(Alu8Op::Sub, cpu, Register::A, Register::E)
}

/// sub A, H
pub fn opcode_94(cpu: &mut Cpu) -> (result: InsnResult)
    requires
        old(cpu)@.wf(),
    ensures
        (final(cpu)@, result) == spec_primary(old(cpu)@, 0x94),
        final(cpu)@.wf(),
        result matches Ok(cycles) ==> cycles <= 24,
{
    alu8::op_registers(Alu8Op::Sub, cpu, Register::A, Register::H)
}

/// sub A, L
pub fn opcode_95(cpu: &mut Cpu) -> (result: InsnResult)
    requires
        old(cpu)@.wf(),
    ensures
        (final(cpu)@, result) == spec_primary(old(cpu)@, 0x95),
        final(cpu)@.wf(),
        result matches Ok(cycles) ==> cycles <= 24,
{
    alu8::op_registers(Alu8Op::Sub, cpu, Register::A, Register::L)
}

/// sub A, (HL)
pub fn opcode_96(cpu: &mut Cpu) -> (result: InsnResult)
    requires
        old(cpu)@.wf(),
    ensures
        (final(cpu)@, result) == spec_primary(old(cpu)@, 0x96),
        final(cpu)@.wf(),
        result matches Ok(cycles) ==> cycles <= 24,
{
    alu8::op_mem(Alu8Op::Sub, cpu)
}

/// sub A, A
pub fn opcode_97(cpu: &mut Cpu) -> (result: InsnResult)
    requires
        old(cpu)@.wf(),
    ensures
        (final(cpu)@, result) == spec_primary(old(cpu)@, 0x97),
        final(cpu)@.wf(),
        result matches Ok(cycles) ==> cycles <= 24,
{
    alu8::op_registers(Alu8Op::Sub, cpu, Register::A, Register::A)
}

/// sbc A, B
pub fn opcode_98(cpu: &mut Cpu) -> (result: InsnResult)
    requires
        old(cpu)@.wf(),
    ensures
        (final(cpu)@, result) == spec_primary(old(cpu)@, 0x98),
        final(cpu)@.wf(),
        result matches Ok(cycles) ==> cycles <= 24,
{
    alu8::op_registers(Alu8Op::Sbc, cpu, Register::A, Register::B)
}

/// sbc A, C
pub fn opcode_99(cpu: &mut Cpu) -> (result: InsnResult)
    requires
        old(cpu)@.wf(),
    ensures
        (final(cpu)@, result) == spec_primary(old(cpu)@, 0x99),
        final(cpu)@.wf(),
        result matches Ok(cycles) ==> cycles <= 24,
{
    alu8::op_registers(Alu8Op::Sbc, cpu, Register::A, Register::C)
}

/// sbc A, D
pub fn opcode_9a(cpu: &mut Cpu) -> (result: InsnResult)
    requires
        old(cpu)@.wf(),
    ensures
        (final(cpu)@, result) == spec_primary(old(cpu)@, 0x9a),
        final(cpu)@.wf(),
        result matches Ok(cycles) ==> cycles <= 24,
{
    alu8::op_registers(Alu8Op::Sbc, cpu, Register::A, Register::D)
}

/// sbc A, E
pub fn opcode_9b(cpu: &mut Cpu) -> (result: InsnResult)
    requires
        old(cpu)@.wf(),
    ensures
        (final(cpu)@, result) == spec_primary(old(cpu)@, 0x9b),
        final(cpu)@.wf(),
        result matches Ok(cycles) ==> cycles <= 24,
{
    alu8::op_registers(Alu8Op::Sbc, cpu, Register::A, Register::E)
}

/// sbc A, H
pub fn opcode_9c(cpu: &mut Cpu) -> (result: InsnResult)
    requires
        old(cpu)@.wf(),
    ensures
        (final(cpu)@, result) == spec_primary(old(cpu)@, 0x9c),
        final(cpu)@.wf(),
        result matches Ok(cycles) ==> cycles <= 24,
{
    alu8::op_registers(Alu8Op::Sbc, cpu, Register::A, Register::H)
}

/// sbc A, L
pub fn opcode_9d(cpu: &mut Cpu) -> (result: InsnResult)
    requires
        old(cpu)@.wf(),
    ensures
        (final(cpu)@, result) == spec_primary(old(cpu)@, 0x9d),
        final(cpu)@.wf(),
        result matches Ok(cycles) ==> cycles <= 24,
{
    alu8::op_registers(Alu8Op::Sbc, cpu, Register::A, Register::L)
}

/// sbc A, (HL)
pub fn opcode_9e(cpu: &mut Cpu) -> (result: InsnResult)
    requires
        old(cpu)@.wf(),
    ensures
        (final(cpu)@, result) == spec_primary(old(cpu)@, 0x9e),
        final(cpu)@.wf(),
        result matches Ok(cycles) ==> cycles <= 24,
{
    alu8::op_mem(Alu8Op::Sbc, cpu)
}

/// sbc A, A
pub fn opcode_9f(cpu: &mut Cpu) -> (result: InsnResult)
    requires
        old(cpu)@.wf(),
    ensures
        (final(cpu)@, result) == spec_primary(old(cpu)@, 0x9f),
        final(cpu)@.wf(),
        result matches Ok(cycles) ==> cycles <= 24,
{
    alu8::op_registers(Alu8Op::Sbc, cpu, Register::A, Register::A)
}

/// and A, B
pub fn opcode_a0(cpu: &mut Cpu) -> (result: InsnResult)
    requires
        old(cpu)@.wf(),
    ensures
        (final(cpu)@, result) == spec_primary(old(cpu)@, 0xa0),
        final(cpu)@.wf(),
        result matches Ok(cycles) ==> cycles <= 24,
{
    alu8::op_registers(Alu8Op::And, cpu, Register::A, Register::B)
}

/// and A, C
pub fn opcode_a1(cpu: &mut Cpu) -> (result: InsnResult)
    requires
        old(cpu)@.wf(),
    ensures
        (final(cpu)@, result) == spec_primary(old(cpu)@, 0xa1),
        final(cpu)@.wf(),
        result matches Ok(cycles) ==> cycles <= 24,
{
    alu8::op_registers(Alu8Op::And, cpu, Register::A, Register::C)
}

/// and A, D
pub fn opcode_a2(cpu: &mut Cpu) -> (result: InsnResult)
    requires
        old(cpu)@.wf(),
    ensures
        (final(cpu)@, result) == spec_primary(old(cpu)@, 0xa2),
        final(cpu)@.wf(),
        result matches Ok(cycles) ==> cycles <= 24,
{
    alu8::op_registers(Alu8Op::And, cpu, Register::A, Register::D)
}

/// and A, E
pub fn opcode_a3(cpu: &mut Cpu) -> (result: InsnResult)
    requires
        old(cpu)@.wf(),
    ensures
        (final(cpu)@, result) == spec_primary(old(cpu)@, 0xa3),
        final(cpu)@.wf(),
        result matches Ok(cycles) ==> cycles <= 24,
{
    alu8::op_registers(Alu8Op::And, cpu, Register::A, Register::E)
}

/// and A, H
pub fn opcode_a4(cpu: &mut Cpu) -> (result: InsnResult)
    requires
        old(cpu)@.wf(),
    ensures
        (final(cpu)@, result) == spec_primary(old(cpu)@, 0xa4),
        final(cpu)@.wf(),
        result matches Ok(cycles) ==> cycles <= 24,
{
    alu8::op_registers(Alu8Op::And, cpu, Register::A, Register::H)
}

/// and A, L
pub fn opcode_a5(cpu: &mut Cpu) -> (result: InsnResult)
    requires
        old(cpu)@.wf(),
    ensures
        (final(cpu)@, result) == spec_primary(old(cpu)@, 0xa5),
        final(cpu)@.wf(),
        result matches Ok(cycles) ==> cycles <= 24,
{
    alu8::op_registers(Alu8Op::And, cpu, Register::A, Register::L)
}

/// and A, (HL)
pub fn opcode_a6(cpu: &mut Cpu) -> (result: InsnResult)
    requires
        old(cpu)@.wf(),
    ensures
        (final(cpu)@, result) == spec_primary(old(cpu)@, 0xa6),
        final(cpu)@.wf(),
        result matches Ok(cycles) ==> cycles <= 24,
{
    alu8::op_mem(Alu8Op::And, cpu)
}

/// and A, A
pub fn opcode_a7(cpu: &mut Cpu) -> (result: InsnResult)
    requires
        old(cpu)@.wf(),
    ensures
        (final(cpu)@, result) == spec_primary(old(cpu)@, 0xa7),
        final(cpu)@.wf(),
        result matches Ok(cycles) ==> cycles <= 24,
{
    alu8::op_registers(Alu8Op::And, cpu, Register::A, Register::A)
}

/// xor A, B
pub fn opcode_a8(cpu: &mut Cpu) -> (result: InsnResult)
    requires
        old(cpu)@.wf(),
    ensures
        (final(cpu)@, result) == spec_primary(old(cpu)@, 0xa8),
        final(cpu)@.wf(),
        result matches Ok(cycles) ==> cycles <= 24,
{
    alu8::op_registers(Alu8Op::Xor, cpu, Register::A, Register::B)
}

/// xor A, C
pub fn opcode_a9(cpu: &mut Cpu) -> (result: InsnResult)
    requires
        old(cpu)@.wf(),
    ensures
        (final(cpu)@, result) == spec_primary(old(cpu)@, 0xa9),
        final(cpu)@.wf(),
        result matches Ok(cycles) ==> cycles <= 24,
{
    alu8::op_registers(Alu8Op::Xor, cpu, Register::A, Register::C)
}

/// xor A, D
pub fn opcode_aa(cpu: &mut Cpu) -> (result: InsnResult)
    requires
        old(cpu)@.wf(),
    ensures
        (final(cpu)@, result) == spec_primary(old(cpu)@, 0xaa),
        final(cpu)@.wf(),
        result matches Ok(cycles) ==> cycles <= 24,
{
    alu8::op_registers(Alu8Op::Xor, cpu, Register::A, Register::D)
}

/// xor A, E
pub fn opcode_ab(cpu: &mut Cpu) -> (result: InsnResult)
    requires
        old(cpu)@.wf(),
    ensures
        (final(cpu)@, result) == spec_primary(old(cpu)@, 0xab),
        final(cpu)@.wf(),
        result matches Ok(cycles) ==> cycles <= 24,
{
    alu8::op_registers(Alu8Op::Xor, cpu, Register::A, Register::E)
}

/// xor A, H
pub fn opcode_ac(cpu: &mut Cpu) -> (result: InsnResult)
    requires
        old(cpu)@.wf(),
    ensures
        (final(cpu)@, result) == spec_primary(old(cpu)@, 0xac),
        final(cpu)@.wf(),
        result matches Ok(cycles) ==> cycles <= 24,
{
    alu8::op_registers(Alu8Op::Xor, cpu, Register::A, Register::H)
}

/// xor A, L
pub fn opcode_ad(cpu: &mut Cpu) -> (result: InsnResult)
    requires
        old(cpu)@.wf(),
    ensures
        (final(cpu)@, result) == spec_primary(old(cpu)@, 0xad),
        final(cpu)@.wf(),
        result matches Ok(cycles) ==> cycles <= 24,
{
    alu8::op_registers(Alu8Op::Xor, cpu, Register::A, Register::L)
}

/// xor A, (HL)
pub fn opcode_ae(cpu: &mut Cpu) -> (result: InsnResult)
    requires
        old(cpu)@.wf(),
    ensures
        (final(cpu)@, result) == spec_primary(old(cpu)@, 0xae),
        final(cpu)@.wf(),
        result matches Ok(cycles) ==> cycles <= 24,
{
    alu8::op_mem(Alu8Op::Xor, cpu)
}

/// xor A, A
pub fn opcode_af(cpu: &mut Cpu) -> (result: InsnResult)
    requires
        old(cpu)@.wf(),
    ensures
        (final(cpu)@, result) == spec_primary(old(cpu)@, 0xaf),
        final(cpu)@.wf(),
        result matches Ok(cycles) ==> cycles <= 24,
{
    alu8::op_registers(Alu8Op::Xor, cpu, Register::A, Register::A)
}

/// or A, B
pub fn opcode_b0(cpu: &mut Cpu) -> (result: InsnResult)
    requires
        old(cpu)@.wf(),
    ensures
        (final(cpu)@, result) == spec_primary(old(cpu)@, 0xb0),
        final(cpu)@.wf(),
        result matches Ok(cycles) ==> cycles <= 24,
{
    alu8::op_registers(Alu8Op::Or, cpu, Register::A, Register::B)
}

/// or A, C
pub fn opcode_b1(cpu: &mut Cpu) -> (result: InsnResult)
    requires
        old(cpu)@.wf(),
    ensures
        (final(cpu)@, result) == spec_primary(old(cpu)@, 0xb1),
        final(cpu)@.wf(),
        result matches Ok(cycles) ==> cycles <= 24,
{
    alu8::op_registers(Alu8Op::Or, cpu, Register::A, Register::C)
}

/// or A, D
pub fn opcode_b2(cpu: &mut Cpu) -> (result: InsnResult)
    requires
        old(cpu)@.wf(),
    ensures
        (final(cpu)@, result) == spec_primary(old(cpu)@, 0xb2),
        final(cpu)@.wf(),
        result matches Ok(cycles) ==> cycles <= 24,
{
    alu8::op_registers(Alu8Op::Or, cpu, Register::A, Register::D)
}

/// or A, E
pub fn opcode_b3(cpu: &mut Cpu) -> (result: InsnResult)
    requires
        old(cpu)@.wf(),
    ensures
        (final(cpu)@, result) == spec_primary(old(cpu)@, 0xb3),
        final(cpu)@.wf(),
        result matches Ok(cycles) ==> cycles <= 24,
{
    alu8::op_registers(Alu8Op::Or, cpu, Register::A, Register::E)
}

/// or A, H
pub fn opcode_b4(cpu: &mut Cpu) -> (result: InsnResult)
    requires
        old(cpu)@.wf(),
    ensures
        (final(cpu)@, result) == spec_primary(old(cpu)@, 0xb4),
        final(cpu)@.wf(),
        result matches Ok(cycles) ==> cycles <= 24,
{
    alu8::op_registers(Alu8Op::Or, cpu, Register::A, Register::H)
}

/// or A, L
pub fn opcode_b5(cpu: &mut Cpu) -> (result: InsnResult)
    requires
        old(cpu)@.wf(),
    ensures
        (final(cpu)@, result) == spec_primary(old(cpu)@, 0xb5),
        final(cpu)@.wf(),
        result matches Ok(cycles) ==> cycles <= 24,
{
    alu8::op_registers(Alu8Op::Or, cpu, Register::A, Register::L)
}

/// or A, (HL)
pub fn opcode_b6(cpu: &mut Cpu) -> (result: InsnResult)
    requires
        old(cpu)@.wf(),
    ensures
        (final(cpu)@, result) == spec_primary(old(cpu)@, 0xb6),
        final(cpu)@.wf(),
        result matches Ok(cycles) ==> cycles <= 24,
{
    alu8::op_mem(Alu8Op::Or, cpu)
}

/// or A, A
pub fn opcode_b7(cpu: &mut Cpu) -> (result: InsnResult)
    requires
        old(cpu)@.wf(),
    ensures
        (final(cpu)@, result) == spec_primary(old(cpu)@, 0xb7),
        final(cpu)@.wf(),
        result matches Ok(cycles) ==> cycles <= 24,
{
    alu8::op_registers(Alu8Op::Or, cpu, Register::A, Register::A)
}

/// cp A, B
pub fn opcode_b8(cpu: &mut Cpu) -> (result: InsnResult)
    requires
        old(cpu)@.wf(),
    ensures
        (final(cpu)@, result) == spec_primary(old(cpu)@, 0xb8),
        final(cpu)@.wf(),
        result matches Ok(cycles) ==> cycles <= 24,
{
    alu8::op_registers(Alu8Op::Cp, cpu, Register::A, Register::B)
}

/// cp A, C
pub fn opcode_b9(cpu: &mut Cpu) -> (result: InsnResult)
    requires
        old(cpu)@.wf(),
    ensures
        (final(cpu)@, result) == spec_primary(old(cpu)@, 0xb9),
        final(cpu)@.wf(),
        result matches Ok(cycles) ==> cycles <= 24,
{
    alu8::op_registers(Alu8Op::Cp, cpu, Register::A, Register::C)
}

/// cp A, D
pub fn opcode_ba(cpu: &mut Cpu) -> (result: InsnResult)
    requires
        old(cpu)@.wf(),
    ensures
        (final(cpu)@, result) == spec_primary(old(cpu)@, 0xba),
        final(cpu)@.wf(),
        result matches Ok(cycles) ==> cycles <= 24,
{
    alu8::op_registers(Alu8Op::Cp, cpu, Register::A, Register::D)
}

/// cp A, E
pub fn opcode_bb(cpu: &mut Cpu) -> (result: InsnResult)
    requires
        old(cpu)@.wf(),
    ensures
        (final(cpu)@, result) == spec_primary(old(cpu)@, 0xbb),
        final(cpu)@.wf(),
        result matches Ok(cycles) ==> cycles <= 24,
{
    alu8::op_registers(Alu8Op::Cp, cpu, Register::A, Register::E)
}

/// cp A, H
pub fn opcode_bc(cpu: &mut Cpu) -> (result: InsnResult)
    requires
        old(cpu)@.wf(),
    ensures
        (final(cpu)@, result) == spec_primary(old(cpu)@, 0xbc),
        final(cpu)@.wf(),
        result matches Ok(cycles) ==> cycles <= 24,
{
    alu8::op_registers(Alu8Op::Cp, cpu, Register::A, Register::H)
}

/// cp A, L
pub fn opcode_bd(cpu: &mut Cpu) -> (result: InsnResult)
    requires
        old(cpu)@.wf(),
    ensures
        (final(cpu)@, result) == spec_primary(old(cpu)@, 0xbd),
        final(cpu)@.wf(),
        result matches Ok(cycles) ==> cycles <= 24,
{
    alu8::op_registers(Alu8Op::Cp, cpu, Register::A, Register::L)
}

/// cp A, (HL)
pub fn opcode_be(cpu: &mut Cpu) -> (result: InsnResult)
    requires
        old(cpu)@.wf(),
    ensures
        (final(cpu)@, result) == spec_primary(old(cpu)@, 0xbe),
        final(cpu)@.wf(),
        result matches Ok(cycles) ==> cycles <= 24,
{
    alu8::op_mem(Alu8Op::Cp, cpu)
}

/// cp A, A
pub fn opcode_bf(cpu: &mut Cpu) -> (result: InsnResult)
    requires
        old(cpu)@.wf(),
    ensures
        (final(cpu)@, result) == spec_primary(old(cpu)@, 0xbf),
        final(cpu)@.wf(),
        result matches Ok(cycles) ==> cycles <= 24,
{
    alu8::op_registers(Alu8Op::Cp, cpu, Register::A, Register::A)
}

/// ret NZ
pub fn opcode_c0(cpu: &mut Cpu) -> (result: InsnResult)
    requires
        old(cpu)@.wf(),
    ensures
        (final(cpu)@, result) == spec_primary(old(cpu)@, 0xc0),
        final(cpu)@.wf(),
        result matches Ok(cycles) ==> cycles <= 24,
{
    ret_conditional(cpu, Flag::Z, false)
}

/// pop BC
pub fn opcode_c1(cpu: &mut Cpu) -> (result: InsnResult)
    requires
        old(cpu)@.wf(),
    ensures
        (final(cpu)@, result) == spec_primary(old(cpu)@, 0xc1),
        final(cpu)@.wf(),
        result matches Ok(cycles) ==> cycles <= 24,
{
    pop_nn(cpu, Register::BC)
}

/// jp NZ, nn
pub fn opcode_c2(cpu: &mut Cpu) -> (result: InsnResult)
    requires
        old(cpu)@.wf(),
    ensures
        (final(cpu)@, result) == spec_primary(old(cpu)@, 0xc2),
        final(cpu)@.wf(),
        result matches Ok(cycles) ==> cycles <= 24,
{
    jump_conditional(cpu, Flag::Z, false)
}

/// jp nn
pub fn opcode_c3(cpu: &mut Cpu) -> (result: InsnResult)
    requires
        old(cpu)@.wf(),
    ensures
        (final(cpu)@, result) == spec_primary(old(cpu)@, 0xc3),
        final(cpu)@.wf(),
        result matches Ok(cycles) ==> cycles <= 24,
{
    jump_if(cpu, true)
}

/// call NZ, nn
pub fn opcode_c4(cpu: &mut Cpu) -> (result: InsnResult)
    requires
        old(cpu)@.wf(),
    ensures
        (final(cpu)@, result) == spec_primary(old(cpu)@, 0xc4),
        final(cpu)@.wf(),
        result matches Ok(cycles) ==> cycles <= 24,
{
    call_conditional(cpu, Flag::Z, false)
}

/// push BC
pub fn opcode_c5(cpu: &mut Cpu) -> (result: InsnResult)
    requires
        old(cpu)@.wf(),
    ensures
        (final(cpu)@, result) == spec_primary(old(cpu)@, 0xc5),
        final(cpu)@.wf(),
        result matches Ok(cycles) ==> cycles <= 24,
{
    push_nn(cpu, Register::BC)
}

/// add A, #
pub fn opcode_c6(cpu: &mut Cpu) -> (result: InsnResult)
    requires
        old(cpu)@.wf(),
    ensures
        (final(cpu)@, result) == spec_primary(old(cpu)@, 0xc6),
        final(cpu)@.wf(),
        result matches Ok(cycles) ==> cycles <= 24,
{
    alu8::op_imm(Alu8Op::Add, cpu)
}

/// rst 0x00
pub fn opcode_c7(cpu: &mut Cpu) -> (result: InsnResult)
    requires
        old(cpu)@.wf(),
    ensures
        (final(cpu)@, result) == spec_primary(old(cpu)@, 0xc7),
        final(cpu)@.wf(),
        result matches Ok(cycles) ==> cycles <= 24,
{
    restart(cpu, 0x00)
}

/// ret Z
pub fn opcode_c8(cpu: &mut Cpu) -> (result: InsnResult)
    requires
        old(cpu)@.wf(),
    ensures
        (final(cpu)@, result) == spec_primary(old(cpu)@, 0xc8),
        final(cpu)@.wf(),
        result matches Ok(cycles) ==> cycles <= 24,
{
    ret_conditional(cpu, Flag::Z, true)
}

/// ret
pub fn opcode_c9(cpu: &mut Cpu) -> (result: InsnResult)
    requires
        old(cpu)@.wf(),
    ensures
        (final(cpu)@, result) == spec_primary(old(cpu)@, 0xc9),
        final(cpu)@.wf(),
        result matches Ok(cycles) ==> cycles <= 24,
{
    ret_if(cpu, true)
}

/// jp Z, nn
pub fn opcode_ca(cpu: &mut Cpu) -> (result: InsnResult)
    requires
        old(cpu)@.wf(),
    ensures
        (final(cpu)@, result) == spec_primary(old(cpu)@, 0xca),
        final(cpu)@.wf(),
        result matches Ok(cycles) ==> cycles <= 24,
{
    jump_conditional(cpu, Flag::Z, true)
}

/// call Z, nn
pub fn opcode_cc(cpu: &mut Cpu) -> (result: InsnResult)
    requires
        old(cpu)@.wf(),
    ensures
        (final(cpu)@, result) == spec_primary(old(cpu)@, 0xcc),
        final(cpu)@.wf(),
        result matches Ok(cycles) ==> cycles <= 24,
{
    call_conditional(cpu, Flag::Z, true)
}

/// call nn
pub fn opcode_cd(cpu: &mut Cpu) -> (result: InsnResult)
    requires
        old(cpu)@.wf(),
    ensures
        (final(cpu)@, result) == spec_primary(old(cpu)@, 0xcd),
        final(cpu)@.wf(),
        result matches Ok(cycles) ==> cycles <= 24,
{
    call_if(cpu, true)
}

/// adc A, #
pub fn opcode_ce(cpu: &mut Cpu) -> (result: InsnResult)
    requires
        old(cpu)@.wf(),
    ensures
        (final(cpu)@, result) == spec_primary(old(cpu)@, 0xce),
        final(cpu)@.wf(),
        result matches Ok(cycles) ==> cycles <= 24,
{
    alu8::op_imm(Alu8Op::Adc, cpu)
}

/// rst 0x08
pub fn opcode_cf(cpu: &mut Cpu) -> (result: InsnResult)
    requires
        old(cpu)@.wf(),
    ensures
        (final(cpu)@, result) == spec_primary(old(cpu)@, 0xcf),
        final(cpu)@.wf(),
        result matches Ok(cycles) ==> cycles <= 24,
{
    restart(cpu, 0x08)
}

/// ret NC
pub fn opcode_d0(cpu: &mut Cpu) -> (result: InsnResult)
    requires
        old(cpu)@.wf(),
    ensures
        (final(cpu)@, result) == spec_primary(old(cpu)@, 0xd0),
        final(cpu)@.wf(),
        result matches Ok(cycles) ==> cycles <= 24,
{
    ret_conditional(cpu, Flag::C, false)
}

/// pop DE
pub fn opcode_d1(cpu: &mut Cpu) -> (result: InsnResult)
    requires
        old(cpu)@.wf(),
    ensures
        (final(cpu)@, result) == spec_primary(old(cpu)@, 0xd1),
        final(cpu)@.wf(),
        result matches Ok(cycles) ==> cycles <= 24,
{
    pop_nn(cpu, Register::DE)
}

/// jp NC, nn
pub fn opcode_d2(cpu: &mut Cpu) -> (result: InsnResult)
    requires
        old(cpu)@.wf(),
    ensures
        (final(cpu)@, result) == spec_primary(old(cpu)@, 0xd2),
        final(cpu)@.wf(),
        result matches Ok(cycles) ==> cycles <= 24,
{
    jump_conditional(cpu, Flag::C, false)
}

/// call NC, nn
pub fn opcode_d4(cpu: &mut Cpu) -> (result: InsnResult)
    requires
        old(cpu)@.wf(),
    ensures
        (final(cpu)@, result) == spec_primary(old(cpu)@, 0xd4),
        final(cpu)@.wf(),
        result matches Ok(cycles) ==> cycles <= 24,
{
    call_conditional(cpu, Flag::C, false)
}

/// push DE
pub fn opcode_d5(cpu: &mut Cpu) -> (result: InsnResult)
    requires
        old(cpu)@.wf(),
    ensures
        (final(cpu)@, result) == spec_primary(old(cpu)@, 0xd5),
        final(cpu)@.wf(),
        result matches Ok(cycles) ==> cycles <= 24,
{
    push_nn(cpu, Register::DE)
}

/// sub A, #
pub fn opcode_d6(cpu: &mut Cpu) -> (result: InsnResult)
    requires
        old(cpu)@.wf(),
    ensures
        (final(cpu)@, result) == spec_primary(old(cpu)@, 0xd6),
        final(cpu)@.wf(),
        result matches Ok(cycles) ==> cycles <= 24,
{
    alu8::op_imm(Alu8Op::Sub, cpu)
}

/// rst 0x10
pub fn opcode_d7(cpu: &mut Cpu) -> (result: InsnResult)
    requires
        old(cpu)@.wf(),
    ensures
        (final(cpu)@, result) == spec_primary(old(cpu)@, 0xd7),
        final(cpu)@.wf(),
        result matches Ok(cycles) ==> cycles <= 24,
{
    restart(cpu, 0x10)
}

/// ret C
pub fn opcode_d8(cpu: &mut Cpu) -> (result: InsnResult)
    requires
        old(cpu)@.wf(),
    ensures
        (final(cpu)@, result) == spec_primary(old(cpu)@, 0xd8),
        final(cpu)@.wf(),
        result matches Ok(cycles) ==> cycles <= 24,
{
    ret_conditional(cpu, Flag::C, true)
}

/// reti
pub fn opcode_d9(cpu: &mut Cpu) -> (result: InsnResult)
    requires
        old(cpu)@.wf(),
    ensures
        (final(cpu)@, result) == spec_primary(old(cpu)@, 0xd9),
        final(cpu)@.wf(),
        result matches Ok(cycles) ==> cycles <= 24,
{
    return_from_interrupt(cpu)
}

/// jp C, nn
pub fn opcode_da(cpu: &mut Cpu) -> (result: InsnResult)
    requires
        old(cpu)@.wf(),
    ensures
        (final(cpu)@, result) == spec_primary(old(cpu)@, 0xda),
        final(cpu)@.wf(),
        result matches Ok(cycles) ==> cycles <= 24,
{
    jump_conditional(cpu, Flag::C, true)
}

/// call C, nn
pub fn opcode_dc(cpu: &mut Cpu) -> (result: InsnResult)
    requires
        old(cpu)@.wf(),
    ensures
        (final(cpu)@, result) == spec_primary(old(cpu)@, 0xdc),
        final(cpu)@.wf(),
        result matches Ok(cycles) ==> cycles <= 24,
{
    call_conditional(cpu, Flag::C, true)
}

/// sbc A, #
pub fn opcode_de(cpu: &mut Cpu) -> (result: InsnResult)
    requires
        old(cpu)@.wf(),
    ensures
        (final(cpu)@, result) == spec_primary(old(cpu)@, 0xde),
        final(cpu)@.wf(),
        result matches Ok(cycles) ==> cycles <= 24,
{
    alu8::op_imm(Alu8Op::Sbc, cpu)
}

/// rst 0x18
pub fn opcode_df(cpu: &mut Cpu) -> (result: InsnResult)
    requires
        old(cpu)@.wf(),
    ensures
        (final(cpu)@, result) == spec_primary(old(cpu)@, 0xdf),
        final(cpu)@.wf(),
        result matches Ok(cycles) ==> cycles <= 24,
{
    restart(cpu, 0x18)
}

/// ld (n), A
pub fn opcode_e0(cpu: &mut Cpu) -> (result: InsnResult)
    requires
        old(cpu)@.wf(),
    ensures
        (final(cpu)@, result) == spec_primary(old(cpu)@, 0xe0),
        final(cpu)@.wf(),
        result matches Ok(cycles) ==> cycles <= 24,
{
    store_high_imm(cpu)
}

/// pop HL
pub fn opcode_e1(cpu: &mut Cpu) -> (result: InsnResult)
    requires
        old(cpu)@.wf(),
    ensures
        (final(cpu)@, result) == spec_primary(old(cpu)@, 0xe1),
        final(cpu)@.wf(),
        result matches Ok(cycles) ==> cycles <= 24,
{
    pop_nn(cpu, Register::HL)
}

/// ld (C), A
pub fn opcode_e2(cpu: &mut Cpu) -> (result: InsnResult)
    requires
        old(cpu)@.wf(),
    ensures
        (final(cpu)@, result) == spec_primary(old(cpu)@, 0xe2),
        final(cpu)@.wf(),
        result matches Ok(cycles) ==> cycles <= 24,
{
    store_high_c(cpu)
}

/// push HL
pub fn opcode_e5(cpu: &mut Cpu) -> (result: InsnResult)
    requires
        old(cpu)@.wf(),
    ensures
        (final(cpu)@, result) == spec_primary(old(cpu)@, 0xe5),
        final(cpu)@.wf(),
        result matches Ok(cycles) ==> cycles <= 24,
{
    push_nn(cpu, Register::HL)
}

/// and A, #
pub fn opcode_e6(cpu: &mut Cpu) -> (result: InsnResult)
    requires
        old(cpu)@.wf(),
    ensures
        (final(cpu)@, result) == spec_primary(old(cpu)@, 0xe6),
        final(cpu)@.wf(),
        result matches Ok(cycles) ==> cycles <= 24,
{
    alu8::op_imm(Alu8Op::And, cpu)
}

/// rst 0x20
pub fn opcode_e7(cpu: &mut Cpu) -> (result: InsnResult)
    requires
        old(cpu)@.wf(),
    ensures
        (final(cpu)@, result) == spec_primary(old(cpu)@, 0xe7),
        final(cpu)@.wf(),
        result matches Ok(cycles) ==> cycles <= 24,
{
    restart(cpu, 0x20)
}

/// add SP, n
pub fn opcode_e8(cpu: &mut Cpu) -> (result: InsnResult)
    requires
        old(cpu)@.wf(),
    ensures
        (final(cpu)@, result) == spec_primary(old(cpu)@, 0xe8),
        final(cpu)@.wf(),
        result matches Ok(cycles) ==> cycles <= 24,
{
    alu16::op_imm(Alu16Op::Add, cpu, Register::SP)
}

/// jp (HL)
pub fn opcode_e9(cpu: &mut Cpu) -> (result: InsnResult)
    requires
        old(cpu)@.wf(),
    ensures
        (final(cpu)@, result) == spec_primary(old(cpu)@, 0xe9),
        final(cpu)@.wf(),
        result matches Ok(cycles) ==> cycles <= 24,
{
    let target = cpu.registers.get(Register::HL);
    cpu.registers.set(Register::PC, target);
    Ok(4)
}

/// ld (nn), A
pub fn opcode_ea(cpu: &mut Cpu) -> (result: InsnResult)
    requires
        old(cpu)@.wf(),
    ensures
        (final(cpu)@, result) == spec_primary(old(cpu)@, 0xea),
        final(cpu)@.wf(),
        result matches Ok(cycles) ==> cycles <= 24,
{
    store_absolute(cpu)
}

/// xor A, #
pub fn opcode_ee(cpu: &mut Cpu) -> (result: InsnResult)
    requires
        old(cpu)@.wf(),
    ensures
        (final(cpu)@, result) == spec_primary(old(cpu)@, 0xee),
        final(cpu)@.wf(),
        result matches Ok(cycles) ==> cycles <= 24,
{
    alu8::op_imm(Alu8Op::Xor, cpu)
}

/// rst 0x28
pub fn opcode_ef(cpu: &mut Cpu) -> (result: InsnResult)
    requires
        old(cpu)@.wf(),
    ensures
        (final(cpu)@, result) == spec_primary(old(cpu)@, 0xef),
        final(cpu)@.wf(),
        result matches Ok(cycles) ==> cycles <= 24,
{
    restart(cpu, 0x28)
}

/// ld A, (n)
pub fn opcode_f0(cpu: &mut Cpu) -> (result: InsnResult)
    requires
        old(cpu)@.wf(),
    ensures
        (final(cpu)@, result) == spec_primary(old(cpu)@, 0xf0),
        final(cpu)@.wf(),
        result matches Ok(cycles) ==> cycles <= 24,
{
    load_high_imm(cpu)
}

/// pop AF
pub fn opcode_f1(cpu: &mut Cpu) -> (result: InsnResult)
    requires
        old(cpu)@.wf(),
    ensures
        (final(cpu)@, result) == spec_primary(old(cpu)@, 0xf1),
        final(cpu)@.wf(),
        result matches Ok(cycles) ==> cycles <= 24,
{
    pop_nn(cpu, Register::AF)
}

/// ld A, (C)
pub fn opcode_f2(cpu: &mut Cpu) -> (result: InsnResult)
    requires
        old(cpu)@.wf(),
    ensures
        (final(cpu)@, result) == spec_primary(old(cpu)@, 0xf2),
        final(cpu)@.wf(),
        result matches Ok(cycles) ==> cycles <= 24,
{
    load_high_c(cpu)
}

/// di
pub fn opcode_f3(cpu: &mut Cpu) -> (result: InsnResult)
    requires
        old(cpu)@.wf(),
    ensures
        (final(cpu)@, result) == spec_primary(old(cpu)@, 0xf3),
        final(cpu)@.wf(),
        result matches Ok(cycles) ==> cycles <= 24,
{
    cpu.registers.set_ime(false);
    Ok(4)
}

/// push AF
pub fn opcode_f5(cpu: &mut Cpu) -> (result: InsnResult)
    requires
        old(cpu)@.wf(),
    ensures
        (final(cpu)@, result) == spec_primary(old(cpu)@, 0xf5),
        final(cpu)@.wf(),
        result matches Ok(cycles) ==> cycles <= 24,
{
    push_nn(cpu, Register::AF)
}

/// or A, #
pub fn opcode_f6(cpu: &mut Cpu) -> (result: InsnResult)
    requires
        old(cpu)@.wf(),
    ensures
        (final(cpu)@, result) == spec_primary(old(cpu)@, 0xf6),
        final(cpu)@.wf(),
        result matches Ok(cycles) ==> cycles <= 24,
{
    alu8::op_imm(Alu8Op::Or, cpu)
}

/// rst 0x30
pub fn opcode_f7(cpu: &mut Cpu) -> (result: InsnResult)
    requires
        old(cpu)@.wf(),
    ensures
        (final(cpu)@, result) == spec_primary(old(cpu)@, 0xf7),
        final(cpu)@.wf(),
        result matches Ok(cycles) ==> cycles <= 24,
{
    restart(cpu, 0x30)
}

/// ld HL, SP+n
pub fn opcode_f8(cpu: &mut Cpu) -> (result: InsnResult)
    requires
        old(cpu)@.wf(),
    ensures
        (final(cpu)@, result) == spec_primary(old(cpu)@, 0xf8),
        final(cpu)@.wf(),
        result matches Ok(cycles) ==> cycles <= 24,
{
    load_hl_sp_offset(cpu)
}

/// ld SP, HL
pub fn opcode_f9(cpu: &mut Cpu) -> (result: InsnResult)
    requires
        old(cpu)@.wf(),
    ensures
        (final(cpu)@, result) == spec_primary(old(cpu)@, 0xf9),
        final(cpu)@.wf(),
        result matches Ok(cycles) ==> cycles <= 24,
{
    move_registers(cpu, Register::SP, Register::HL)
}

/// ld A, (nn)
pub fn opcode_fa(cpu: &mut Cpu) -> (result: InsnResult)
    requires
        old(cpu)@.wf(),
    ensures
        (final(cpu)@, result) == spec_primary(old(cpu)@, 0xfa),
        final(cpu)@.wf(),
        result matches Ok(cycles) ==> cycles <= 24,
{
    load_absolute(cpu)
}

/// ei
pub fn opcode_fb(cpu: &mut Cpu) -> (result: InsnResult)
    requires
        old(cpu)@.wf(),
    ensures
        (final(cpu)@, result) == spec_primary(old(cpu)@, 0xfb),
        final(cpu)@.wf(),
        result matches Ok(cycles) ==> cycles <= 24,
{
    cpu.toggle_ime_delayed();
    Ok(4)
}

/// cp A, #
pub fn opcode_fe(cpu: &mut Cpu) -> (result: InsnResult)
    requires
        old(cpu)@.wf(),
    ensures
        (final(cpu)@, result) == spec_primary(old(cpu)@, 0xfe),
        final(cpu)@.wf(),
        result matches Ok(cycles) ==> cycles <= 24,
{
    alu8::op_imm(Alu8Op::Cp, cpu)
}

/// rst 0x38
pub fn opcode_ff(cpu: &mut Cpu) -> (result: InsnResult)
    requires
        old(cpu)@.wf(),
    ensures
        (final(cpu)@, result) == spec_primary(old(cpu)@, 0xff),
        final(cpu)@.wf(),
        result matches Ok(cycles) ==> cycles <= 24,
{
    restart(cpu, 0x38)
}

/// rlc B
pub fn opcode_cb00(cpu: &mut Cpu) -> (result: InsnResult)
    requires
        old(cpu)@.wf(),
    ensures
        (final(cpu)@, result) == spec_extended(old(cpu)@, 0x00),
        final(cpu)@.wf(),
        result matches Ok(cycles) ==> cycles <= 24,
{
    register_op(cpu, ByteOp::Rlc, Register::B)
}

/// rlc C
pub fn opcode_cb01(cpu: &mut Cpu) -> (result: InsnResult)
    requires
        old(cpu)@.wf(),
    ensures
        (final(cpu)@, result) == spec_extended(old(cpu)@, 0x01),
        final(cpu)@.wf(),
        result matches Ok(cycles) ==> cycles <= 24,
{
    register_op(cpu, ByteOp::Rlc, Register::C)
}

/// rlc D
pub fn opcode_cb02(cpu: &mut Cpu) -> (result: InsnResult)
    requires
        old(cpu)@.wf(),
    ensures
        (final(cpu)@, result) == spec_extended(old(cpu)@, 0x02),
        final(cpu)@.wf(),
        result matches Ok(cycles) ==> cycles <= 24,
{
    register_op(cpu, ByteOp::Rlc, Register::D)
}

/// rlc E
pub fn opcode_cb03(cpu: &mut Cpu) -> (result: InsnResult)
    requires
        old(cpu)@.wf(),
    ensures
        (final(cpu)@, result) == spec_extended(old(cpu)@, 0x03),
        final(cpu)@.wf(),
        result matches Ok(cycles) ==> cycles <= 24,
{
    register_op(cpu, ByteOp::Rlc, Register::E)
}

/// rlc H
pub fn opcode_cb04(cpu: &mut Cpu) -> (result: InsnResult)
    requires
        old(cpu)@.wf(),
    ensures
        (final(cpu)@, result) == spec_extended(old(cpu)@, 0x04),
        final(cpu)@.wf(),
        result matches Ok(cycles) ==> cycles <= 24,
{
    register_op(cpu, ByteOp::Rlc, Register::H)
}

/// rlc L
pub fn opcode_cb05(cpu: &mut Cpu) -> (result: InsnResult)
    requires
        old(cpu)@.wf(),
    ensures
        (final(cpu)@, result) == spec_extended(old(cpu)@, 0x05),
        final(cpu)@.wf(),
        result matches Ok(cycles) ==> cycles <= 24,
{
    register_op(cpu, ByteOp::Rlc, Register::L)
}

/// rlc (HL)
pub fn opcode_cb06(cpu: &mut Cpu) -> (result: InsnResult)
    requires
        old(cpu)@.wf(),
    ensures
        (final(cpu)@, result) == spec_extended(old(cpu)@, 0x06),
        final(cpu)@.wf(),
        result matches Ok(cycles) ==> cycles <= 24,
{
    memory_op(cpu, ByteOp::Rlc)
}

/// rlc A
pub fn opcode_cb07(cpu: &mut Cpu) -> (result: InsnResult)
    requires
        old(cpu)@.wf(),
    ensures
        (final(cpu)@, result) == spec_extended(old(cpu)@, 0x07),
        final(cpu)@.wf(),
        result matches Ok(cycles) ==> cycles <= 24,
{
    register_op(cpu, ByteOp::Rlc, Register::A)
}

/// rrc B
pub fn opcode_cb08(cpu: &mut Cpu) -> (result: InsnResult)
    requires
        old(cpu)@.wf(),
    ensures
        (final(cpu)@, result) == spec_extended(old(cpu)@, 0x08),
        final(cpu)@.wf(),
        result matches Ok(cycles) ==> cycles <= 24,
{
    register_op(cpu, ByteOp::Rrc, Register::B)
}

/// rrc C
pub fn opcode_cb09(cpu: &mut Cpu) -> (result: InsnResult)
    requires
        old(cpu)@.wf(),
    ensures
        (final(cpu)@, result) == spec_extended(old(cpu)@, 0x09),
        final(cpu)@.wf(),
        result matches Ok(cycles) ==> cycles <= 24,
{
    register_op(cpu, ByteOp::Rrc, Register::C)
}

/// rrc D
pub fn opcode_cb0a(cpu: &mut Cpu) -> (result: InsnResult)
    requires
        old(cpu)@.wf(),
    ensures
        (final(cpu)@, result) == spec_extended(old(cpu)@, 0x0a),
        final(cpu)@.wf(),
        result matches Ok(cycles) ==> cycles <= 24,
{
    register_op(cpu, ByteOp::Rrc, Register::D)
}

/// rrc E
pub fn opcode_cb0b(cpu: &mut Cpu) -> (result: InsnResult)
    requires
        old(cpu)@.wf(),
    ensures
        (final(cpu)@, result) == spec_extended(old(cpu)@, 0x0b),
        final(cpu)@.wf(),
        result matches Ok(cycles) ==> cycles <= 24,
{
    register_op(cpu, ByteOp::Rrc, Register::E)
}

/// rrc H
pub fn opcode_cb0c(cpu: &mut Cpu) -> (result: InsnResult)
    requires
        old(cpu)@.wf(),
    ensures
        (final(cpu)@, result) == spec_extended(old(cpu)@, 0x0c),
        final(cpu)@.wf(),
        result matches Ok(cycles) ==> cycles <= 24,
{
    register_op(cpu, ByteOp::Rrc, Register::H)
}

/// rrc L
pub fn opcode_cb0d(cpu: &mut Cpu) -> (result: InsnResult)
    requires
        old(cpu)@.wf(),
    ensures
        (final(cpu)@, result) == spec_extended(old(cpu)@, 0x0d),
        final(cpu)@.wf(),
        result matches Ok(cycles) ==> cycles <= 24,
{
    register_op(cpu, ByteOp::Rrc, Register::L)
}

/// rrc (HL)
pub fn opcode_cb0e(cpu: &mut Cpu) -> (result: InsnResult)
    requires
        old(cpu)@.wf(),
    ensures
        (final(cpu)@, result) == spec_extended(old(cpu)@, 0x0e),
        final(cpu)@.wf(),
        result matches Ok(cycles) ==> cycles <= 24,
{
    memory_op(cpu, ByteOp::Rrc)
}

/// rrc A
pub fn opcode_cb0f(cpu: &mut Cpu) -> (result: InsnResult)
    requires
        old(cpu)@.wf(),
    ensures
        (final(cpu)@, result) == spec_extended(old(cpu)@, 0x0f),
        final(cpu)@.wf(),
        result matches Ok(cycles) ==> cycles <= 24,
{
    register_op(cpu, ByteOp::Rrc, Register::A)
}

/// rl B
pub fn opcode_cb10(cpu: &mut Cpu) -> (result: InsnResult)
    requires
        old(cpu)@.wf(),
    ensures
        (final(cpu)@, result) == spec_extended(old(cpu)@, 0x10),
        final(cpu)@.wf(),
        result matches Ok(cycles) ==> cycles <= 24,
{
    register_op(cpu, ByteOp::Rl, Register::B)
}

/// rl C
pub fn opcode_cb11(cpu: &mut Cpu) -> (result: InsnResult)
    requires
        old(cpu)@.wf(),
    ensures
        (final(cpu)@, result) == spec_extended(old(cpu)@, 0x11),
        final(cpu)@.wf(),
        result matches Ok(cycles) ==> cycles <= 24,
{
    register_op(cpu, ByteOp::Rl, Register::C)
}

/// rl D
pub fn opcode_cb12(cpu: &mut Cpu) -> (result: InsnResult)
    requires
        old(cpu)@.wf(),
    ensures
        (final(cpu)@, result) == spec_extended(old(cpu)@, 0x12),
        final(cpu)@.wf(),
        result matches Ok(cycles) ==> cycles <= 24,
{
    register_op(cpu, ByteOp::Rl, Register::D)
}

/// rl E
pub fn opcode_cb13(cpu: &mut Cpu) -> (result: InsnResult)
    requires
        old(cpu)@.wf(),
    ensures
        (final(cpu)@, result) == spec_extended(old(cpu)@, 0x13),
        final(cpu)@.wf(),
        result matches Ok(cycles) ==> cycles <= 24,
{
    register_op(cpu, ByteOp::Rl, Register::E)
}

/// rl H
pub fn opcode_cb14(cpu: &mut Cpu) -> (result: InsnResult)
    requires
        old(cpu)@.wf(),
    ensures
        (final(cpu)@, result) == spec_extended(old(cpu)@, 0x14),
        final(cpu)@.wf(),
        result matches Ok(cycles) ==> cycles <= 24,
{
    register_op(cpu, ByteOp::Rl, Register::H)
}

/// rl L
pub fn opcode_cb15(cpu: &mut Cpu) -> (result: InsnResult)
    requires
        old(cpu)@.wf(),
    ensures
        (final(cpu)@, result) == spec_extended(old(cpu)@, 0x15),
        final(cpu)@.wf(),
        result matches Ok(cycles) ==> cycles <= 24,
{
    register_op(cpu, ByteOp::Rl, Register::L)
}

/// rl (HL)
pub fn opcode_cb16(cpu: &mut Cpu) -> (result: InsnResult)
    requires
        old(cpu)@.wf(),
    ensures
        (final(cpu)@, result) == spec_extended(old(cpu)@, 0x16),
        final(cpu)@.wf(),
        result matches Ok(cycles) ==> cycles <= 24,
{
    memory_op(cpu, ByteOp::Rl)
}

/// rl A
pub fn opcode_cb17(cpu: &mut Cpu) -> (result: InsnResult)
    requires
        old(cpu)@.wf(),
    ensures
        (final(cpu)@, result) == spec_extended(old(cpu)@, 0x17),
        final(cpu)@.wf(),
        result matches Ok(cycles) ==> cycles <= 24,
{
    register_op(cpu, ByteOp::Rl, Register::A)
}

/// rr B
pub fn opcode_cb18(cpu: &mut Cpu) -> (result: InsnResult)
    requires
        old(cpu)@.wf(),
    ensures
        (final(cpu)@, result) == spec_extended(old(cpu)@, 0x18),
        final(cpu)@.wf(),
        result matches Ok(cycles) ==> cycles <= 24,
{
    register_op(cpu, ByteOp::Rr, Register::B)
}

/// rr C
pub fn opcode_cb19(cpu: &mut Cpu) -> (result: InsnResult)
    requires
        old(cpu)@.wf(),
    ensures
        (final(cpu)@, result) == spec_extended(old(cpu)@, 0x19),
        final(cpu)@.wf(),
        result matches Ok(cycles) ==> cycles <= 24,
{
    register_op(cpu, ByteOp::Rr, Register::C)
}

/// rr D
pub fn opcode_cb1a(cpu: &mut Cpu) -> (result: InsnResult)
    requires
        old(cpu)@.wf(),
    ensures
        (final(cpu)@, result) == spec_extended(old(cpu)@, 0x1a),
        final(cpu)@.wf(),
        result matches Ok(cycles) ==> cycles <= 24,
{
    register_op(cpu, ByteOp::Rr, Register::D)
}

/// rr E
pub fn opcode_cb1b(cpu: &mut Cpu) -> (result: InsnResult)
    requires
        old(cpu)@.wf(),
    ensures
        (final(cpu)@, result) == spec_extended(old(cpu)@, 0x1b),
        final(cpu)@.wf(),
        result matches Ok(cycles) ==> cycles <= 24,
{
    register_op(cpu, ByteOp::Rr, Register::E)
}

/// rr H
pub fn opcode_cb1c(cpu: &mut Cpu) -> (result: InsnResult)
    requires
        old(cpu)@.wf(),
    ensures
        (final(cpu)@, result) == spec_extended(old(cpu)@, 0x1c),
        final(cpu)@.wf(),
        result matches Ok(cycles) ==> cycles <= 24,
{
    register_op(cpu, ByteOp::Rr, Register::H)
}

/// rr L
pub fn opcode_cb1d(cpu: &mut Cpu) -> (result: InsnResult)
    requires
        old(cpu)@.wf(),
    ensures
        (final(cpu)@, result) == spec_extended(old(cpu)@, 0x1d),
        final(cpu)@.wf(),
        result matches Ok(cycles) ==> cycles <= 24,
{
    register_op(cpu, ByteOp::Rr, Register::L)
}

/// rr (HL)
pub fn opcode_cb1e(cpu: &mut Cpu) -> (result: InsnResult)
    requires
        old(cpu)@.wf(),
    ensures
        (final(cpu)@, result) == spec_extended(old(cpu)@, 0x1e),
        final(cpu)@.wf(),
        result matches Ok(cycles) ==> cycles <= 24,
{
    memory_op(cpu, ByteOp::Rr)
}

/// rr A
pub fn opcode_cb1f(cpu: &mut Cpu) -> (result: InsnResult)
    requires
        old(cpu)@.wf(),
    ensures
        (final(cpu)@, result) == spec_extended(old(cpu)@, 0x1f),
        final(cpu)@.wf(),
        result matches Ok(cycles) ==> cycles <= 24,
{
    register_op(cpu, ByteOp::Rr, Register::A)
}

/// sla B
pub fn opcode_cb20(cpu: &mut Cpu) -> (result: InsnResult)
    requires
        old(cpu)@.wf(),
    ensures
        (final(cpu)@, result) == spec_extended(old(cpu)@, 0x20),
        final(cpu)@.wf(),
        result matches Ok(cycles) ==> cycles <= 24,
{
    register_op(cpu, ByteOp::Sla, Register::B)
}

/// sla C
pub fn opcode_cb21(cpu: &mut Cpu) -> (result: InsnResult)
    requires
        old(cpu)@.wf(),
    ensures
        (final(cpu)@, result) == spec_extended(old(cpu)@, 0x21),
        final(cpu)@.wf(),
        result matches Ok(cycles) ==> cycles <= 24,
{
    register_op(cpu, ByteOp::Sla, Register::C)
}

/// sla D
pub fn opcode_cb22(cpu: &mut Cpu) -> (result: InsnResult)
    requires
        old(cpu)@.wf(),
    ensures
        (final(cpu)@, result) == spec_extended(old(cpu)@, 0x22),
        final(cpu)@.wf(),
        result matches Ok(cycles) ==> cycles <= 24,
{
    register_op(cpu, ByteOp::Sla, Register::D)
}

/// sla E
pub fn opcode_cb23(cpu: &mut Cpu) -> (result: InsnResult)
    requires
        old(cpu)@.wf(),
    ensures
        (final(cpu)@, result) == spec_extended(old(cpu)@, 0x23),
        final(cpu)@.wf(),
        result matches Ok(cycles) ==> cycles <= 24,
{
    register_op(cpu, ByteOp::Sla, Register::E)
}

/// sla H
pub fn opcode_cb24(cpu: &mut Cpu) -> (result: InsnResult)
    requires
        old(cpu)@.wf(),
    ensures
        (final(cpu)@, result) == spec_extended(old(cpu)@, 0x24),
        final(cpu)@.wf(),
        result matches Ok(cycles) ==> cycles <= 24,
{
    register_op(cpu, ByteOp::Sla, Register::H)
}

/// sla L
pub fn opcode_cb25(cpu: &mut Cpu) -> (result: InsnResult)
    requires
        old(cpu)@.wf(),
    ensures
        (final(cpu)@, result) == spec_extended(old(cpu)@, 0x25),
        final(cpu)@.wf(),
        result matches Ok(cycles) ==> cycles <= 24,
{
    register_op(cpu, ByteOp::Sla, Register::L)
}

/// sla (HL)
pub fn opcode_cb26(cpu: &mut Cpu) -> (result: InsnResult)
    requires
        old(cpu)@.wf(),
    ensures
        (final(cpu)@, result) == spec_extended(old(cpu)@, 0x26),
        final(cpu)@.wf(),
        result matches Ok(cycles) ==> cycles <= 24,
{
    memory_op(cpu, ByteOp::Sla)
}

/// sla A
pub fn opcode_cb27(cpu: &mut Cpu) -> (result: InsnResult)
    requires
        old(cpu)@.wf(),
    ensures
        (final(cpu)@, result) == spec_extended(old(cpu)@, 0x27),
        final(cpu)@.wf(),
        result matches Ok(cycles) ==> cycles <= 24,
{
    register_op(cpu, ByteOp::Sla, Register::A)
}

/// sra B
pub fn opcode_cb28(cpu: &mut Cpu) -> (result: InsnResult)
    requires
        old(cpu)@.wf(),
    ensures
        (final(cpu)@, result) == spec_extended(old(cpu)@, 0x28),
        final(cpu)@.wf(),
        result matches Ok(cycles) ==> cycles <= 24,
{
    register_op(cpu, ByteOp::Sra, Register::B)
}

/// sra C
pub fn opcode_cb29(cpu: &mut Cpu) -> (result: InsnResult)
    requires
        old(cpu)@.wf(),
    ensures
        (final(cpu)@, result) == spec_extended(old(cpu)@, 0x29),
        final(cpu)@.wf(),
        result matches Ok(cycles) ==> cycles <= 24,
{
    register_op(cpu, ByteOp::Sra, Register::C)
}

/// sra D
pub fn opcode_cb2a(cpu: &mut Cpu) -> (result: InsnResult)
    requires
        old(cpu)@.wf(),
    ensures
        (final(cpu)@, result) == spec_extended(old(cpu)@, 0x2a),
        final(cpu)@.wf(),
        result matches Ok(cycles) ==> cycles <= 24,
{
    register_op(cpu, ByteOp::Sra, Register::D)
}

/// sra E
pub fn opcode_cb2b(cpu: &mut Cpu) -> (result: InsnResult)
    requires
        old(cpu)@.wf(),
    ensures
        (final(cpu)@, result) == spec_extended(old(cpu)@, 0x2b),
        final(cpu)@.wf(),
        result matches Ok(cycles) ==> cycles <= 24,
{
    register_op(cpu, ByteOp::Sra, Register::E)
}

/// sra H
pub fn opcode_cb2c(cpu: &mut Cpu) -> (result: InsnResult)
    requires
        old(cpu)@.wf(),
    ensures
        (final(cpu)@, result) == spec_extended(old(cpu)@, 0x2c),
        final(cpu)@.wf(),
        result matches Ok(cycles) ==> cycles <= 24,
{
    register_op(cpu, ByteOp::Sra, Register::H)
}

/// sra L
pub fn opcode_cb2d(cpu: &mut Cpu) -> (result: InsnResult)
    requires
        old(cpu)@.wf(),
    ensures
        (final(cpu)@, result) == spec_extended(old(cpu)@, 0x2d),
        final(cpu)@.wf(),
        result matches Ok(cycles) ==> cycles <= 24,
{
    register_op(cpu, ByteOp::Sra, Register::L)
}

/// sra (HL)
pub fn opcode_cb2e(cpu: &mut Cpu) -> (result: InsnResult)
    requires
        old(cpu)@.wf(),
    ensures
        (final(cpu)@, result) == spec_extended(old(cpu)@, 0x2e),
        final(cpu)@.wf(),
        result matches Ok(cycles) ==> cycles <= 24,
{
    memory_op(cpu, ByteOp::Sra)
}

/// sra A
pub fn opcode_cb2f(cpu: &mut Cpu) -> (result: InsnResult)
    requires
        old(cpu)@.wf(),
    ensures
        (final(cpu)@, result) == spec_extended(old(cpu)@, 0x2f),
        final(cpu)@.wf(),
        result matches Ok(cycles) ==> cycles <= 24,
{
    register_op(cpu, ByteOp::Sra, Register::A)
}

/// swap B
pub fn opcode_cb30(cpu: &mut Cpu) -> (result: InsnResult)
    requires
        old(cpu)@.wf(),
    ensures
        (final(cpu)@, result) == spec_extended(old(cpu)@, 0x30),
        final(cpu)@.wf(),
        result matches Ok(cycles) ==> cycles <= 24,
{
    register_op(cpu, ByteOp::Swap, Register::B)
}

/// swap C
pub fn opcode_cb31(cpu: &mut Cpu) -> (result: InsnResult)
    requires
        old(cpu)@.wf(),
    ensures
        (final(cpu)@, result) == spec_extended(old(cpu)@, 0x31),
        final(cpu)@.wf(),
        result matches Ok(cycles) ==> cycles <= 24,
{
    register_op(cpu, ByteOp::Swap, Register::C)
}

/// swap D
pub fn opcode_cb32(cpu: &mut Cpu) -> (result: InsnResult)
    requires
        old(cpu)@.wf(),
    ensures
        (final(cpu)@, result) == spec_extended(old(cpu)@, 0x32),
        final(cpu)@.wf(),
        result matches Ok(cycles) ==> cycles <= 24,
{
    register_op(cpu, ByteOp::Swap, Register::D)
}

/// swap E
pub fn opcode_cb33(cpu: &mut Cpu) -> (result: InsnResult)
    requires
        old(cpu)@.wf(),
    ensures
        (final(cpu)@, result) == spec_extended(old(cpu)@, 0x33),
        final(cpu)@.wf(),
        result matches Ok(cycles) ==> cycles <= 24,
{
    register_op(cpu, ByteOp::Swap, Register::E)
}

/// swap H
pub fn opcode_cb34(cpu: &mut Cpu) -> (result: InsnResult)
    requires
        old(cpu)@.wf(),
    ensures
        (final(cpu)@, result) == spec_extended(old(cpu)@, 0x34),
        final(cpu)@.wf(),
        result matches Ok(cycles) ==> cycles <= 24,
{
    register_op(cpu, ByteOp::Swap, Register::H)
}

/// swap L
pub fn opcode_cb35(cpu: &mut Cpu) -> (result: InsnResult)
    requires
        old(cpu)@.wf(),
    ensures
        (final(cpu)@, result) == spec_extended(old(cpu)@, 0x35),
        final(cpu)@.wf(),
        result matches Ok(cycles) ==> cycles <= 24,
{
    register_op(cpu, ByteOp::Swap, Register::L)
}

/// swap (HL)
pub fn opcode_cb36(cpu: &mut Cpu) -> (result: InsnResult)
    requires
        old(cpu)@.wf(),
    ensures
        (final(cpu)@, result) == spec_extended(old(cpu)@, 0x36),
        final(cpu)@.wf(),
        result matches Ok(cycles) ==> cycles <= 24,
{
    memory_op(cpu, ByteOp::Swap)
}

/// swap A
pub fn opcode_cb37(cpu: &mut Cpu) -> (result: InsnResult)
    requires
        old(cpu)@.wf(),
    ensures
        (final(cpu)@, result) == spec_extended(old(cpu)@, 0x37),
        final(cpu)@.wf(),
        result matches Ok(cycles) ==> cycles <= 24,
{
    register_op(cpu, ByteOp::Swap, Register::A)
}

/// srl B
pub fn opcode_cb38(cpu: &mut Cpu) -> (result: InsnResult)
    requires
        old(cpu)@.wf(),
    ensures
        (final(cpu)@, result) == spec_extended(old(cpu)@, 0x38),
        final(cpu)@.wf(),
        result matches Ok(cycles) ==> cycles <= 24,
{
    register_op(cpu, ByteOp::Srl, Register::B)
}

/// srl C
pub fn opcode_cb39(cpu: &mut Cpu) -> (result: InsnResult)
    requires
        old(cpu)@.wf(),
    ensures
        (final(cpu)@, result) == spec_extended(old(cpu)@, 0x39),
        final(cpu)@.wf(),
        result matches Ok(cycles) ==> cycles <= 24,
{
    register_op(cpu, ByteOp::Srl, Register::C)
}

/// srl D
pub fn opcode_cb3a(cpu: &mut Cpu) -> (result: InsnResult)
    requires
        old(cpu)@.wf(),
    ensures
        (final(cpu)@, result) == spec_extended(old(cpu)@, 0x3a),
        final(cpu)@.wf(),
        result matches Ok(cycles) ==> cycles <= 24,
{
    register_op(cpu, ByteOp::Srl, Register::D)
}

/// srl E
pub fn opcode_cb3b(cpu: &mut Cpu) -> (result: InsnResult)
    requires
        old(cpu)@.wf(),
    ensures
        (final(cpu)@, result) == spec_extended(old(cpu)@, 0x3b),
        final(cpu)@.wf(),
        result matches Ok(cycles) ==> cycles <= 24,
{
    register_op(cpu, ByteOp::Srl, Register::E)
}

/// srl H
pub fn opcode_cb3c(cpu: &mut Cpu) -> (result: InsnResult)
    requires
        old(cpu)@.wf(),
    ensures
        (final(cpu)@, result) == spec_extended(old(cpu)@, 0x3c),
        final(cpu)@.wf(),
        result matches Ok(cycles) ==> cycles <= 24,
{
    register_op(cpu, ByteOp::Srl, Register::H)
}

/// srl L
pub fn opcode_cb3d(cpu: &mut Cpu) -> (result: InsnResult)
    requires
        old(cpu)@.wf(),
    ensures
        (final(cpu)@, result) == spec_extended(old(cpu)@, 0x3d),
        final(cpu)@.wf(),
        result matches Ok(cycles) ==> cycles <= 24,
{
    register_op(cpu, ByteOp::Srl, Register::L)
}

/// srl (HL)
pub fn opcode_cb3e(cpu: &mut Cpu) -> (result: InsnResult)
    requires
        old(cpu)@.wf(),
    ensures
        (final(cpu)@, result) == spec_extended(old(cpu)@, 0x3e),
        final(cpu)@.wf(),
        result matches Ok(cycles) ==> cycles <= 24,
{
    memory_op(cpu, ByteOp::Srl)
}

/// srl A
pub fn opcode_cb3f(cpu: &mut Cpu) -> (result: InsnResult)
    requires
        old(cpu)@.wf(),
    ensures
        (final(cpu)@, result) == spec_extended(old(cpu)@, 0x3f),
        final(cpu)@.wf(),
        result matches Ok(cycles) ==> cycles <= 24,
{
    register_op(cpu, ByteOp::Srl, Register::A)
}

/// bit 0, B
pub fn opcode_cb40(cpu: &mut Cpu) -> (result: InsnResult)
    requires
        old(cpu)@.wf(),
    ensures
        (final(cpu)@, result) == spec_extended(old(cpu)@, 0x40),
        final(cpu)@.wf(),
        result matches Ok(cycles) ==> cycles <= 24,
{
    register_op(cpu, ByteOp::TestBit(0), Register::B)
}

/// bit 0, C
pub fn opcode_cb41(cpu: &mut Cpu) -> (result: InsnResult)
    requires
        old(cpu)@.wf(),
    ensures
        (final(cpu)@, result) == spec_extended(old(cpu)@, 0x41),
        final(cpu)@.wf(),
        result matches Ok(cycles) ==> cycles <= 24,
{
    register_op(cpu, ByteOp::TestBit(0), Register::C)
}

/// bit 0, D
pub fn opcode_cb42(cpu: &mut Cpu) -> (result: InsnResult)
    requires
        old(cpu)@.wf(),
    ensures
        (final(cpu)@, result) == spec_extended(old(cpu)@, 0x42),
        final(cpu)@.wf(),
        result matches Ok(cycles) ==> cycles <= 24,
{
    register_op(cpu, ByteOp::TestBit(0), Register::D)
}

/// bit 0, E
pub fn opcode_cb43(cpu: &mut Cpu) -> (result: InsnResult)
    requires
        old(cpu)@.wf(),
    ensures
        (final(cpu)@, result) == spec_extended(old(cpu)@, 0x43),
        final(cpu)@.wf(),
        result matches Ok(cycles) ==> cycles <= 24,
{
    register_op(cpu, ByteOp::TestBit(0), Register::E)
}

/// bit 0, H
pub fn opcode_cb44(cpu: &mut Cpu) -> (result: InsnResult)
    requires
        old(cpu)@.wf(),
    ensures
        (final(cpu)@, result) == spec_extended(old(cpu)@, 0x44),
        final(cpu)@.wf(),
        result matches Ok(cycles) ==> cycles <= 24,
{
    register_op(cpu, ByteOp::TestBit(0), Register::H)
}

/// bit 0, L
pub fn opcode_cb45(cpu: &mut Cpu) -> (result: InsnResult)
    requires
        old(cpu)@.wf(),
    ensures
        (final(cpu)@, result) == spec_extended(old(cpu)@, 0x45),
        final(cpu)@.wf(),
        result matches Ok(cycles) ==> cycles <= 24,
{
    register_op(cpu, ByteOp::TestBit(0), Register::L)
}

/// bit 0, (HL)
pub fn opcode_cb46(cpu: &mut Cpu) -> (result: InsnResult)
    requires
        old(cpu)@.wf(),
    ensures
        (final(cpu)@, result) == spec_extended(old(cpu)@, 0x46),
        final(cpu)@.wf(),
        result matches Ok(cycles) ==> cycles <= 24,
{
    memory_op(cpu, ByteOp::TestBit(0))
}

/// bit 0, A
pub fn opcode_cb47(cpu: &mut Cpu) -> (result: InsnResult)
    requires
        old(cpu)@.wf(),
    ensures
        (final(cpu)@, result) == spec_extended(old(cpu)@, 0x47),
        final(cpu)@.wf(),
        result matches Ok(cycles) ==> cycles <= 24,
{
    register_op(cpu, ByteOp::TestBit(0), Register::A)
}

/// bit 1, B
pub fn opcode_cb48(cpu: &mut Cpu) -> (result: InsnResult)
    requires
        old(cpu)@.wf(),
    ensures
        (final(cpu)@, result) == spec_extended(old(cpu)@, 0x48),
        final(cpu)@.wf(),
        result matches Ok(cycles) ==> cycles <= 24,
{
    register_op(cpu, ByteOp::TestBit(1), Register::B)
}

/// bit 1, C
pub fn opcode_cb49(cpu: &mut Cpu) -> (result: InsnResult)
    requires
        old(cpu)@.wf(),
    ensures
        (final(cpu)@, result) == spec_extended(old(cpu)@, 0x49),
        final(cpu)@.wf(),
        result matches Ok(cycles) ==> cycles <= 24,
{
    register_op(cpu, ByteOp::TestBit(1), Register::C)
}

/// bit 1, D
pub fn opcode_cb4a(cpu: &mut Cpu) -> (result: InsnResult)
    requires
        old(cpu)@.wf(),
    ensures
        (final(cpu)@, result) == spec_extended(old(cpu)@, 0x4a),
        final(cpu)@.wf(),
        result matches Ok(cycles) ==> cycles <= 24,
{
    register_op(cpu, ByteOp::TestBit(1), Register::D)
}

/// bit 1, E
pub fn opcode_cb4b(cpu: &mut Cpu) -> (result: InsnResult)
    requires
        old(cpu)@.wf(),
    ensures
        (final(cpu)@, result) == spec_extended(old(cpu)@, 0x4b),
        final(cpu)@.wf(),
        result matches Ok(cycles) ==> cycles <= 24,
{
    register_op(cpu, ByteOp::TestBit(1), Register::E)
}

/// bit 1, H
pub fn opcode_cb4c(cpu: &mut Cpu) -> (result: InsnResult)
    requires
        old(cpu)@.wf(),
    ensures
        (final(cpu)@, result) == spec_extended(old(cpu)@, 0x4c),
        final(cpu)@.wf(),
        result matches Ok(cycles) ==> cycles <= 24,
{
    register_op(cpu, ByteOp::TestBit(1), Register::H)
}

/// bit 1, L
pub fn opcode_cb4d(cpu: &mut Cpu) -> (result: InsnResult)
    requires
        old(cpu)@.wf(),
    ensures
        (final(cpu)@, result) == spec_extended(old(cpu)@, 0x4d),
        final(cpu)@.wf(),
        result matches Ok(cycles) ==> cycles <= 24,
{
    register_op(cpu, ByteOp::TestBit(1), Register::L)
}

/// bit 1, (HL)
pub fn opcode_cb4e(cpu: &mut Cpu) -> (result: InsnResult)
    requires
        old(cpu)@.wf(),
    ensures
        (final(cpu)@, result) == spec_extended(old(cpu)@, 0x4e),
        final(cpu)@.wf(),
        result matches Ok(cycles) ==> cycles <= 24,
{
    memory_op(cpu, ByteOp::TestBit(1))
}

/// bit 1, A
pub fn opcode_cb4f(cpu: &mut Cpu) -> (result: InsnResult)
    requires
        old(cpu)@.wf(),
    ensures
        (final(cpu)@, result) == spec_extended(old(cpu)@, 0x4f),
        final(cpu)@.wf(),
        result matches Ok(cycles) ==> cycles <= 24,
{
    register_op(cpu, ByteOp::TestBit(1), Register::A)
}

/// bit 2, B
pub fn opcode_cb50(cpu: &mut Cpu) -> (result: InsnResult)
    requires
        old(cpu)@.wf(),
    ensures
        (final(cpu)@, result) == spec_extended(old(cpu)@, 0x50),
        final(cpu)@.wf(),
        result matches Ok(cycles) ==> cycles <= 24,
{
    register_op(cpu, ByteOp::TestBit(2), Register::B)
}

/// bit 2, C
pub fn opcode_cb51(cpu: &mut Cpu) -> (result: InsnResult)
    requires
        old(cpu)@.wf(),
    ensures
        (final(cpu)@, result) == spec_extended(old(cpu)@, 0x51),
        final(cpu)@.wf(),
        result matches Ok(cycles) ==> cycles <= 24,
{
    register_op(cpu, ByteOp::TestBit(2), Register::C)
}

/// bit 2, D
pub fn opcode_cb52(cpu: &mut Cpu) -> (result: InsnResult)
    requires
        old(cpu)@.wf(),
    ensures
        (final(cpu)@, result) == spec_extended(old(cpu)@, 0x52),
        final(cpu)@.wf(),
        result matches Ok(cycles) ==> cycles <= 24,
{
    register_op(cpu, ByteOp::TestBit(2), Register::D)
}

/// bit 2, E
pub fn opcode_cb53(cpu: &mut Cpu) -> (result: InsnResult)
    requires
        old(cpu)@.wf(),
    ensures
        (final(cpu)@, result) == spec_extended(old(cpu)@, 0x53),
        final(cpu)@.wf(),
        result matches Ok(cycles) ==> cycles <= 24,
{
    register_op(cpu, ByteOp::TestBit(2), Register::E)
}

/// bit 2, H
pub fn opcode_cb54(cpu: &mut Cpu) -> (result: InsnResult)
    requires
        old(cpu)@.wf(),
    ensures
        (final(cpu)@, result) == spec_extended(old(cpu)@, 0x54),
        final(cpu)@.wf(),
        result matches Ok(cycles) ==> cycles <= 24,
{
    register_op(cpu, ByteOp::TestBit(2), Register::H)
}

/// bit 2, L
pub fn opcode_cb55(cpu: &mut Cpu) -> (result: InsnResult)
    requires
        old(cpu)@.wf(),
    ensures
        (final(cpu)@, result) == spec_extended(old(cpu)@, 0x55),
        final(cpu)@.wf(),
        result matches Ok(cycles) ==> cycles <= 24,
{
    register_op(cpu, ByteOp::TestBit(2), Register::L)
}

/// bit 2, (HL)
pub fn opcode_cb56(cpu: &mut Cpu) -> (result: InsnResult)
    requires
        old(cpu)@.wf(),
    ensures
        (final(cpu)@, result) == spec_extended(old(cpu)@, 0x56),
        final(cpu)@.wf(),
        result matches Ok(cycles) ==> cycles <= 24,
{
    memory_op(cpu, ByteOp::TestBit(2))
}

/// bit 2, A
pub fn opcode_cb57(cpu: &mut Cpu) -> (result: InsnResult)
    requires
        old(cpu)@.wf(),
    ensures
        (final(cpu)@, result) == spec_extended(old(cpu)@, 0x57),
        final(cpu)@.wf(),
        result matches Ok(cycles) ==> cycles <= 24,
{
    register_op(cpu, ByteOp::TestBit(2), Register::A)
}

/// bit 3, B
pub fn opcode_cb58(cpu: &mut Cpu) -> (result: InsnResult)
    requires
        old(cpu)@.wf(),
    ensures
        (final(cpu)@, result) == spec_extended(old(cpu)@, 0x58),
        final(cpu)@.wf(),
        result matches Ok(cycles) ==> cycles <= 24,
{
    register_op(cpu, ByteOp::TestBit(3), Register::B)
}

/// bit 3, C
pub fn opcode_cb59(cpu: &mut Cpu) -> (result: InsnResult)
    requires
        old(cpu)@.wf(),
    ensures
        (final(cpu)@, result) == spec_extended(old(cpu)@, 0x59),
        final(cpu)@.wf(),
        result matches Ok(cycles) ==> cycles <= 24,
{
    register_op(cpu, ByteOp::TestBit(3), Register::C)
}

/// bit 3, D
pub fn opcode_cb5a(cpu: &mut Cpu) -> (result: InsnResult)
    requires
        old(cpu)@.wf(),
    ensures
        (final(cpu)@, result) == spec_extended(old(cpu)@, 0x5a),
        final(cpu)@.wf(),
        result matches Ok(cycles) ==> cycles <= 24,
{
    register_op(cpu, ByteOp::TestBit(3), Register::D)
}

/// bit 3, E
pub fn opcode_cb5b(cpu: &mut Cpu) -> (result: InsnResult)
    requires
        old(cpu)@.wf(),
    ensures
        (final(cpu)@, result) == spec_extended(old(cpu)@, 0x5b),
        final(cpu)@.wf(),
        result matches Ok(cycles) ==> cycles <= 24,
{
    register_op(cpu, ByteOp::TestBit(3), Register::E)
}

/// bit 3, H
pub fn opcode_cb5c(cpu: &mut Cpu) -> (result: InsnResult)
    requires
        old(cpu)@.wf(),
    ensures
        (final(cpu)@, result) == spec_extended(old(cpu)@, 0x5c),
        final(cpu)@.wf(),
        result matches Ok(cycles) ==> cycles <= 24,
{
    register_op(cpu, ByteOp::TestBit(3), Register::H)
}

/// bit 3, L
pub fn opcode_cb5d(cpu: &mut Cpu) -> (result: InsnResult)
    requires
        old(cpu)@.wf(),
    ensures
        (final(cpu)@, result) == spec_extended(old(cpu)@, 0x5d),
        final(cpu)@.wf(),
        result matches Ok(cycles) ==> cycles <= 24,
{
    register_op(cpu, ByteOp::TestBit(3), Register::L)
}

/// bit 3, (HL)
pub fn opcode_cb5e(cpu: &mut Cpu) -> (result: InsnResult)
    requires
        old(cpu)@.wf(),
    ensures
        (final(cpu)@, result) == spec_extended(old(cpu)@, 0x5e),
        final(cpu)@.wf(),
        result matches Ok(cycles) ==> cycles <= 24,
{
    memory_op(cpu, ByteOp::TestBit(3))
}

/// bit 3, A
pub fn opcode_cb5f(cpu: &mut Cpu) -> (result: InsnResult)
    requires
        old(cpu)@.wf(),
    ensures
        (final(cpu)@, result) == spec_extended(old(cpu)@, 0x5f),
        final(cpu)@.wf(),
        result matches Ok(cycles) ==> cycles <= 24,
{
    register_op(cpu, ByteOp::TestBit(3), Register::A)
}

/// bit 4, B
pub fn opcode_cb60(cpu: &mut Cpu) -> (result: InsnResult)
    requires
        old(cpu)@.wf(),
    ensures
        (final(cpu)@, result) == spec_extended(old(cpu)@, 0x60),
        final(cpu)@.wf(),
        result matches Ok(cycles) ==> cycles <= 24,
{
    register_op(cpu, ByteOp::TestBit(4), Register::B)
}

/// bit 4, C
pub fn opcode_cb61(cpu: &mut Cpu) -> (result: InsnResult)
    requires
        old(cpu)@.wf(),
    ensures
        (final(cpu)@, result) == spec_extended(old(cpu)@, 0x61),
        final(cpu)@.wf(),
        result matches Ok(cycles) ==> cycles <= 24,
{
    register_op(cpu, ByteOp::TestBit(4), Register::C)
}

/// bit 4, D
pub fn opcode_cb62(cpu: &mut Cpu) -> (result: InsnResult)
    requires
        old(cpu)@.wf(),
    ensures
        (final(cpu)@, result) == spec_extended(old(cpu)@, 0x62),
        final(cpu)@.wf(),
        result matches Ok(cycles) ==> cycles <= 24,
{
    register_op(cpu, ByteOp::TestBit(4), Register::D)
}

/// bit 4, E
pub fn opcode_cb63(cpu: &mut Cpu) -> (result: InsnResult)
    requires
        old(cpu)@.wf(),
    ensures
        (final(cpu)@, result) == spec_extended(old(cpu)@, 0x63),
        final(cpu)@.wf(),
        result matches Ok(cycles) ==> cycles <= 24,
{
    register_op(cpu, ByteOp::TestBit(4), Register::E)
}

/// bit 4, H
pub fn opcode_cb64(cpu: &mut Cpu) -> (result: InsnResult)
    requires
        old(cpu)@.wf(),
    ensures
        (final(cpu)@, result) == spec_extended(old(cpu)@, 0x64),
        final(cpu)@.wf(),
        result matches Ok(cycles) ==> cycles <= 24,
{
    register_op(cpu, ByteOp::TestBit(4), Register::H)
}

/// bit 4, L
pub fn opcode_cb65(cpu: &mut Cpu) -> (result: InsnResult)
    requires
        old(cpu)@.wf(),
    ensures
        (final(cpu)@, result) == spec_extended(old(cpu)@, 0x65),
        final(cpu)@.wf(),
        result matches Ok(cycles) ==> cycles <= 24,
{
    register_op(cpu, ByteOp::TestBit(4), Register::L)
}

/// bit 4, (HL)
pub fn opcode_cb66(cpu: &mut Cpu) -> (result: InsnResult)
    requires
        old(cpu)@.wf(),
    ensures
        (final(cpu)@, result) == spec_extended(old(cpu)@, 0x66),
        final(cpu)@.wf(),
        result matches Ok(cycles) ==> cycles <= 24,
{
    memory_op(cpu, ByteOp::TestBit(4))
}

/// bit 4, A
pub fn opcode_cb67(cpu: &mut Cpu) -> (result: InsnResult)
    requires
        old(cpu)@.wf(),
    ensures
        (final(cpu)@, result) == spec_extended(old(cpu)@, 0x67),
        final(cpu)@.wf(),
        result matches Ok(cycles) ==> cycles <= 24,
{
    register_op(cpu, ByteOp::TestBit(4), Register::A)
}

/// bit 5, B
pub fn opcode_cb68(cpu: &mut Cpu) -> (result: InsnResult)
    requires
        old(cpu)@.wf(),
    ensures
        (final(cpu)@, result) == spec_extended(old(cpu)@, 0x68),
        final(cpu)@.wf(),
        result matches Ok(cycles) ==> cycles <= 24,
{
    register_op(cpu, ByteOp::TestBit(5), Register::B)
}

/// bit 5, C
pub fn opcode_cb69(cpu: &mut Cpu) -> (result: InsnResult)
    requires
        old(cpu)@.wf(),
    ensures
        (final(cpu)@, result) == spec_extended(old(cpu)@, 0x69),
        final(cpu)@.wf(),
        result matches Ok(cycles) ==> cycles <= 24,
{
    register_op(cpu, ByteOp::TestBit(5), Register::C)
}

/// bit 5, D
pub fn opcode_cb6a(cpu: &mut Cpu) -> (result: InsnResult)
    requires
        old(cpu)@.wf(),
    ensures
        (final(cpu)@, result) == spec_extended(old(cpu)@, 0x6a),
        final(cpu)@.wf(),
        result matches Ok(cycles) ==> cycles <= 24,
{
    register_op(cpu, ByteOp::TestBit(5), Register::D)
}

/// bit 5, E
pub fn opcode_cb6b(cpu: &mut Cpu) -> (result: InsnResult)
    requires
        old(cpu)@.wf(),
    ensures
        (final(cpu)@, result) == spec_extended(old(cpu)@, 0x6b),
        final(cpu)@.wf(),
        result matches Ok(cycles) ==> cycles <= 24,
{
    register_op(cpu, ByteOp::TestBit(5), Register::E)
}

/// bit 5, H
pub fn opcode_cb6c(cpu: &mut Cpu) -> (result: InsnResult)
    requires
        old(cpu)@.wf(),
    ensures
        (final(cpu)@, result) == spec_extended(old(cpu)@, 0x6c),
        final(cpu)@.wf(),
        result matches Ok(cycles) ==> cycles <= 24,
{
    register_op(cpu, ByteOp::TestBit(5), Register::H)
}

/// bit 5, L
pub fn opcode_cb6d(cpu: &mut Cpu) -> (result: InsnResult)
    requires
        old(cpu)@.wf(),
    ensures
        (final(cpu)@, result) == spec_extended(old(cpu)@, 0x6d),
        final(cpu)@.wf(),
        result matches Ok(cycles) ==> cycles <= 24,
{
    register_op(cpu, ByteOp::TestBit(5), Register::L)
}

/// bit 5, (HL)
pub fn opcode_cb6e(cpu: &mut Cpu) -> (result: InsnResult)
    requires
        old(cpu)@.wf(),
    ensures
        (final(cpu)@, result) == spec_extended(old(cpu)@, 0x6e),
        final(cpu)@.wf(),
        result matches Ok(cycles) ==> cycles <= 24,
{
    memory_op(cpu, ByteOp::TestBit(5))
}

/// bit 5, A
pub fn opcode_cb6f(cpu: &mut Cpu) -> (result: InsnResult)
    requires
        old(cpu)@.wf(),
    ensures
        (final(cpu)@, result) == spec_extended(old(cpu)@, 0x6f),
        final(cpu)@.wf(),
        result matches Ok(cycles) ==> cycles <= 24,
{
    register_op(cpu, ByteOp::TestBit(5), Register::A)
}

/// bit 6, B
pub fn opcode_cb70(cpu: &mut Cpu) -> (result: InsnResult)
    requires
        old(cpu)@.wf(),
    ensures
        (final(cpu)@, result) == spec_extended(old(cpu)@, 0x70),
        final(cpu)@.wf(),
        result matches Ok(cycles) ==> cycles <= 24,
{
    register_op(cpu, ByteOp::TestBit(6), Register::B)
}

/// bit 6, C
pub fn opcode_cb71(cpu: &mut Cpu) -> (result: InsnResult)
    requires
        old(cpu)@.wf(),
    ensures
        (final(cpu)@, result) == spec_extended(old(cpu)@, 0x71),
        final(cpu)@.wf(),
        result matches Ok(cycles) ==> cycles <= 24,
{
    register_op(cpu, ByteOp::TestBit(6), Register::C)
}

/// bit 6, D
pub fn opcode_cb72(cpu: &mut Cpu) -> (result: InsnResult)
    requires
        old(cpu)@.wf(),
    ensures
        (final(cpu)@, result) == spec_extended(old(cpu)@, 0x72),
        final(cpu)@.wf(),
        result matches Ok(cycles) ==> cycles <= 24,
{
    register_op(cpu, ByteOp::TestBit(6), Register::D)
}

/// bit 6, E
pub fn opcode_cb73(cpu: &mut Cpu) -> (result: InsnResult)
    requires
        old(cpu)@.wf(),
    ensures
        (final(cpu)@, result) == spec_extended(old(cpu)@, 0x73),
        final(cpu)@.wf(),
        result matches Ok(cycles) ==> cycles <= 24,
{
    register_op(cpu, ByteOp::TestBit(6), Register::E)
}

/// bit 6, H
pub fn opcode_cb74(cpu: &mut Cpu) -> (result: InsnResult)
    requires
        old(cpu)@.wf(),
    ensures
        (final(cpu)@, result) == spec_extended(old(cpu)@, 0x74),
        final(cpu)@.wf(),
        result matches Ok(cycles) ==> cycles <= 24,
{
    register_op(cpu, ByteOp::TestBit(6), Register::H)
}

/// bit 6, L
pub fn opcode_cb75(cpu: &mut Cpu) -> (result: InsnResult)
    requires
        old(cpu)@.wf(),
    ensures
        (final(cpu)@, result) == spec_extended(old(cpu)@, 0x75),
        final(cpu)@.wf(),
        result matches Ok(cycles) ==> cycles <= 24,
{
    register_op(cpu, ByteOp::TestBit(6), Register::L)
}

/// bit 6, (HL)
pub fn opcode_cb76(cpu: &mut Cpu) -> (result: InsnResult)
    requires
        old(cpu)@.wf(),
    ensures
        (final(cpu)@, result) == spec_extended(old(cpu)@, 0x76),
        final(cpu)@.wf(),
        result matches Ok(cycles) ==> cycles <= 24,
{
    memory_op(cpu, ByteOp::TestBit(6))
}

/// bit 6, A
pub fn opcode_cb77(cpu: &mut Cpu) -> (result: InsnResult)
    requires
        old(cpu)@.wf(),
    ensures
        (final(cpu)@, result) == spec_extended(old(cpu)@, 0x77),
        final(cpu)@.wf(),
        result matches Ok(cycles) ==> cycles <= 24,
{
    register_op(cpu, ByteOp::TestBit(6), Register::A)
}

/// bit 7, B
pub fn opcode_cb78(cpu: &mut Cpu) -> (result: InsnResult)
    requires
        old(cpu)@.wf(),
    ensures
        (final(cpu)@, result) == spec_extended(old(cpu)@, 0x78),
        final(cpu)@.wf(),
        result matches Ok(cycles) ==> cycles <= 24,
{
    register_op(cpu, ByteOp::TestBit(7), Register::B)
}

/// bit 7, C
pub fn opcode_cb79(cpu: &mut Cpu) -> (result: InsnResult)
    requires
        old(cpu)@.wf(),
    ensures
        (final(cpu)@, result) == spec_extended(old(cpu)@, 0x79),
        final(cpu)@.wf(),
        result matches Ok(cycles) ==> cycles <= 24,
{
    register_op(cpu, ByteOp::TestBit(7), Register::C)
}

/// bit 7, D
pub fn opcode_cb7a(cpu: &mut Cpu) -> (result: InsnResult)
    requires
        old(cpu)@.wf(),
    ensures
        (final(cpu)@, result) == spec_extended(old(cpu)@, 0x7a),
        final(cpu)@.wf(),
        result matches Ok(cycles) ==> cycles <= 24,
{
    register_op(cpu, ByteOp::TestBit(7), Register::D)
}

/// bit 7, E
pub fn opcode_cb7b(cpu: &mut Cpu) -> (result: InsnResult)
    requires
        old(cpu)@.wf(),
    ensures
        (final(cpu)@, result) == spec_extended(old(cpu)@, 0x7b),
        final(cpu)@.wf(),
        result matches Ok(cycles) ==> cycles <= 24,
{
    register_op(cpu, ByteOp::TestBit(7), Register::E)
}

/// bit 7, H
pub fn opcode_cb7c(cpu: &mut Cpu) -> (result: InsnResult)
    requires
        old(cpu)@.wf(),
    ensures
        (final(cpu)@, result) == spec_extended(old(cpu)@, 0x7c),
        final(cpu)@.wf(),
        result matches Ok(cycles) ==> cycles <= 24,
{
    register_op(cpu, ByteOp::TestBit(7), Register::H)
}

/// bit 7, L
pub fn opcode_cb7d(cpu: &mut Cpu) -> (result: InsnResult)
    requires
        old(cpu)@.wf(),
    ensures
        (final(cpu)@, result) == spec_extended(old(cpu)@, 0x7d),
        final(cpu)@.wf(),
        result matches Ok(cycles) ==> cycles <= 24,
{
    register_op(cpu, ByteOp::TestBit(7), Register::L)
}

/// bit 7, (HL)
pub fn opcode_cb7e(cpu: &mut Cpu) -> (result: InsnResult)
    requires
        old(cpu)@.wf(),
    ensures
        (final(cpu)@, result) == spec_extended(old(cpu)@, 0x7e),
        final(cpu)@.wf(),
        result matches Ok(cycles) ==> cycles <= 24,
{
    memory_op(cpu, ByteOp::TestBit(7))
}

/// bit 7, A
pub fn opcode_cb7f(cpu: &mut Cpu) -> (result: InsnResult)
    requires
        old(cpu)@.wf(),
    ensures
        (final(cpu)@, result) == spec_extended(old(cpu)@, 0x7f),
        final(cpu)@.wf(),
        result matches Ok(cycles) ==> cycles <= 24,
{
    register_op(cpu, ByteOp::TestBit(7), Register::A)
}

/// res 0, B
pub fn opcode_cb80(cpu: &mut Cpu) -> (result: InsnResult)
    requires
        old(cpu)@.wf(),
    ensures
        (final(cpu)@, result) == spec_extended(old(cpu)@, 0x80),
        final(cpu)@.wf(),
        result matches Ok(cycles) ==> cycles <= 24,
{
    reset_register_bit(cpu, Register::B, 0)
}

/// res 0, C
pub fn opcode_cb81(cpu: &mut Cpu) -> (result: InsnResult)
    requires
        old(cpu)@.wf(),
    ensures
        (final(cpu)@, result) == spec_extended(old(cpu)@, 0x81),
        final(cpu)@.wf(),
        result matches Ok(cycles) ==> cycles <= 24,
{
    reset_register_bit(cpu, Register::C, 0)
}

/// res 0, D
pub fn opcode_cb82(cpu: &mut Cpu) -> (result: InsnResult)
    requires
        old(cpu)@.wf(),
    ensures
        (final(cpu)@, result) == spec_extended(old(cpu)@, 0x82),
        final(cpu)@.wf(),
        result matches Ok(cycles) ==> cycles <= 24,
{
    reset_register_bit(cpu, Register::D, 0)
}

/// res 0, E
pub fn opcode_cb83(cpu: &mut Cpu) -> (result: InsnResult)
    requires
        old(cpu)@.wf(),
    ensures
        (final(cpu)@, result) == spec_extended(old(cpu)@, 0x83),
        final(cpu)@.wf(),
        result matches Ok(cycles) ==> cycles <= 24,
{
    reset_register_bit(cpu, Register::E, 0)
}

/// res 0, H
pub fn opcode_cb84(cpu: &mut Cpu) -> (result: InsnResult)
    requires
        old(cpu)@.wf(),
    ensures
        (final(cpu)@, result) == spec_extended(old(cpu)@, 0x84),
        final(cpu)@.wf(),
        result matches Ok(cycles) ==> cycles <= 24,
{
    reset_register_bit(cpu, Register::H, 0)
}

/// res 0, L
pub fn opcode_cb85(cpu: &mut Cpu) -> (result: InsnResult)
    requires
        old(cpu)@.wf(),
    ensures
        (final(cpu)@, result) == spec_extended(old(cpu)@, 0x85),
        final(cpu)@.wf(),
        result matches Ok(cycles) ==> cycles <= 24,
{
    reset_register_bit(cpu, Register::L, 0)
}

/// res 0, (HL)
pub fn opcode_cb86(cpu: &mut Cpu) -> (result: InsnResult)
    requires
        old(cpu)@.wf(),
    ensures
        (final(cpu)@, result) == spec_extended(old(cpu)@, 0x86),
        final(cpu)@.wf(),
        result matches Ok(cycles) ==> cycles <= 24,
{
    reset_memory_bit(cpu, 0)
}

/// res 0, A
pub fn opcode_cb87(cpu: &mut Cpu) -> (result: InsnResult)
    requires
        old(cpu)@.wf(),
    ensures
        (final(cpu)@, result) == spec_extended(old(cpu)@, 0x87),
        final(cpu)@.wf(),
        result matches Ok(cycles) ==> cycles <= 24,
{
    reset_register_bit(cpu, Register::A, 0)
}

/// res 1, B
pub fn opcode_cb88(cpu: &mut Cpu) -> (result: InsnResult)
    requires
        old(cpu)@.wf(),
    ensures
        (final(cpu)@, result) == spec_extended(old(cpu)@, 0x88),
        final(cpu)@.wf(),
        result matches Ok(cycles) ==> cycles <= 24,
{
    reset_register_bit(cpu, Register::B, 1)
}

/// res 1, C
pub fn opcode_cb89(cpu: &mut Cpu) -> (result: InsnResult)
    requires
        old(cpu)@.wf(),
    ensures
        (final(cpu)@, result) == spec_extended(old(cpu)@, 0x89),
        final(cpu)@.wf(),
        result matches Ok(cycles) ==> cycles <= 24,
{
    reset_register_bit(cpu, Register::C, 1)
}

/// res 1, D
pub fn opcode_cb8a(cpu: &mut Cpu) -> (result: InsnResult)
    requires
        old(cpu)@.wf(),
    ensures
        (final(cpu)@, result) == spec_extended(old(cpu)@, 0x8a),
        final(cpu)@.wf(),
        result matches Ok(cycles) ==> cycles <= 24,
{
    reset_register_bit(cpu, Register::D, 1)
}

/// res 1, E
pub fn opcode_cb8b(cpu: &mut Cpu) -> (result: InsnResult)
    requires
        old(cpu)@.wf(),
    ensures
        (final(cpu)@, result) == spec_extended(old(cpu)@, 0x8b),
        final(cpu)@.wf(),
        result matches Ok(cycles) ==> cycles <= 24,
{
    reset_register_bit(cpu, Register::E, 1)
}

/// res 1, H
pub fn opcode_cb8c(cpu: &mut Cpu) -> (result: InsnResult)
    requires
        old(cpu)@.wf(),
    ensures
        (final(cpu)@, result) == spec_extended(old(cpu)@, 0x8c),
        final(cpu)@.wf(),
        result matches Ok(cycles) ==> cycles <= 24,
{
    reset_register_bit(cpu, Register::H, 1)
}

/// res 1, L
pub fn opcode_cb8d(cpu: &mut Cpu) -> (result: InsnResult)
    requires
        old(cpu)@.wf(),
    ensures
        (final(cpu)@, result) == spec_extended(old(cpu)@, 0x8d),
        final(cpu)@.wf(),
        result matches Ok(cycles) ==> cycles <= 24,
{
    reset_register_bit(cpu, Register::L, 1)
}

/// res 1, (HL)
pub fn opcode_cb8e(cpu: &mut Cpu) -> (result: InsnResult)
    requires
        old(cpu)@.wf(),
    ensures
        (final(cpu)@, result) == spec_extended(old(cpu)@, 0x8e),
        final(cpu)@.wf(),
        result matches Ok(cycles) ==> cycles <= 24,
{
    reset_memory_bit(cpu, 1)
}

/// res 1, A
pub fn opcode_cb8f(cpu: &mut Cpu) -> (result: InsnResult)
    requires
        old(cpu)@.wf(),
    ensures
        (final(cpu)@, result) == spec_extended(old(cpu)@, 0x8f),
        final(cpu)@.wf(),
        result matches Ok(cycles) ==> cycles <= 24,
{
    reset_register_bit(cpu, Register::A, 1)
}

/// res 2, B
pub fn opcode_cb90(cpu: &mut Cpu) -> (result: InsnResult)
    requires
        old(cpu)@.wf(),
    ensures
        (final(cpu)@, result) == spec_extended(old(cpu)@, 0x90),
        final(cpu)@.wf(),
        result matches Ok(cycles) ==> cycles <= 24,
{
    reset_register_bit(cpu, Register::B, 2)
}

/// res 2, C
pub fn opcode_cb91(cpu: &mut Cpu) -> (result: InsnResult)
    requires
        old(cpu)@.wf(),
    ensures
        (final(cpu)@, result) == spec_extended(old(cpu)@, 0x91),
        final(cpu)@.wf(),
        result matches Ok(cycles) ==> cycles <= 24,
{
    reset_register_bit(cpu, Register::C, 2)
}

/// res 2, D
pub fn opcode_cb92(cpu: &mut Cpu) -> (result: InsnResult)
    requires
        old(cpu)@.wf(),
    ensures
        (final(cpu)@, result) == spec_extended(old(cpu)@, 0x92),
        final(cpu)@.wf(),
        result matches Ok(cycles) ==> cycles <= 24,
{
    reset_register_bit(cpu, Register::D, 2)
}

/// res 2, E
pub fn opcode_cb93(cpu: &mut Cpu) -> (result: InsnResult)
    requires
        old(cpu)@.wf(),
    ensures
        (final(cpu)@, result) == spec_extended(old(cpu)@, 0x93),
        final(cpu)@.wf(),
        result matches Ok(cycles) ==> cycles <= 24,
{
    reset_register_bit(cpu, Register::E, 2)
}

/// res 2, H
pub fn opcode_cb94(cpu: &mut Cpu) -> (result: InsnResult)
    requires
        old(cpu)@.wf(),
    ensures
        (final(cpu)@, result) == spec_extended(old(cpu)@, 0x94),
        final(cpu)@.wf(),
        result matches Ok(cycles) ==> cycles <= 24,
{
    reset_register_bit(cpu, Register::H, 2)
}

/// res 2, L
pub fn opcode_cb95(cpu: &mut Cpu) -> (result: InsnResult)
    requires
        old(cpu)@.wf(),
    ensures
        (final(cpu)@, result) == spec_extended(old(cpu)@, 0x95),
        final(cpu)@.wf(),
        result matches Ok(cycles) ==> cycles <= 24,
{
    reset_register_bit(cpu, Register::L, 2)
}

/// res 2, (HL)
pub fn opcode_cb96(cpu: &mut Cpu) -> (result: InsnResult)
    requires
        old(cpu)@.wf(),
    ensures
        (final(cpu)@, result) == spec_extended(old(cpu)@, 0x96),
        final(cpu)@.wf(),
        result matches Ok(cycles) ==> cycles <= 24,
{
    reset_memory_bit(cpu, 2)
}

/// res 2, A
pub fn opcode_cb97(cpu: &mut Cpu) -> (result: InsnResult)
    requires
        old(cpu)@.wf(),
    ensures
        (final(cpu)@, result) == spec_extended(old(cpu)@, 0x97),
        final(cpu)@.wf(),
        result matches Ok(cycles) ==> cycles <= 24,
{
    reset_register_bit(cpu, Register::A, 2)
}

/// res 3, B
pub fn opcode_cb98(cpu: &mut Cpu) -> (result: InsnResult)
    requires
        old(cpu)@.wf(),
    ensures
        (final(cpu)@, result) == spec_extended(old(cpu)@, 0x98),
        final(cpu)@.wf(),
        result matches Ok(cycles) ==> cycles <= 24,
{
    reset_register_bit(cpu, Register::B, 3)
}

/// res 3, C
pub fn opcode_cb99(cpu: &mut Cpu) -> (result: InsnResult)
    requires
        old(cpu)@.wf(),
    ensures
        (final(cpu)@, result) == spec_extended(old(cpu)@, 0x99),
        final(cpu)@.wf(),
        result matches Ok(cycles) ==> cycles <= 24,
{
    reset_register_bit(cpu, Register::C, 3)
}

/// res 3, D
pub fn opcode_cb9a(cpu: &mut Cpu) -> (result: InsnResult)
    requires
        old(cpu)@.wf(),
    ensures
        (final(cpu)@, result) == spec_extended(old(cpu)@, 0x9a),
        final(cpu)@.wf(),
        result matches Ok(cycles) ==> cycles <= 24,
{
    reset_register_bit(cpu, Register::D, 3)
}

/// res 3, E
pub fn opcode_cb9b(cpu: &mut Cpu) -> (result: InsnResult)
    requires
        old(cpu)@.wf(),
    ensures
        (final(cpu)@, result) == spec_extended(old(cpu)@, 0x9b),
        final(cpu)@.wf(),
        result matches Ok(cycles) ==> cycles <= 24,
{
    reset_register_bit(cpu, Register::E, 3)
}

/// res 3, H
pub fn opcode_cb9c(cpu: &mut Cpu) -> (result: InsnResult)
    requires
        old(cpu)@.wf(),
    ensures
        (final(cpu)@, result) == spec_extended(old(cpu)@, 0x9c),
        final(cpu)@.wf(),
        result matches Ok(cycles) ==> cycles <= 24,
{
    reset_register_bit(cpu, Register::H, 3)
}

/// res 3, L
pub fn opcode_cb9d(cpu: &mut Cpu) -> (result: InsnResult)
    requires
        old(cpu)@.wf(),
    ensures
        (final(cpu)@, result) == spec_extended(old(cpu)@, 0x9d),
        final(cpu)@.wf(),
        result matches Ok(cycles) ==> cycles <= 24,
{
    reset_register_bit(cpu, Register::L, 3)
}

/// res 3, (HL)
pub fn opcode_cb9e(cpu: &mut Cpu) -> (result: InsnResult)
    requires
        old(cpu)@.wf(),
    ensures
        (final(cpu)@, result) == spec_extended(old(cpu)@, 0x9e),
        final(cpu)@.wf(),
        result matches Ok(cycles) ==> cycles <= 24,
{
    reset_memory_bit(cpu, 3)
}

/// res 3, A
pub fn opcode_cb9f(cpu: &mut Cpu) -> (result: InsnResult)
    requires
        old(cpu)@.wf(),
    ensures
        (final(cpu)@, result) == spec_extended(old(cpu)@, 0x9f),
        final(cpu)@.wf(),
        result matches Ok(cycles) ==> cycles <= 24,
{
    reset_register_bit(cpu, Register::A, 3)
}

/// res 4, B
pub fn opcode_cba0(cpu: &mut Cpu) -> (result: InsnResult)
    requires
        old(cpu)@.wf(),
    ensures
        (final(cpu)@, result) == spec_extended(old(cpu)@, 0xa0),
        final(cpu)@.wf(),
        result matches Ok(cycles) ==> cycles <= 24,
{
    reset_register_bit(cpu, Register::B, 4)
}

/// res 4, C
pub fn opcode_cba1(cpu: &mut Cpu) -> (result: InsnResult)
    requires
        old(cpu)@.wf(),
    ensures
        (final(cpu)@, result) == spec_extended(old(cpu)@, 0xa1),
        final(cpu)@.wf(),
        result matches Ok(cycles) ==> cycles <= 24,
{
    reset_register_bit(cpu, Register::C, 4)
}

/// res 4, D
pub fn opcode_cba2(cpu: &mut Cpu) -> (result: InsnResult)
    requires
        old(cpu)@.wf(),
    ensures
        (final(cpu)@, result) == spec_extended(old(cpu)@, 0xa2),
        final(cpu)@.wf(),
        result matches Ok(cycles) ==> cycles <= 24,
{
    reset_register_bit(cpu, Register::D, 4)
}

/// res 4, E
pub fn opcode_cba3(cpu: &mut Cpu) -> (result: InsnResult)
    requires
        old(cpu)@.wf(),
    ensures
        (final(cpu)@, result) == spec_extended(old(cpu)@, 0xa3),
        final(cpu)@.wf(),
        result matches Ok(cycles) ==> cycles <= 24,
{
    reset_register_bit(cpu, Register::E, 4)
}

/// res 4, H
pub fn opcode_cba4(cpu: &mut Cpu) -> (result: InsnResult)
    requires
        old(cpu)@.wf(),
    ensures
        (final(cpu)@, result) == spec_extended(old(cpu)@, 0xa4),
        final(cpu)@.wf(),
        result matches Ok(cycles) ==> cycles <= 24,
{
    reset_register_bit(cpu, Register::H, 4)
}

/// res 4, L
pub fn opcode_cba5(cpu: &mut Cpu) -> (result: InsnResult)
    requires
        old(cpu)@.wf(),
    ensures
        (final(cpu)@, result) == spec_extended(old(cpu)@, 0xa5),
        final(cpu)@.wf(),
        result matches Ok(cycles) ==> cycles <= 24,
{
    reset_register_bit(cpu, Register::L, 4)
}

/// res 4, (HL)
pub fn opcode_cba6(cpu: &mut Cpu) -> (result: InsnResult)
    requires
        old(cpu)@.wf(),
    ensures
        (final(cpu)@, result) == spec_extended(old(cpu)@, 0xa6),
        final(cpu)@.wf(),
        result matches Ok(cycles) ==> cycles <= 24,
{
    reset_memory_bit(cpu, 4)
}

/// res 4, A
pub fn opcode_cba7(cpu: &mut Cpu) -> (result: InsnResult)
    requires
        old(cpu)@.wf(),
    ensures
        (final(cpu)@, result) == spec_extended(old(cpu)@, 0xa7),
        final(cpu)@.wf(),
        result matches Ok(cycles) ==> cycles <= 24,
{
    reset_register_bit(cpu, Register::A, 4)
}

/// res 5, B
pub fn opcode_cba8(cpu: &mut Cpu) -> (result: InsnResult)
    requires
        old(cpu)@.wf(),
    ensures
        (final(cpu)@, result) == spec_extended(old(cpu)@, 0xa8),
        final(cpu)@.wf(),
        result matches Ok(cycles) ==> cycles <= 24,
{
    reset_register_bit(cpu, Register::B, 5)
}

/// res 5, C
pub fn opcode_cba9(cpu: &mut Cpu) -> (result: InsnResult)
    requires
        old(cpu)@.wf(),
    ensures
        (final(cpu)@, result) == spec_extended(old(cpu)@, 0xa9),
        final(cpu)@.wf(),
        result matches Ok(cycles) ==> cycles <= 24,
{
    reset_register_bit(cpu, Register::C, 5)
}

/// res 5, D
pub fn opcode_cbaa(cpu: &mut Cpu) -> (result: InsnResult)
    requires
        old(cpu)@.wf(),
    ensures
        (final(cpu)@, result) == spec_extended(old(cpu)@, 0xaa),
        final(cpu)@.wf(),
        result matches Ok(cycles) ==> cycles <= 24,
{
    reset_register_bit(cpu, Register::D, 5)
}

/// res 5, E
pub fn opcode_cbab(cpu: &mut Cpu) -> (result: InsnResult)
    requires
        old(cpu)@.wf(),
    ensures
        (final(cpu)@, result) == spec_extended(old(cpu)@, 0xab),
        final(cpu)@.wf(),
        result matches Ok(cycles) ==> cycles <= 24,
{
    reset_register_bit(cpu, Register::E, 5)
}

/// res 5, H
pub fn opcode_cbac(cpu: &mut Cpu) -> (result: InsnResult)
    requires
        old(cpu)@.wf(),
    ensures
        (final(cpu)@, result) == spec_extended(old(cpu)@, 0xac),
        final(cpu)@.wf(),
        result matches Ok(cycles) ==> cycles <= 24,
{
    reset_register_bit(cpu, Register::H, 5)
}

/// res 5, L
pub fn opcode_cbad(cpu: &mut Cpu) -> (result: InsnResult)
    requires
        old(cpu)@.wf(),
    ensures
        (final(cpu)@, result) == spec_extended(old(cpu)@, 0xad),
        final(cpu)@.wf(),
        result matches Ok(cycles) ==> cycles <= 24,
{
    reset_register_bit(cpu, Register::L, 5)
}

/// res 5, (HL)
pub fn opcode_cbae(cpu: &mut Cpu) -> (result: InsnResult)
    requires
        old(cpu)@.wf(),
    ensures
        (final(cpu)@, result) == spec_extended(old(cpu)@, 0xae),
        final(cpu)@.wf(),
        result matches Ok(cycles) ==> cycles <= 24,
{
    reset_memory_bit(cpu, 5)
}

/// res 5, A
pub fn opcode_cbaf(cpu: &mut Cpu) -> (result: InsnResult)
    requires
        old(cpu)@.wf(),
    ensures
        (final(cpu)@, result) == spec_extended(old(cpu)@, 0xaf),
        final(cpu)@.wf(),
        result matches Ok(cycles) ==> cycles <= 24,
{
    reset_register_bit(cpu, Register::A, 5)
}

/// res 6, B
pub fn opcode_cbb0(cpu: &mut Cpu) -> (result: InsnResult)
    requires
        old(cpu)@.wf(),
    ensures
        (final(cpu)@, result) == spec_extended(old(cpu)@, 0xb0),
        final(cpu)@.wf(),
        result matches Ok(cycles) ==> cycles <= 24,
{
    reset_register_bit(cpu, Register::B, 6)
}

/// res 6, C
pub fn opcode_cbb1(cpu: &mut Cpu) -> (result: InsnResult)
    requires
        old(cpu)@.wf(),
    ensures
        (final(cpu)@, result) == spec_extended(old(cpu)@, 0xb1),
        final(cpu)@.wf(),
        result matches Ok(cycles) ==> cycles <= 24,
{
    reset_register_bit(cpu, Register::C, 6)
}

/// res 6, D
pub fn opcode_cbb2(cpu: &mut Cpu) -> (result: InsnResult)
    requires
        old(cpu)@.wf(),
    ensures
        (final(cpu)@, result) == spec_extended(old(cpu)@, 0xb2),
        final(cpu)@.wf(),
        result matches Ok(cycles) ==> cycles <= 24,
{
    reset_register_bit(cpu, Register::D, 6)
}

/// res 6, E
pub fn opcode_cbb3(cpu: &mut Cpu) -> (result: InsnResult)
    requires
        old(cpu)@.wf(),
    ensures
        (final(cpu)@, result) == spec_extended(old(cpu)@, 0xb3),
        final(cpu)@.wf(),
        result matches Ok(cycles) ==> cycles <= 24,
{
    reset_register_bit(cpu, Register::E, 6)
}

/// res 6, H
pub fn opcode_cbb4(cpu: &mut Cpu) -> (result: InsnResult)
    requires
        old(cpu)@.wf(),
    ensures
        (final(cpu)@, result) == spec_extended(old(cpu)@, 0xb4),
        final(cpu)@.wf(),
        result matches Ok(cycles) ==> cycles <= 24,
{
    reset_register_bit(cpu, Register::H, 6)
}

/// res 6, L
pub fn opcode_cbb5(cpu: &mut Cpu) -> (result: InsnResult)
    requires
        old(cpu)@.wf(),
    ensures
        (final(cpu)@, result) == spec_extended(old(cpu)@, 0xb5),
        final(cpu)@.wf(),
        result matches Ok(cycles) ==> cycles <= 24,
{
    reset_register_bit(cpu, Register::L, 6)
}

/// res 6, (HL)
pub fn opcode_cbb6(cpu: &mut Cpu) -> (result: InsnResult)
    requires
        old(cpu)@.wf(),
    ensures
        (final(cpu)@, result) == spec_extended(old(cpu)@, 0xb6),
        final(cpu)@.wf(),
        result matches Ok(cycles) ==> cycles <= 24,
{
    reset_memory_bit(cpu, 6)
}

/// res 6, A
pub fn opcode_cbb7(cpu: &mut Cpu) -> (result: InsnResult)
    requires
        old(cpu)@.wf(),
    ensures
        (final(cpu)@, result) == spec_extended(old(cpu)@, 0xb7),
        final(cpu)@.wf(),
        result matches Ok(cycles) ==> cycles <= 24,
{
    reset_register_bit(cpu, Register::A, 6)
}

/// res 7, B
pub fn opcode_cbb8(cpu: &mut Cpu) -> (result: InsnResult)
    requires
        old(cpu)@.wf(),
    ensures
        (final(cpu)@, result) == spec_extended(old(cpu)@, 0xb8),
        final(cpu)@.wf(),
        result matches Ok(cycles) ==> cycles <= 24,
{
    reset_register_bit(cpu, Register::B, 7)
}

/// res 7, C
pub fn opcode_cbb9(cpu: &mut Cpu) -> (result: InsnResult)
    requires
        old(cpu)@.wf(),
    ensures
        (final(cpu)@, result) == spec_extended(old(cpu)@, 0xb9),
        final(cpu)@.wf(),
        result matches Ok(cycles) ==> cycles <= 24,
{
    reset_register_bit(cpu, Register::C, 7)
}

/// res 7, D
pub fn opcode_cbba(cpu: &mut Cpu) -> (result: InsnResult)
    requires
        old(cpu)@.wf(),
    ensures
        (final(cpu)@, result) == spec_extended(old(cpu)@, 0xba),
        final(cpu)@.wf(),
        result matches Ok(cycles) ==> cycles <= 24,
{
    reset_register_bit(cpu, Register::D, 7)
}

/// res 7, E
pub fn opcode_cbbb(cpu: &mut Cpu) -> (result: InsnResult)
    requires
        old(cpu)@.wf(),
    ensures
        (final(cpu)@, result) == spec_extended(old(cpu)@, 0xbb),
        final(cpu)@.wf(),
        result matches Ok(cycles) ==> cycles <= 24,
{
    reset_register_bit(cpu, Register::E, 7)
}

/// res 7, H
pub fn opcode_cbbc(cpu: &mut Cpu) -> (result: InsnResult)
    requires
        old(cpu)@.wf(),
    ensures
        (final(cpu)@, result) == spec_extended(old(cpu)@, 0xbc),
        final(cpu)@.wf(),
        result matches Ok(cycles) ==> cycles <= 24,
{
    reset_register_bit(cpu, Register::H, 7)
}

/// res 7, L
pub fn opcode_cbbd(cpu: &mut Cpu) -> (result: InsnResult)
    requires
        old(cpu)@.wf(),
    ensures
        (final(cpu)@, result) == spec_extended(old(cpu)@, 0xbd),
        final(cpu)@.wf(),
        result matches Ok(cycles) ==> cycles <= 24,
{
    reset_register_bit(cpu, Register::L, 7)
}

/// res 7, (HL)
pub fn opcode_cbbe(cpu: &mut Cpu) -> (result: InsnResult)
    requires
        old(cpu)@.wf(),
    ensures
        (final(cpu)@, result) == spec_extended(old(cpu)@, 0xbe),
        final(cpu)@.wf(),
        result matches Ok(cycles) ==> cycles <= 24,
{
    reset_memory_bit(cpu, 7)
}

/// res 7, A
pub fn opcode_cbbf(cpu: &mut Cpu) -> (result: InsnResult)
    requires
        old(cpu)@.wf(),
    ensures
        (final(cpu)@, result) == spec_extended(old(cpu)@, 0xbf),
        final(cpu)@.wf(),
        result matches Ok(cycles) ==> cycles <= 24,
{
    reset_register_bit(cpu, Register::A, 7)
}

/// set 0, B
pub fn opcode_cbc0(cpu: &mut Cpu) -> (result: InsnResult)
    requires
        old(cpu)@.wf(),
    ensures
        (final(cpu)@, result) == spec_extended(old(cpu)@, 0xc0),
        final(cpu)@.wf(),
        result matches Ok(cycles) ==> cycles <= 24,
{
    register_op(cpu, ByteOp::SetBit(0), Register::B)
}

/// set 0, C
pub fn opcode_cbc1(cpu: &mut Cpu) -> (result: InsnResult)
    requires
        old(cpu)@.wf(),
    ensures
        (final(cpu)@, result) == spec_extended(old(cpu)@, 0xc1),
        final(cpu)@.wf(),
        result matches Ok(cycles) ==> cycles <= 24,
{
    register_op(cpu, ByteOp::SetBit(0), Register::C)
}

/// set 0, D
pub fn opcode_cbc2(cpu: &mut Cpu) -> (result: InsnResult)
    requires
        old(cpu)@.wf(),
    ensures
        (final(cpu)@, result) == spec_extended(old(cpu)@, 0xc2),
        final(cpu)@.wf(),
        result matches Ok(cycles) ==> cycles <= 24,
{
    register_op(cpu, ByteOp::SetBit(0), Register::D)
}

/// set 0, E
pub fn opcode_cbc3(cpu: &mut Cpu) -> (result: InsnResult)
    requires
        old(cpu)@.wf(),
    ensures
        (final(cpu)@, result) == spec_extended(old(cpu)@, 0xc3),
        final(cpu)@.wf(),
        result matches Ok(cycles) ==> cycles <= 24,
{
    register_op(cpu, ByteOp::SetBit(0), Register::E)
}

/// set 0, H
pub fn opcode_cbc4(cpu: &mut Cpu) -> (result: InsnResult)
    requires
        old(cpu)@.wf(),
    ensures
        (final(cpu)@, result) == spec_extended(old(cpu)@, 0xc4),
        final(cpu)@.wf(),
        result matches Ok(cycles) ==> cycles <= 24,
{
    register_op(cpu, ByteOp::SetBit(0), Register::H)
}

/// set 0, L
pub fn opcode_cbc5(cpu: &mut Cpu) -> (result: InsnResult)
    requires
        old(cpu)@.wf(),
    ensures
        (final(cpu)@, result) == spec_extended(old(cpu)@, 0xc5),
        final(cpu)@.wf(),
        result matches Ok(cycles) ==> cycles <= 24,
{
    register_op(cpu, ByteOp::SetBit(0), Register::L)
}

/// set 0, (HL)
pub fn opcode_cbc6(cpu: &mut Cpu) -> (result: InsnResult)
    requires
        old(cpu)@.wf(),
    ensures
        (final(cpu)@, result) == spec_extended(old(cpu)@, 0xc6),
        final(cpu)@.wf(),
        result matches Ok(cycles) ==> cycles <= 24,
{
    memory_op(cpu, ByteOp::SetBit(0))
}

/// set 0, A
pub fn opcode_cbc7(cpu: &mut Cpu) -> (result: InsnResult)
    requires
        old(cpu)@.wf(),
    ensures
        (final(cpu)@, result) == spec_extended(old(cpu)@, 0xc7),
        final(cpu)@.wf(),
        result matches Ok(cycles) ==> cycles <= 24,
{
    register_op(cpu, ByteOp::SetBit(0), Register::A)
}

/// set 1, B
pub fn opcode_cbc8(cpu: &mut Cpu) -> (result: InsnResult)
    requires
        old(cpu)@.wf(),
    ensures
        (final(cpu)@, result) == spec_extended(old(cpu)@, 0xc8),
        final(cpu)@.wf(),
        result matches Ok(cycles) ==> cycles <= 24,
{
    register_op(cpu, ByteOp::SetBit(1), Register::B)
}

/// set 1, C
pub fn opcode_cbc9(cpu: &mut Cpu) -> (result: InsnResult)
    requires
        old(cpu)@.wf(),
    ensures
        (final(cpu)@, result) == spec_extended(old(cpu)@, 0xc9),
        final(cpu)@.wf(),
        result matches Ok(cycles) ==> cycles <= 24,
{
    register_op(cpu, ByteOp::SetBit(1), Register::C)
}

/// set 1, D
pub fn opcode_cbca(cpu: &mut Cpu) -> (result: InsnResult)
    requires
        old(cpu)@.wf(),
    ensures
        (final(cpu)@, result) == spec_extended(old(cpu)@, 0xca),
        final(cpu)@.wf(),
        result matches Ok(cycles) ==> cycles <= 24,
{
    register_op(cpu, ByteOp::SetBit(1), Register::D)
}

/// set 1, E
pub fn opcode_cbcb(cpu: &mut Cpu) -> (result: InsnResult)
    requires
        old(cpu)@.wf(),
    ensures
        (final(cpu)@, result) == spec_extended(old(cpu)@, 0xcb),
        final(cpu)@.wf(),
        result matches Ok(cycles) ==> cycles <= 24,
{
    register_op(cpu, ByteOp::SetBit(1), Register::E)
}

/// set 1, H
pub fn opcode_cbcc(cpu: &mut Cpu) -> (result: InsnResult)
    requires
        old(cpu)@.wf(),
    ensures
        (final(cpu)@, result) == spec_extended(old(cpu)@, 0xcc),
        final(cpu)@.wf(),
        result matches Ok(cycles) ==> cycles <= 24,
{
    register_op(cpu, ByteOp::SetBit(1), Register::H)
}

/// set 1, L
pub fn opcode_cbcd(cpu: &mut Cpu) -> (result: InsnResult)
    requires
        old(cpu)@.wf(),
    ensures
        (final(cpu)@, result) == spec_extended(old(cpu)@, 0xcd),
        final(cpu)@.wf(),
        result matches Ok(cycles) ==> cycles <= 24,
{
    register_op(cpu, ByteOp::SetBit(1), Register::L)
}

/// set 1, (HL)
pub fn opcode_cbce(cpu: &mut Cpu) -> (result: InsnResult)
    requires
        old(cpu)@.wf(),
    ensures
        (final(cpu)@, result) == spec_extended(old(cpu)@, 0xce),
        final(cpu)@.wf(),
        result matches Ok(cycles) ==> cycles <= 24,
{
    memory_op(cpu, ByteOp::SetBit(1))
}

/// set 1, A
pub fn opcode_cbcf(cpu: &mut Cpu) -> (result: InsnResult)
    requires
        old(cpu)@.wf(),
    ensures
        (final(cpu)@, result) == spec_extended(old(cpu)@, 0xcf),
        final(cpu)@.wf(),
        result matches Ok(cycles) ==> cycles <= 24,
{
    register_op(cpu, ByteOp::SetBit(1), Register::A)
}

/// set 2, B
pub fn opcode_cbd0(cpu: &mut Cpu) -> (result: InsnResult)
    requires
        old(cpu)@.wf(),
    ensures
        (final(cpu)@, result) == spec_extended(old(cpu)@, 0xd0),
        final(cpu)@.wf(),
        result matches Ok(cycles) ==> cycles <= 24,
{
    register_op(cpu, ByteOp::SetBit(2), Register::B)
}

/// set 2, C
pub fn opcode_cbd1(cpu: &mut Cpu) -> (result: InsnResult)
    requires
        old(cpu)@.wf(),
    ensures
        (final(cpu)@, result) == spec_extended(old(cpu)@, 0xd1),
        final(cpu)@.wf(),
        result matches Ok(cycles) ==> cycles <= 24,
{
    register_op(cpu, ByteOp::SetBit(2), Register::C)
}

/// set 2, D
pub fn opcode_cbd2(cpu: &mut Cpu) -> (result: InsnResult)
    requires
        old(cpu)@.wf(),
    ensures
        (final(cpu)@, result) == spec_extended(old(cpu)@, 0xd2),
        final(cpu)@.wf(),
        result matches Ok(cycles) ==> cycles <= 24,
{
    register_op(cpu, ByteOp::SetBit(2), Register::D)
}

/// set 2, E
pub fn opcode_cbd3(cpu: &mut Cpu) -> (result: InsnResult)
    requires
        old(cpu)@.wf(),
    ensures
        (final(cpu)@, result) == spec_extended(old(cpu)@, 0xd3),
        final(cpu)@.wf(),
        result matches Ok(cycles) ==> cycles <= 24,
{
    register_op(cpu, ByteOp::SetBit(2), Register::E)
}

/// set 2, H
pub fn opcode_cbd4(cpu: &mut Cpu) -> (result: InsnResult)
    requires
        old(cpu)@.wf(),
    ensures
        (final(cpu)@, result) == spec_extended(old(cpu)@, 0xd4),
        final(cpu)@.wf(),
        result matches Ok(cycles) ==> cycles <= 24,
{
    register_op(cpu, ByteOp::SetBit(2), Register::H)
}

/// set 2, L
pub fn opcode_cbd5(cpu: &mut Cpu) -> (result: InsnResult)
    requires
        old(cpu)@.wf(),
    ensures
        (final(cpu)@, result) == spec_extended(old(cpu)@, 0xd5),
        final(cpu)@.wf(),
        result matches Ok(cycles) ==> cycles <= 24,
{
    register_op(cpu, ByteOp::SetBit(2), Register::L)
}

/// set 2, (HL)
pub fn opcode_cbd6(cpu: &mut Cpu) -> (result: InsnResult)
    requires
        old(cpu)@.wf(),
    ensures
        (final(cpu)@, result) == spec_extended(old(cpu)@, 0xd6),
        final(cpu)@.wf(),
        result matches Ok(cycles) ==> cycles <= 24,
{
    memory_op(cpu, ByteOp::SetBit(2))
}

/// set 2, A
pub fn opcode_cbd7(cpu: &mut Cpu) -> (result: InsnResult)
    requires
        old(cpu)@.wf(),
    ensures
        (final(cpu)@, result) == spec_extended(old(cpu)@, 0xd7),
        final(cpu)@.wf(),
        result matches Ok(cycles) ==> cycles <= 24,
{
    register_op(cpu, ByteOp::SetBit(2), Register::A)
}

/// set 3, B
pub fn opcode_cbd8(cpu: &mut Cpu) -> (result: InsnResult)
    requires
        old(cpu)@.wf(),
    ensures
        (final(cpu)@, result) == spec_extended(old(cpu)@, 0xd8),
        final(cpu)@.wf(),
        result matches Ok(cycles) ==> cycles <= 24,
{
    register_op(cpu, ByteOp::SetBit(3), Register::B)
}

/// set 3, C
pub fn opcode_cbd9(cpu: &mut Cpu) -> (result: InsnResult)
    requires
        old(cpu)@.wf(),
    ensures
        (final(cpu)@, result) == spec_extended(old(cpu)@, 0xd9),
        final(cpu)@.wf(),
        result matches Ok(cycles) ==> cycles <= 24,
{
    register_op(cpu, ByteOp::SetBit(3), Register::C)
}

/// set 3, D
pub fn opcode_cbda(cpu: &mut Cpu) -> (result: InsnResult)
    requires
        old(cpu)@.wf(),
    ensures
        (final(cpu)@, result) == spec_extended(old(cpu)@, 0xda),
        final(cpu)@.wf(),
        result matches Ok(cycles) ==> cycles <= 24,
{
    register_op(cpu, ByteOp::SetBit(3), Register::D)
}

/// set 3, E
pub fn opcode_cbdb(cpu: &mut Cpu) -> (result: InsnResult)
    requires
        old(cpu)@.wf(),
    ensures
        (final(cpu)@, result) == spec_extended(old(cpu)@, 0xdb),
        final(cpu)@.wf(),
        result matches Ok(cycles) ==> cycles <= 24,
{
    register_op(cpu, ByteOp::SetBit(3), Register::E)
}

/// set 3, H
pub fn opcode_cbdc(cpu: &mut Cpu) -> (result: InsnResult)
    requires
        old(cpu)@.wf(),
    ensures
        (final(cpu)@, result) == spec_extended(old(cpu)@, 0xdc),
        final(cpu)@.wf(),
        result matches Ok(cycles) ==> cycles <= 24,
{
    register_op(cpu, ByteOp::SetBit(3), Register::H)
}

/// set 3, L
pub fn opcode_cbdd(cpu: &mut Cpu) -> (result: InsnResult)
    requires
        old(cpu)@.wf(),
    ensures
        (final(cpu)@, result) == spec_extended(old(cpu)@, 0xdd),
        final(cpu)@.wf(),
        result matches Ok(cycles) ==> cycles <= 24,
{
    register_op(cpu, ByteOp::SetBit(3), Register::L)
}

/// set 3, (HL)
pub fn opcode_cbde(cpu: &mut Cpu) -> (result: InsnResult)
    requires
        old(cpu)@.wf(),
    ensures
        (final(cpu)@, result) == spec_extended(old(cpu)@, 0xde),
        final(cpu)@.wf(),
        result matches Ok(cycles) ==> cycles <= 24,
{
    memory_op(cpu, ByteOp::SetBit(3))
}

/// set 3, A
pub fn opcode_cbdf(cpu: &mut Cpu) -> (result: InsnResult)
    requires
        old(cpu)@.wf(),
    ensures
        (final(cpu)@, result) == spec_extended(old(cpu)@, 0xdf),
        final(cpu)@.wf(),
        result matches Ok(cycles) ==> cycles <= 24,
{
    register_op(cpu, ByteOp::SetBit(3), Register::A)
}

/// set 4, B
pub fn opcode_cbe0(cpu: &mut Cpu) -> (result: InsnResult)
    requires
        old(cpu)@.wf(),
    ensures
        (final(cpu)@, result) == spec_extended(old(cpu)@, 0xe0),
        final(cpu)@.wf(),
        result matches Ok(cycles) ==> cycles <= 24,
{
    register_op(cpu, ByteOp::SetBit(4), Register::B)
}

/// set 4, C
pub fn opcode_cbe1(cpu: &mut Cpu) -> (result: InsnResult)
    requires
        old(cpu)@.wf(),
    ensures
        (final(cpu)@, result) == spec_extended(old(cpu)@, 0xe1),
        final(cpu)@.wf(),
        result matches Ok(cycles) ==> cycles <= 24,
{
    register_op(cpu, ByteOp::SetBit(4), Register::C)
}

/// set 4, D
pub fn opcode_cbe2(cpu: &mut Cpu) -> (result: InsnResult)
    requires
        old(cpu)@.wf(),
    ensures
        (final(cpu)@, result) == spec_extended(old(cpu)@, 0xe2),
        final(cpu)@.wf(),
        result matches Ok(cycles) ==> cycles <= 24,
{
    register_op(cpu, ByteOp::SetBit(4), Register::D)
}

/// set 4, E
pub fn opcode_cbe3(cpu: &mut Cpu) -> (result: InsnResult)
    requires
        old(cpu)@.wf(),
    ensures
        (final(cpu)@, result) == spec_extended(old(cpu)@, 0xe3),
        final(cpu)@.wf(),
        result matches Ok(cycles) ==> cycles <= 24,
{
    register_op(cpu, ByteOp::SetBit(4), Register::E)
}

/// set 4, H
pub fn opcode_cbe4(cpu: &mut Cpu) -> (result: InsnResult)
    requires
        old(cpu)@.wf(),
    ensures
        (final(cpu)@, result) == spec_extended(old(cpu)@, 0xe4),
        final(cpu)@.wf(),
        result matches Ok(cycles) ==> cycles <= 24,
{
    register_op(cpu, ByteOp::SetBit(4), Register::H)
}

/// set 4, L
pub fn opcode_cbe5(cpu: &mut Cpu) -> (result: InsnResult)
    requires
        old(cpu)@.wf(),
    ensures
        (final(cpu)@, result) == spec_extended(old(cpu)@, 0xe5),
        final(cpu)@.wf(),
        result matches Ok(cycles) ==> cycles <= 24,
{
    register_op(cpu, ByteOp::SetBit(4), Register::L)
}

/// set 4, (HL)
pub fn opcode_cbe6(cpu: &mut Cpu) -> (result: InsnResult)
    requires
        old(cpu)@.wf(),
    ensures
        (final(cpu)@, result) == spec_extended(old(cpu)@, 0xe6),
        final(cpu)@.wf(),
        result matches Ok(cycles) ==> cycles <= 24,
{
    memory_op(cpu, ByteOp::SetBit(4))
}

/// set 4, A
pub fn opcode_cbe7(cpu: &mut Cpu) -> (result: InsnResult)
    requires
        old(cpu)@.wf(),
    ensures
        (final(cpu)@, result) == spec_extended(old(cpu)@, 0xe7),
        final(cpu)@.wf(),
        result matches Ok(cycles) ==> cycles <= 24,
{
    register_op(cpu, ByteOp::SetBit(4), Register::A)
}

/// set 5, B
pub fn opcode_cbe8(cpu: &mut Cpu) -> (result: InsnResult)
    requires
        old(cpu)@.wf(),
    ensures
        (final(cpu)@, result) == spec_extended(old(cpu)@, 0xe8),
        final(cpu)@.wf(),
        result matches Ok(cycles) ==> cycles <= 24,
{
    register_op(cpu, ByteOp::SetBit(5), Register::B)
}

/// set 5, C
pub fn opcode_cbe9(cpu: &mut Cpu) -> (result: InsnResult)
    requires
        old(cpu)@.wf(),
    ensures
        (final(cpu)@, result) == spec_extended(old(cpu)@, 0xe9),
        final(cpu)@.wf(),
        result matches Ok(cycles) ==> cycles <= 24,
{
    register_op(cpu, ByteOp::SetBit(5), Register::C)
}

/// set 5, D
pub fn opcode_cbea(cpu: &mut Cpu) -> (result: InsnResult)
    requires
        old(cpu)@.wf(),
    ensures
        (final(cpu)@, result) == spec_extended(old(cpu)@, 0xea),
        final(cpu)@.wf(),
        result matches Ok(cycles) ==> cycles <= 24,
{
    register_op(cpu, ByteOp::SetBit(5), Register::D)
}

/// set 5, E
pub fn opcode_cbeb(cpu: &mut Cpu) -> (result: InsnResult)
    requires
        old(cpu)@.wf(),
    ensures
        (final(cpu)@, result) == spec_extended(old(cpu)@, 0xeb),
        final(cpu)@.wf(),
        result matches Ok(cycles) ==> cycles <= 24,
{
    register_op(cpu, ByteOp::SetBit(5), Register::E)
}

/// set 5, H
pub fn opcode_cbec(cpu: &mut Cpu) -> (result: InsnResult)
    requires
        old(cpu)@.wf(),
    ensures
        (final(cpu)@, result) == spec_extended(old(cpu)@, 0xec),
        final(cpu)@.wf(),
        result matches Ok(cycles) ==> cycles <= 24,
{
    register_op(cpu, ByteOp::SetBit(5), Register::H)
}

/// set 5, L
pub fn opcode_cbed(cpu: &mut Cpu) -> (result: InsnResult)
    requires
        old(cpu)@.wf(),
    ensures
        (final(cpu)@, result) == spec_extended(old(cpu)@, 0xed),
        final(cpu)@.wf(),
        result matches Ok(cycles) ==> cycles <= 24,
{
    register_op(cpu, ByteOp::SetBit(5), Register::L)
}

/// set 5, (HL)
pub fn opcode_cbee(cpu: &mut Cpu) -> (result: InsnResult)
    requires
        old(cpu)@.wf(),
    ensures
        (final(cpu)@, result) == spec_extended(old(cpu)@, 0xee),
        final(cpu)@.wf(),
        result matches Ok(cycles) ==> cycles <= 24,
{
    memory_op(cpu, ByteOp::SetBit(5))
}

/// set 5, A
pub fn opcode_cbef(cpu: &mut Cpu) -> (result: InsnResult)
    requires
        old(cpu)@.wf(),
    ensures
        (final(cpu)@, result) == spec_extended(old(cpu)@, 0xef),
        final(cpu)@.wf(),
        result matches Ok(cycles) ==> cycles <= 24,
{
    register_op(cpu, ByteOp::SetBit(5), Register::A)
}

/// set 6, B
pub fn opcode_cbf0(cpu: &mut Cpu) -> (result: InsnResult)
    requires
        old(cpu)@.wf(),
    ensures
        (final(cpu)@, result) == spec_extended(old(cpu)@, 0xf0),
        final(cpu)@.wf(),
        result matches Ok(cycles) ==> cycles <= 24,
{
    register_op(cpu, ByteOp::SetBit(6), Register::B)
}

/// set 6, C
pub fn opcode_cbf1(cpu: &mut Cpu) -> (result: InsnResult)
    requires
        old(cpu)@.wf(),
    ensures
        (final(cpu)@, result) == spec_extended(old(cpu)@, 0xf1),
        final(cpu)@.wf(),
        result matches Ok(cycles) ==> cycles <= 24,
{
    register_op(cpu, ByteOp::SetBit(6), Register::C)
}

/// set 6, D
pub fn opcode_cbf2(cpu: &mut Cpu) -> (result: InsnResult)
    requires
        old(cpu)@.wf(),
    ensures
        (final(cpu)@, result) == spec_extended(old(cpu)@, 0xf2),
        final(cpu)@.wf(),
        result matches Ok(cycles) ==> cycles <= 24,
{
    register_op(cpu, ByteOp::SetBit(6), Register::D)
}

/// set 6, E
pub fn opcode_cbf3(cpu: &mut Cpu) -> (result: InsnResult)
    requires
        old(cpu)@.wf(),
    ensures
        (final(cpu)@, result) == spec_extended(old(cpu)@, 0xf3),
        final(cpu)@.wf(),
        result matches Ok(cycles) ==> cycles <= 24,
{
    register_op(cpu, ByteOp::SetBit(6), Register::E)
}

/// set 6, H
pub fn opcode_cbf4(cpu: &mut Cpu) -> (result: InsnResult)
    requires
        old(cpu)@.wf(),
    ensures
        (final(cpu)@, result) == spec_extended(old(cpu)@, 0xf4),
        final(cpu)@.wf(),
        result matches Ok(cycles) ==> cycles <= 24,
{
    register_op(cpu, ByteOp::SetBit(6), Register::H)
}

/// set 6, L
pub fn opcode_cbf5(cpu: &mut Cpu) -> (result: InsnResult)
    requires
        old(cpu)@.wf(),
    ensures
        (final(cpu)@, result) == spec_extended(old(cpu)@, 0xf5),
        final(cpu)@.wf(),
        result matches Ok(cycles) ==> cycles <= 24,
{
    register_op(cpu, ByteOp::SetBit(6), Register::L)
}

/// set 6, (HL)
pub fn opcode_cbf6(cpu: &mut Cpu) -> (result: InsnResult)
    requires
        old(cpu)@.wf(),
    ensures
        (final(cpu)@, result) == spec_extended(old(cpu)@, 0xf6),
        final(cpu)@.wf(),
        result matches Ok(cycles) ==> cycles <= 24,
{
    memory_op(cpu, ByteOp::SetBit(6))
}

/// set 6, A
pub fn opcode_cbf7(cpu: &mut Cpu) -> (result: InsnResult)
    requires
        old(cpu)@.wf(),
    ensures
        (final(cpu)@, result) == spec_extended(old(cpu)@, 0xf7),
        final(cpu)@.wf(),
        result matches Ok(cycles) ==> cycles <= 24,
{
    register_op(cpu, ByteOp::SetBit(6), Register::A)
}

/// set 7, B
pub fn opcode_cbf8(cpu: &mut Cpu) -> (result: InsnResult)
    requires
        old(cpu)@.wf(),
    ensures
        (final(cpu)@, result) == spec_extended(old(cpu)@, 0xf8),
        final(cpu)@.wf(),
        result matches Ok(cycles) ==> cycles <= 24,
{
    register_op(cpu, ByteOp::SetBit(7), Register::B)
}

/// set 7, C
pub fn opcode_cbf9(cpu: &mut Cpu) -> (result: InsnResult)
    requires
        old(cpu)@.wf(),
    ensures
        (final(cpu)@, result) == spec_extended(old(cpu)@, 0xf9),
        final(cpu)@.wf(),
        result matches Ok(cycles) ==> cycles <= 24,
{
    register_op(cpu, ByteOp::SetBit(7), Register::C)
}

/// set 7, D
pub fn opcode_cbfa(cpu: &mut Cpu) -> (result: InsnResult)
    requires
        old(cpu)@.wf(),
    ensures
        (final(cpu)@, result) == spec_extended(old(cpu)@, 0xfa),
        final(cpu)@.wf(),
        result matches Ok(cycles) ==> cycles <= 24,
{
    register_op(cpu, ByteOp::SetBit(7), Register::D)
}

/// set 7, E
pub fn opcode_cbfb(cpu: &mut Cpu) -> (result: InsnResult)
    requires
        old(cpu)@.wf(),
    ensures
        (final(cpu)@, result) == spec_extended(old(cpu)@, 0xfb),
        final(cpu)@.wf(),
        result matches Ok(cycles) ==> cycles <= 24,
{
    register_op(cpu, ByteOp::SetBit(7), Register::E)
}

/// set 7, H
pub fn opcode_cbfc(cpu: &mut Cpu) -> (result: InsnResult)
    requires
        old(cpu)@.wf(),
    ensures
        (final(cpu)@, result) == spec_extended(old(cpu)@, 0xfc),
        final(cpu)@.wf(),
        result matches Ok(cycles) ==> cycles <= 24,
{
    register_op(cpu, ByteOp::SetBit(7), Register::H)
}

/// set 7, L
pub fn opcode_cbfd(cpu: &mut Cpu) -> (result: InsnResult)
    requires
        old(cpu)@.wf(),
    ensures
        (final(cpu)@, result) == spec_extended(old(cpu)@, 0xfd),
        final(cpu)@.wf(),
        result matches Ok(cycles) ==> cycles <= 24,
{
    register_op(cpu, ByteOp::SetBit(7), Register::L)
}

/// set 7, (HL)
pub fn opcode_cbfe(cpu: &mut Cpu) -> (result: InsnResult)
    requires
        old(cpu)@.wf(),
    ensures
        (final(cpu)@, result) == spec_extended(old(cpu)@, 0xfe),
        final(cpu)@.wf(),
        result matches Ok(cycles) ==> cycles <= 24,
{
    memory_op(cpu, ByteOp::SetBit(7))
}

/// set 7, A
pub fn opcode_cbff(cpu: &mut Cpu) -> (result: InsnResult)
    requires
        old(cpu)@.wf(),
    ensures
        (final(cpu)@, result) == spec_extended(old(cpu)@, 0xff),
        final(cpu)@.wf(),
        result matches Ok(cycles) ==> cycles <= 24,
{
    register_op(cpu, ByteOp::SetBit(7), Register::A)
}

} // verus!
