//! The 8-bit operations.
//!
//! Each operation is a function of its operands and of the carry flag, to a
//! result and four flags.

use vstd::prelude::*;
use crate::cpu::instructions::InsnResult;
use crate::cpu::state::{is_byte, Flag, Flags, Register};
use crate::cpu::{Cpu, CpuView};

verus! {

/// The operations between the accumulator and an operand.
#[derive(PartialEq, Eq, Structural, Clone, Copy, Debug)]
pub enum Alu8Op {
    /// Addition.
    Add,
    /// Addition with the carry flag.
    Adc,
    /// Subtraction.
    Sub,
    /// Subtraction with the carry flag.
    Sbc,
    /// Bitwise and.
    And,
    /// Bitwise exclusive or.
    Xor,
    /// Bitwise or.
    Or,
    /// Comparison: a subtraction whose result is dropped.
    Cp,
}

/// Whether the result of `op` replaces the left operand.
pub open spec fn spec_stores_result(op: Alu8Op) -> bool {
    op != Alu8Op::Cp
}

/// Tells whether the result of `op` replaces the left operand.
#[verifier::when_used_as_spec(spec_stores_result)]
pub fn stores_result(op: Alu8Op) -> (stores: bool)
    ensures
        stores == spec_stores_result(op),
{
    match op {
        Alu8Op::Cp => false,
        _ => true,
    }
}

/// The sum modulo 256; `h` tells a carry out of the low nibble, `c` a carry
/// out of the byte.
pub open spec fn spec_adc(lhs: u8, rhs: u8, carry: bool) -> (u8, Flags) {
    let carry_in = if carry {
        1int
    } else {
        0int
    };
    let sum = lhs + rhs + carry_in;
    ((sum % 256) as u8, Flags {
        z: sum % 256 == 0,
        n: false,
        h: lhs % 16 + rhs % 16 + carry_in > 15,
        c: sum > 255,
    })
}

/// The sum modulo 256.
pub open spec fn spec_add(lhs: u8, rhs: u8) -> (u8, Flags) {
    spec_adc(lhs, rhs, false)
}

/// The difference modulo 256; `h` tells a borrow into the low nibble, `c` a
/// borrow into the byte.
pub open spec fn spec_sbc(lhs: u8, rhs: u8, carry: bool) -> (u8, Flags) {
    let carry_in = if carry {
        1int
    } else {
        0int
    };
    let difference = lhs - rhs - carry_in;
    ((difference % 256) as u8, Flags {
        z: difference % 256 == 0,
        n: true,
        h: lhs % 16 < rhs % 16 + carry_in,
        c: lhs < rhs + carry_in,
    })
}

/// The difference modulo 256.
pub open spec fn spec_sub(lhs: u8, rhs: u8) -> (u8, Flags) {
    spec_sbc(lhs, rhs, false)
}

/// The bitwise and; `h` is set.
pub open spec fn spec_and(lhs: u8, rhs: u8) -> (u8, Flags) {
    (lhs & rhs, Flags { z: lhs & rhs == 0, n: false, h: true, c: false })
}

/// The bitwise or.
pub open spec fn spec_or(lhs: u8, rhs: u8) -> (u8, Flags) {
    (lhs | rhs, Flags { z: lhs | rhs == 0, n: false, h: false, c: false })
}

/// The bitwise exclusive or.
pub open spec fn spec_xor(lhs: u8, rhs: u8) -> (u8, Flags) {
    (lhs ^ rhs, Flags { z: lhs ^ rhs == 0, n: false, h: false, c: false })
}

/// The result and the flags of `op` on `lhs` and `rhs`, with the carry flag
/// `carry` before it.
pub open spec fn spec_apply(op: Alu8Op, carry: bool, lhs: u8, rhs: u8) -> (u8, Flags) {
    match op {
        Alu8Op::Add => spec_add(lhs, rhs),
        Alu8Op::Adc => spec_adc(lhs, rhs, carry),
        Alu8Op::Sub => spec_sub(lhs, rhs),
        Alu8Op::Sbc => spec_sbc(lhs, rhs, carry),
        Alu8Op::And => spec_and(lhs, rhs),
        Alu8Op::Xor => spec_xor(lhs, rhs),
        Alu8Op::Or => spec_or(lhs, rhs),
        Alu8Op::Cp => spec_sub(lhs, rhs),
    }
}

/// The value with its nibbles exchanged.
pub open spec fn spec_swap(value: u8) -> (u8, Flags) {
    let result = (value % 16 * 16 + value / 16) as u8;
    (result, Flags { z: result == 0, n: false, h: false, c: false })
}

/// The value rotated left by one bit. Bit 7 goes to the carry flag; bit 0
/// comes from the carry flag when the rotation goes through it, else from
/// bit 7.
pub open spec fn spec_rotate_left(value: u8, through_carry: bool, carry: bool) -> (u8, Flags) {
    let incoming = if through_carry {
        carry
    } else {
        value >= 128
    };
    let result = (value * 2 % 256 + if incoming {
        1int
    } else {
        0int
    }) as u8;
    (result, Flags { z: result == 0, n: false, h: false, c: value >= 128 })
}

/// The value rotated right by one bit. Bit 0 goes to the carry flag; bit 7
/// comes from the carry flag when the rotation goes through it, else from
/// bit 0.
pub open spec fn spec_rotate_right(value: u8, through_carry: bool, carry: bool) -> (u8, Flags) {
    let incoming = if through_carry {
        carry
    } else {
        value % 2 == 1
    };
    let result = (value / 2 + if incoming {
        128int
    } else {
        0int
    }) as u8;
    (result, Flags { z: result == 0, n: false, h: false, c: value % 2 == 1 })
}

/// The value shifted right by one bit. Bit 0 goes to the carry flag; bit 7
/// becomes zero in a logical shift and stays in an arithmetic one.
pub open spec fn spec_shift_right(value: u8, logic: bool) -> (u8, Flags) {
    let result = (value / 2 + if !logic && value >= 128 {
        128int
    } else {
        0int
    }) as u8;
    (result, Flags { z: result == 0, n: false, h: false, c: value % 2 == 1 })
}

/// The value shifted left by one bit. Bit 7 goes to the carry flag.
pub open spec fn spec_shift_left(value: u8) -> (u8, Flags) {
    let result = (value * 2 % 256) as u8;
    (result, Flags { z: result == 0, n: false, h: false, c: value >= 128 })
}

/// The value plus one modulo 256, with the flags of the addition but for the
/// carry flag, which stays.
pub open spec fn spec_inc(value: u8, carry: bool) -> (u8, Flags) {
    (spec_add(value, 1).0, Flags { c: carry, ..spec_add(value, 1).1 })
}

/// The value minus one modulo 256, with the flags of the subtraction but
/// for the carry flag, which stays.
pub open spec fn spec_dec(value: u8, carry: bool) -> (u8, Flags) {
    (spec_sub(value, 1).0, Flags { c: carry, ..spec_sub(value, 1).1 })
}

/// The state after `op` ran on two byte registers, and the four cycles it
/// takes.
#[verifier::opaque]
pub open spec fn spec_op_registers(cpu: CpuView, op: Alu8Op, lhs: Register, rhs: Register) -> (
    CpuView,
    InsnResult,
) {
    let outcome = spec_apply(
        op,
        cpu.flags().c,
        cpu.register(lhs) as u8,
        cpu.register(rhs) as u8,
    );
    let flagged = cpu.with_flags(outcome.1);
    (
        if spec_stores_result(op) {
            flagged.with_register(lhs, outcome.0 as u16)
        } else {
            flagged
        },
        Ok(4),
    )
}

/// The state after `op` ran on the accumulator and `operand`.
pub open spec fn spec_op_accumulator(cpu: CpuView, op: Alu8Op, operand: u8) -> CpuView {
    let outcome = spec_apply(op, cpu.flags().c, cpu.register(Register::A) as u8, operand);
    let flagged = cpu.with_flags(outcome.1);
    if spec_stores_result(op) {
        flagged.with_register(Register::A, outcome.0 as u16)
    } else {
        flagged
    }
}

/// The state after `op` ran on the accumulator and the byte that follows
/// the opcode, and the eight cycles it takes.
#[verifier::opaque]
pub open spec fn spec_op_imm(cpu: CpuView, op: Alu8Op) -> (CpuView, InsnResult) {
    match cpu.fetch8().1 {
        Err(error) => (cpu.fetch8().0, Err(error)),
        Ok(operand) => (spec_op_accumulator(cpu.fetch8().0, op, operand), Ok(8)),
    }
}

/// The state after `op` ran on the accumulator and the byte that `HL`
/// addresses, and the eight cycles it takes.
#[verifier::opaque]
pub open spec fn spec_op_mem(cpu: CpuView, op: Alu8Op) -> (CpuView, InsnResult) {
    match cpu.read(cpu.register(Register::HL)) {
        Err(error) => (cpu, Err(error)),
        Ok(operand) => (spec_op_accumulator(cpu, op, operand), Ok(8)),
    }
}

/// The state after a byte register was incremented or decremented, and the
/// four cycles it takes.
#[verifier::opaque]
pub open spec fn spec_step_register(cpu: CpuView, reg: Register, up: bool) -> (
    CpuView,
    InsnResult,
) {
    let outcome = if up {
        spec_inc(cpu.register(reg) as u8, cpu.flags().c)
    } else {
        spec_dec(cpu.register(reg) as u8, cpu.flags().c)
    };
    (cpu.with_register(reg, outcome.0 as u16).with_flags(outcome.1), Ok(4))
}

/// The state after the byte that `HL` addresses was incremented or
/// decremented, and the twelve cycles it takes. The flags change once the
/// byte is written.
#[verifier::opaque]
pub open spec fn spec_step_mem(cpu: CpuView, up: bool) -> (CpuView, InsnResult) {
    let address = cpu.register(Register::HL);
    match cpu.read(address) {
        Err(error) => (cpu, Err(error)),
        Ok(value) => {
            let outcome = if up {
                spec_inc(value, cpu.flags().c)
            } else {
                spec_dec(value, cpu.flags().c)
            };
            match cpu.write(address, outcome.0).1 {
                Err(error) => (cpu.write(address, outcome.0).0, Err(error)),
                Ok(_) => (cpu.write(address, outcome.0).0.with_flags(outcome.1), Ok(12)),
            }
        },
    }
}

/// Adds with the carry `carry`, and sets the flags.
fn add_with(cpu: &mut Cpu, lhs: u8, rhs: u8, carry: bool) -> (result: u8)
    ensures
        result == spec_adc(lhs, rhs, carry).0,
        final(cpu)@ == old(cpu)@.with_flags(spec_adc(lhs, rhs, carry).1),
{
    let carry_in: u16 = if carry {
        1
    } else {
        0
    };
    let sum: u16 = lhs as u16 + rhs as u16 + carry_in;
    let result: u8 = (sum % 256) as u8;
    cpu.registers.set_flags(
        Flags {
            z: result == 0,
            n: false,
            h: (lhs % 16) as u16 + (rhs % 16) as u16 + carry_in > 15,
            c: sum > 255,
        },
    );
    result
}

/// Subtracts with the carry `carry`, and sets the flags.
fn sub_with(cpu: &mut Cpu, lhs: u8, rhs: u8, carry: bool) -> (result: u8)
    ensures
        result == spec_sbc(lhs, rhs, carry).0,
        final(cpu)@ == old(cpu)@.with_flags(spec_sbc(lhs, rhs, carry).1),
{
    let carry_in: u16 = if carry {
        1
    } else {
        0
    };
    let difference: u16 = 256 + lhs as u16 - rhs as u16 - carry_in;
    let result: u8 = (difference % 256) as u8;
    assert(result == (lhs - rhs - carry_in) % 256) by {
        vstd::arithmetic::div_mod::lemma_mod_add_multiples_vanish(lhs - rhs - carry_in, 256);
    }
    cpu.registers.set_flags(
        Flags {
            z: result == 0,
            n: true,
            h: ((lhs % 16) as u16) < (rhs % 16) as u16 + carry_in,
            c: (lhs as u16) < rhs as u16 + carry_in,
        },
    );
    result
}

/// Adds `rhs` to `lhs`, sets the flags and returns the sum.
pub fn add(cpu: &mut Cpu, lhs: u8, rhs: u8) -> (result: u8)
    ensures
        result == spec_add(lhs, rhs).0,
        result == (lhs + rhs) % 256,
        final(cpu)@ == old(cpu)@.with_flags(spec_add(lhs, rhs).1),
{
    add_with(cpu, lhs, rhs, false)
}

/// Adds `rhs` and the carry flag to `lhs`, sets the flags and returns the
/// sum.
pub fn adc(cpu: &mut Cpu, lhs: u8, rhs: u8) -> (result: u8)
    ensures
        result == spec_adc(lhs, rhs, old(cpu)@.flags().c).0,
        final(cpu)@ == old(cpu)@.with_flags(spec_adc(lhs, rhs, old(cpu)@.flags().c).1),
{
    let carry = cpu.registers.flag(Flag::C);
    add_with(cpu, lhs, rhs, carry)
}

/// Subtracts `rhs` from `lhs`, sets the flags and returns the difference.
pub fn sub(cpu: &mut Cpu, lhs: u8, rhs: u8) -> (result: u8)
    ensures
        result == spec_sub(lhs, rhs).0,
        result == (lhs - rhs) % 256,
        final(cpu)@ == old(cpu)@.with_flags(spec_sub(lhs, rhs).1),
{
    sub_with(cpu, lhs, rhs, false)
}

/// Subtracts `rhs` and the carry flag from `lhs`, sets the flags and
/// returns the difference.
pub fn sbc(cpu: &mut Cpu, lhs: u8, rhs: u8) -> (result: u8)
    ensures
        result == spec_sbc(lhs, rhs, old(cpu)@.flags().c).0,
        final(cpu)@ == old(cpu)@.with_flags(spec_sbc(lhs, rhs, old(cpu)@.flags().c).1),
{
    let carry = cpu.registers.flag(Flag::C);
    sub_with(cpu, lhs, rhs, carry)
}

/// Computes the bitwise and, sets the flags and returns the result.
pub fn and(cpu: &mut Cpu, lhs: u8, rhs: u8) -> (result: u8)
    ensures
        result == spec_and(lhs, rhs).0,
        final(cpu)@ == old(cpu)@.with_flags(spec_and(lhs, rhs).1),
{
    let result: u8 = lhs & rhs;
    cpu.registers.set_flags(Flags { z: result == 0, n: false, h: true, c: false });
    result
}

/// Computes the bitwise or, sets the flags and returns the result.
pub fn or(cpu: &mut Cpu, lhs: u8, rhs: u8) -> (result: u8)
    ensures
        result == spec_or(lhs, rhs).0,
        final(cpu)@ == old(cpu)@.with_flags(spec_or(lhs, rhs).1),
{
    let result: u8 = lhs | rhs;
    cpu.registers.set_flags(Flags { z: result == 0, n: false, h: false, c: false });
    result
}

/// Computes the bitwise exclusive or, sets the flags and returns the
/// result.
pub fn xor(cpu: &mut Cpu, lhs: u8, rhs: u8) -> (result: u8)
    ensures
        result == spec_xor(lhs, rhs).0,
        final(cpu)@ == old(cpu)@.with_flags(spec_xor(lhs, rhs).1),
{
    let result: u8 = lhs ^ rhs;
    cpu.registers.set_flags(Flags { z: result == 0, n: false, h: false, c: false });
    result
}

/// Compares `lhs` with `rhs`: sets the flags of the subtraction and returns
/// the difference.
pub fn cp(cpu: &mut Cpu, lhs: u8, rhs: u8) -> (result: u8)
    ensures
        result == spec_sub(lhs, rhs).0,
        final(cpu)@ == old(cpu)@.with_flags(spec_sub(lhs, rhs).1),
{
    self::sub(cpu, lhs, rhs)
}

/// Runs `op` on `lhs` and `rhs`, sets the flags and returns the result.
pub fn apply(op: Alu8Op, cpu: &mut Cpu, lhs: u8, rhs: u8) -> (result: u8)
    ensures
        result == spec_apply(op, old(cpu)@.flags().c, lhs, rhs).0,
        final(cpu)@ == old(cpu)@.with_flags(spec_apply(op, old(cpu)@.flags().c, lhs, rhs).1),
{
    match op {
        Alu8Op::Add => self::add(cpu, lhs, rhs),
        Alu8Op::Adc => adc(cpu, lhs, rhs),
        Alu8Op::Sub => self::sub(cpu, lhs, rhs),
        Alu8Op::Sbc => sbc(cpu, lhs, rhs),
        Alu8Op::And => and(cpu, lhs, rhs),
        Alu8Op::Xor => xor(cpu, lhs, rhs),
        Alu8Op::Or => or(cpu, lhs, rhs),
        Alu8Op::Cp => cp(cpu, lhs, rhs),
    }
}

/// Returns `value` with its nibbles exchanged, and the flags.
pub fn swapped(value: u8) -> (outcome: (u8, Flags))
    ensures
        outcome == spec_swap(value),
{
    let result: u8 = value % 16 * 16 + value / 16;
    (result, Flags { z: result == 0, n: false, h: false, c: false })
}

/// Returns `value` rotated right by one bit, and the flags; `carry` is the
/// carry flag before.
pub fn rotated_right(value: u8, through_carry: bool, carry: bool) -> (outcome: (u8, Flags))
    ensures
        outcome == spec_rotate_right(value, through_carry, carry),
{
    let new_carry = value % 2 == 1;
    let incoming = if through_carry {
        carry
    } else {
        new_carry
    };
    let result: u8 = value / 2 + if incoming {
        128
    } else {
        0
    };
    (result, Flags { z: result == 0, n: false, h: false, c: new_carry })
}

/// Returns `value` rotated left by one bit, and the flags; `carry` is the
/// carry flag before.
pub fn rotated_left(value: u8, through_carry: bool, carry: bool) -> (outcome: (u8, Flags))
    ensures
        outcome == spec_rotate_left(value, through_carry, carry),
{
    let new_carry = value >= 128;
    let incoming = if through_carry {
        carry
    } else {
        new_carry
    };
    let result: u8 = (value as u16 * 2 % 256) as u8 + if incoming {
        1
    } else {
        0
    };
    (result, Flags { z: result == 0, n: false, h: false, c: new_carry })
}

/// Returns `value` shifted right by one bit, and the flags.
pub fn shifted_right(value: u8, logic: bool) -> (outcome: (u8, Flags))
    ensures
        outcome == spec_shift_right(value, logic),
{
    let result: u8 = value / 2 + if !logic && value >= 128 {
        128
    } else {
        0
    };
    (result, Flags { z: result == 0, n: false, h: false, c: value % 2 == 1 })
}

/// Returns `value` shifted left by one bit, and the flags.
pub fn shifted_left(value: u8) -> (outcome: (u8, Flags))
    ensures
        outcome == spec_shift_left(value),
{
    let result: u8 = (value as u16 * 2 % 256) as u8;
    (result, Flags { z: result == 0, n: false, h: false, c: value >= 128 })
}

/// Exchanges the nibbles of `value`, sets the flags and returns the result.
pub fn swap(cpu: &mut Cpu, value: u8) -> (result: u8)
    ensures
        result == spec_swap(value).0,
        final(cpu)@ == old(cpu)@.with_flags(spec_swap(value).1),
{
    let outcome = swapped(value);
    cpu.registers.set_flags(outcome.1);
    outcome.0
}

/// Rotates `value` right by one bit, through the carry flag if `carry`
/// holds, sets the flags and returns the result.
pub fn rotate_right(cpu: &mut Cpu, value: u8, carry: bool) -> (result: u8)
    ensures
        result == spec_rotate_right(value, carry, old(cpu)@.flags().c).0,
        final(cpu)@ == old(cpu)@.with_flags(
            spec_rotate_right(value, carry, old(cpu)@.flags().c).1,
        ),
{
    let outcome = rotated_right(value, carry, cpu.registers.flag(Flag::C));
    cpu.registers.set_flags(outcome.1);
    outcome.0
}

/// Rotates `value` left by one bit, through the carry flag if `carry`
/// holds, sets the flags and returns the result.
pub fn rotate_left(cpu: &mut Cpu, value: u8, carry: bool) -> (result: u8)
    ensures
        result == spec_rotate_left(value, carry, old(cpu)@.flags().c).0,
        final(cpu)@ == old(cpu)@.with_flags(
            spec_rotate_left(value, carry, old(cpu)@.flags().c).1,
        ),
{
    let outcome = rotated_left(value, carry, cpu.registers.flag(Flag::C));
    cpu.registers.set_flags(outcome.1);
    outcome.0
}

/// Shifts `value` right by one bit, sets the flags and returns the result.
/// A logical shift clears bit 7, an arithmetic shift keeps it.
pub fn shift_right(cpu: &mut Cpu, value: u8, logic: bool) -> (result: u8)
    ensures
        result == spec_shift_right(value, logic).0,
        final(cpu)@ == old(cpu)@.with_flags(spec_shift_right(value, logic).1),
{
    let outcome = shifted_right(value, logic);
    cpu.registers.set_flags(outcome.1);
    outcome.0
}

/// Shifts `value` left by one bit, sets the flags and returns the result.
pub fn shift_left(cpu: &mut Cpu, value: u8) -> (result: u8)
    ensures
        result == spec_shift_left(value).0,
        final(cpu)@ == old(cpu)@.with_flags(spec_shift_left(value).1),
{
    let outcome = shifted_left(value);
    cpu.registers.set_flags(outcome.1);
    outcome.0
}

/// Runs `op` on two byte registers; the result goes to `lhs`, unless `op`
/// is a comparison.
pub fn op_registers(op: Alu8Op, cpu: &mut Cpu, lhs: Register, rhs: Register) -> (result:
    InsnResult)
    requires
        is_byte(lhs),
        is_byte(rhs),
    ensures
        (final(cpu)@, result) == spec_op_registers(old(cpu)@, op, lhs, rhs),
        final(cpu)@.mmap == old(cpu)@.mmap,
        result matches Ok(cycles) ==> cycles <= 24,
{
    proof {
        reveal(spec_op_registers);
    }
    let left = cpu.registers.get8(lhs);
    let right = cpu.registers.get8(rhs);
    let outcome = apply(op, cpu, left, right);
    if stores_result(op) {
        cpu.registers.set(lhs, outcome as u16);
    }
    Ok(4)
}

/// Runs `op` on the accumulator and the byte that follows the opcode.
pub fn op_imm(op: Alu8Op, cpu: &mut Cpu) -> (result: InsnResult)
    requires
        old(cpu)@.wf(),
    ensures
        (final(cpu)@, result) == spec_op_imm(old(cpu)@, op),
        final(cpu)@.wf(),
        result matches Ok(cycles) ==> cycles <= 24,
{
    proof {
        reveal(spec_op_imm);
    }
    let imm = match cpu.fetch::<u8>() {
        Ok(imm) => imm,
        Err(error) => {
            return Err(error);
        },
    };
    let left = cpu.registers.get8(Register::A);
    let outcome = apply(op, cpu, left, imm);
    if stores_result(op) {
        cpu.registers.set(Register::A, outcome as u16);
    }
    Ok(8)
}

/// Runs `op` on the accumulator and the byte that `HL` addresses.
pub fn op_mem(op: Alu8Op, cpu: &mut Cpu) -> (result: InsnResult)
    requires
        old(cpu)@.wf(),
    ensures
        (final(cpu)@, result) == spec_op_mem(old(cpu)@, op),
        final(cpu)@.wf(),
        result matches Ok(cycles) ==> cycles <= 24,
{
    proof {
        reveal(spec_op_mem);
    }
    let address = cpu.registers.get(Register::HL);
    let left = cpu.registers.get8(Register::A);
    let right = match cpu.mmap.read(address) {
        Ok(right) => right,
        Err(error) => {
            return Err(error);
        },
    };
    let outcome = apply(op, cpu, left, right);
    if stores_result(op) {
        cpu.registers.set(Register::A, outcome as u16);
    }
    Ok(8)
}

/// Returns `value` plus or minus one modulo 256, and the flags of the
/// operation with the carry flag `carry`.
fn step(value: u8, carry: bool, up: bool) -> (outcome: (u8, Flags))
    ensures
        outcome == if up {
            spec_inc(value, carry)
        } else {
            spec_dec(value, carry)
        },
{
    if up {
        let result: u8 = if value == 255 {
            0
        } else {
            value + 1
        };
        (result, Flags { z: result == 0, n: false, h: value % 16 + 1 > 15, c: carry })
    } else {
        let result: u8 = if value == 0 {
            255
        } else {
            value - 1
        };
        (result, Flags { z: result == 0, n: true, h: value % 16 < 1, c: carry })
    }
}

/// Increments a byte register; the carry flag stays.
pub fn inc_register(cpu: &mut Cpu, reg: Register) -> (result: InsnResult)
    requires
        is_byte(reg),
    ensures
        (final(cpu)@, result) == spec_step_register(old(cpu)@, reg, true),
        final(cpu)@.mmap == old(cpu)@.mmap,
        result matches Ok(cycles) ==> cycles <= 24,
{
    proof {
        reveal(spec_step_register);
    }
    let carry = cpu.registers.flag(Flag::C);
    let outcome = step(cpu.registers.get8(reg), carry, true);
    cpu.registers.set(reg, outcome.0 as u16);
    cpu.registers.set_flags(outcome.1);
    Ok(4)
}

/// Decrements a byte register; the carry flag stays.
pub fn dec_register(cpu: &mut Cpu, reg: Register) -> (result: InsnResult)
    requires
        is_byte(reg),
    ensures
        (final(cpu)@, result) == spec_step_register(old(cpu)@, reg, false),
        final(cpu)@.mmap == old(cpu)@.mmap,
        result matches Ok(cycles) ==> cycles <= 24,
{
    proof {
        reveal(spec_step_register);
    }
    let carry = cpu.registers.flag(Flag::C);
    let outcome = step(cpu.registers.get8(reg), carry, false);
    cpu.registers.set(reg, outcome.0 as u16);
    cpu.registers.set_flags(outcome.1);
    Ok(4)
}

/// Increments the byte that `HL` addresses; the carry flag stays.
pub fn inc_mem(cpu: &mut Cpu) -> (result: InsnResult)
    requires
        old(cpu)@.wf(),
    ensures
        (final(cpu)@, result) == spec_step_mem(old(cpu)@, true),
        final(cpu)@.wf(),
        result matches Ok(cycles) ==> cycles <= 24,
{
    proof {
        reveal(spec_step_mem);
    }
    step_mem(cpu, true)
}

/// Decrements the byte that `HL` addresses; the carry flag stays.
pub fn dec_mem(cpu: &mut Cpu) -> (result: InsnResult)
    requires
        old(cpu)@.wf(),
    ensures
        (final(cpu)@, result) == spec_step_mem(old(cpu)@, false),
        final(cpu)@.wf(),
        result matches Ok(cycles) ==> cycles <= 24,
{
    proof {
        reveal(spec_step_mem);
    }
    step_mem(cpu, false)
}

/// Increments or decrements the byte that `HL` addresses.
fn step_mem(cpu: &mut Cpu, up: bool) -> (result: InsnResult)
    requires
        old(cpu)@.wf(),
    ensures
        (final(cpu)@, result) == spec_step_mem(old(cpu)@, up),
        final(cpu)@.wf(),
        result matches Ok(cycles) ==> cycles <= 24,
{
    proof {
        reveal(spec_step_mem);
    }
    let address = cpu.registers.get(Register::HL);
    let carry = cpu.registers.flag(Flag::C);
    let value = match cpu.mmap.read(address) {
        Ok(value) => value,
        Err(error) => {
            return Err(error);
        },
    };
    let outcome = step(value, carry, up);
    match cpu.mmap.write(address, outcome.0) {
        Ok(_) => {},
        Err(error) => {
            return Err(error);
        },
    }
    cpu.registers.set_flags(outcome.1);
    Ok(12)
}

} // verus!
