//! The 16-bit operations.

use vstd::prelude::*;
use crate::cpu::instructions::InsnResult;
use crate::cpu::state::{is_byte, Flags, Register};
use crate::cpu::{Cpu, CpuView};

verus! {

/// The operations between a register pair and an operand.
#[derive(PartialEq, Eq, Structural, Clone, Copy, Debug)]
pub enum Alu16Op {
    /// Addition that sets the four flags.
    Add,
    /// Addition that leaves the zero flag as it is.
    AddHl,
}

/// The sum modulo 65536; `h` tells a carry out of bit 11, `c` a carry out
/// of bit 15.
pub open spec fn spec_add(lhs: u16, rhs: u16) -> (u16, Flags) {
    (((lhs + rhs) % 0x1_0000) as u16, Flags {
        z: (lhs + rhs) % 0x1_0000 == 0,
        n: false,
        h: lhs % 0x1000 + rhs % 0x1000 > 0x0FFF,
        c: lhs + rhs > 0xFFFF,
    })
}

/// The sum modulo 65536, with the zero flag `zero` left as it is.
pub open spec fn spec_add_hl(lhs: u16, rhs: u16, zero: bool) -> (u16, Flags) {
    (spec_add(lhs, rhs).0, Flags { z: zero, ..spec_add(lhs, rhs).1 })
}

/// The result and the flags of `op` on `lhs` and `rhs`, with the zero flag
/// `zero` before it.
pub open spec fn spec_apply(op: Alu16Op, zero: bool, lhs: u16, rhs: u16) -> (u16, Flags) {
    match op {
        Alu16Op::Add => spec_add(lhs, rhs),
        Alu16Op::AddHl => spec_add_hl(lhs, rhs, zero),
    }
}

/// The state after `op` ran on the pair `lhs` and the register `rhs`, and
/// the eight cycles it takes.
#[verifier::opaque]
pub open spec fn spec_op_registers(cpu: CpuView, op: Alu16Op, lhs: Register, rhs: Register) -> (
    CpuView,
    InsnResult,
) {
    let outcome = spec_apply(op, cpu.flags().z, cpu.register(lhs), cpu.register(rhs));
    (cpu.with_flags(outcome.1).with_register(lhs, outcome.0), Ok(8))
}

/// The state after `op` ran on the pair `lhs` and the byte that follows
/// the opcode, and the sixteen cycles it takes.
#[verifier::opaque]
pub open spec fn spec_op_imm(cpu: CpuView, op: Alu16Op, lhs: Register) -> (CpuView, InsnResult) {
    match cpu.fetch8().1 {
        Err(error) => (cpu.fetch8().0, Err(error)),
        Ok(operand) => {
            let fetched = cpu.fetch8().0;
            let outcome = spec_apply(op, fetched.flags().z, fetched.register(lhs), operand as u16);
            (fetched.with_flags(outcome.1).with_register(lhs, outcome.0), Ok(16))
        },
    }
}

/// The state after a pair moved by one, modulo 65536, and the eight cycles
/// it takes. The flags stay.
#[verifier::opaque]
pub open spec fn spec_step_register(cpu: CpuView, reg: Register, up: bool) -> (
    CpuView,
    InsnResult,
) {
    let value = cpu.register(reg);
    (
        cpu.with_register(
            reg,
            if up {
                ((value + 1) % 0x1_0000) as u16
            } else {
                ((value - 1) % 0x1_0000) as u16
            },
        ),
        Ok(8),
    )
}

/// Returns the sum and the flags of an addition.
pub fn sum(lhs: u16, rhs: u16) -> (outcome: (u16, Flags))
    ensures
        outcome == spec_add(lhs, rhs),
{
    let wide: u32 = lhs as u32 + rhs as u32;
    let result: u16 = (wide % 0x1_0000) as u16;
    (result, Flags {
        z: result == 0,
        n: false,
        h: (lhs % 0x1000) as u32 + (rhs % 0x1000) as u32 > 0x0FFF,
        c: wide > 0xFFFF,
    })
}

/// Adds `rhs` to `lhs`, sets the flags and returns the sum.
pub fn add(cpu: &mut Cpu, lhs: u16, rhs: u16) -> (result: u16)
    ensures
        result == spec_add(lhs, rhs).0,
        final(cpu)@ == old(cpu)@.with_flags(spec_add(lhs, rhs).1),
{
    let outcome = sum(lhs, rhs);
    cpu.registers.set_flags(outcome.1);
    outcome.0
}

/// Adds `rhs` to `lhs`, sets the flags but for the zero flag and returns
/// the sum.
pub fn add_hl(cpu: &mut Cpu, lhs: u16, rhs: u16) -> (result: u16)
    ensures
        result == spec_add_hl(lhs, rhs, old(cpu)@.flags().z).0,
        final(cpu)@ == old(cpu)@.with_flags(spec_add_hl(lhs, rhs, old(cpu)@.flags().z).1),
{
    let zero = cpu.registers.flags().z;
    let outcome = sum(lhs, rhs);
    cpu.registers.set_flags(Flags { z: zero, ..outcome.1 });
    outcome.0
}

/// Runs `op` on `lhs` and `rhs`, sets the flags and returns the result.
pub fn apply(op: Alu16Op, cpu: &mut Cpu, lhs: u16, rhs: u16) -> (result: u16)
    ensures
        result == spec_apply(op, old(cpu)@.flags().z, lhs, rhs).0,
        final(cpu)@ == old(cpu)@.with_flags(spec_apply(op, old(cpu)@.flags().z, lhs, rhs).1),
{
    match op {
        Alu16Op::Add => self::add(cpu, lhs, rhs),
        Alu16Op::AddHl => add_hl(cpu, lhs, rhs),
    }
}

/// Runs `op` on the pair `lhs` and the register `rhs`; the result goes to
/// `lhs`.
pub fn op_registers(op: Alu16Op, cpu: &mut Cpu, lhs: Register, rhs: Register) -> (result:
    InsnResult)
    requires
        !is_byte(lhs),
    ensures
        (final(cpu)@, result) == spec_op_registers(old(cpu)@, op, lhs, rhs),
        final(cpu)@.mmap == old(cpu)@.mmap,
        result matches Ok(cycles) ==> cycles <= 24,
{
    proof {
        reveal(spec_op_registers);
    }
    let left: u16 = cpu.registers.get(lhs);
    let right: u16 = cpu.registers.get(rhs);
    let outcome: u16 = apply(op, cpu, left, right);
    cpu.registers.set(lhs, outcome);
    Ok(8)
}

/// Runs `op` on the pair `lhs` and the byte that follows the opcode; the
/// result goes to `lhs`.
pub fn op_imm(op: Alu16Op, cpu: &mut Cpu, lhs: Register) -> (result: InsnResult)
    requires
        old(cpu)@.wf(),
        !is_byte(lhs),
    ensures
        (final(cpu)@, result) == spec_op_imm(old(cpu)@, op, lhs),
        final(cpu)@.wf(),
        result matches Ok(cycles) ==> cycles <= 24,
{
    proof {
        reveal(spec_op_imm);
    }
    let right: u16 = match cpu.fetch::<u8>() {
        Ok(byte) => byte as u16,
        Err(error) => {
            return Err(error);
        },
    };
    let left: u16 = cpu.registers.get(lhs);
    let outcome: u16 = apply(op, cpu, left, right);
    cpu.registers.set(lhs, outcome);
    Ok(16)
}

/// Increments a register pair; the flags stay.
pub fn inc_register(cpu: &mut Cpu, reg: Register) -> (result: InsnResult)
    requires
        !is_byte(reg),
    ensures
        (final(cpu)@, result) == spec_step_register(old(cpu)@, reg, true),
        final(cpu)@.mmap == old(cpu)@.mmap,
        result matches Ok(cycles) ==> cycles <= 24,
{
    proof {
        reveal(spec_step_register);
    }
    let value: u16 = cpu.registers.get(reg);
    let moved: u16 = if value == 0xFFFF {
        0
    } else {
        value + 1
    };
    cpu.registers.set(reg, moved);
    Ok(8)
}

/// Decrements a register pair; the flags stay.
pub fn dec_register(cpu: &mut Cpu, reg: Register) -> (result: InsnResult)
    requires
        !is_byte(reg),
    ensures
        (final(cpu)@, result) == spec_step_register(old(cpu)@, reg, false),
        final(cpu)@.mmap == old(cpu)@.mmap,
        result matches Ok(cycles) ==> cycles <= 24,
{
    proof {
        reveal(spec_step_register);
    }
    let value: u16 = cpu.registers.get(reg);
    let moved: u16 = if value == 0 {
        0xFFFF
    } else {
        value - 1
    };
    cpu.registers.set(reg, moved);
    Ok(8)
}

} // verus!
