//! The decoder: from an opcode to the instruction it names, and from an
//! instruction to what it does.

use vstd::prelude::*;
use crate::cpu::alu::alu16::Alu16Op;
use crate::cpu::alu::alu8::Alu8Op;
use crate::cpu::alu::{alu16, alu8};
use crate::cpu::instructions;
use crate::cpu::instructions::{
    spec_adjust_accumulator, spec_call_conditional, spec_call_if, spec_carry, spec_complement, spec_jump_conditional, spec_jump_if, spec_jump_relative, spec_jump_relative_conditional, spec_load_absolute, spec_load_and_step, spec_load_high_c, spec_load_high_imm, spec_load_hl_sp_offset, spec_load_imm16_to_register, spec_load_imm8_to_register, spec_load_mem_to_register, spec_memory_op, spec_move_registers, spec_pop_nn, spec_push_nn, spec_register_op, spec_restart, spec_ret_conditional, spec_ret_if, spec_return_from_interrupt, spec_rotate_accumulator, spec_set_ime, spec_store_absolute, spec_store_and_step, spec_store_high_c, spec_store_high_imm, spec_store_imm, spec_store_register_into_mem, spec_store_sp, ByteOp, InsnResult,
};
use crate::cpu::state::{Flag, Register};
use crate::cpu::{Cpu, CpuView};
use crate::GameboyError;

verus! {

/// The prefix of the instructions of the extended table.
pub const PREFIX: u8 = 0xCB;

/// The halt instruction.
pub const HALT: u8 = 0x76;

/// A decoded instruction: its table and its opcode.
#[derive(PartialEq, Eq, Structural, Clone, Copy, Debug)]
pub enum Instruction {
    /// An instruction of the primary table.
    Primary(u8),
    /// An instruction of the extended table, which follows the prefix.
    Extended(u8),
}

/// The byte register that the three-bit field `index` of an opcode names;
/// the field value 6 names the byte that `HL` addresses and has no
/// register.
pub open spec fn operand_register(index: int) -> Register {
    if index == 0 {
        Register::B
    } else if index == 1 {
        Register::C
    } else if index == 2 {
        Register::D
    } else if index == 3 {
        Register::E
    } else if index == 4 {
        Register::H
    } else if index == 5 {
        Register::L
    } else {
        Register::A
    }
}

/// The register pair that the two-bit field `index` names in loads and
/// arithmetic.
pub open spec fn pair_register(index: int) -> Register {
    if index == 0 {
        Register::BC
    } else if index == 1 {
        Register::DE
    } else if index == 2 {
        Register::HL
    } else {
        Register::SP
    }
}

/// The register pair that the two-bit field `index` names in pushes and
/// pops.
pub open spec fn stack_register(index: int) -> Register {
    if index == 0 {
        Register::BC
    } else if index == 1 {
        Register::DE
    } else if index == 2 {
        Register::HL
    } else {
        Register::AF
    }
}

/// The operation that the three-bit field `index` names.
pub open spec fn alu_operation(index: int) -> Alu8Op {
    if index == 0 {
        Alu8Op::Add
    } else if index == 1 {
        Alu8Op::Adc
    } else if index == 2 {
        Alu8Op::Sub
    } else if index == 3 {
        Alu8Op::Sbc
    } else if index == 4 {
        Alu8Op::And
    } else if index == 5 {
        Alu8Op::Xor
    } else if index == 6 {
        Alu8Op::Or
    } else {
        Alu8Op::Cp
    }
}

/// The flag that the condition `index` tests: not zero, zero, no carry,
/// carry.
pub open spec fn condition_flag(index: int) -> Flag {
    if index < 2 {
        Flag::Z
    } else {
        Flag::C
    }
}

/// The state of the flag on which the condition `index` holds.
pub open spec fn condition_state(index: int) -> bool {
    index % 2 == 1
}

/// The operation that an opcode of the extended table names: rotations,
/// shifts and the nibble exchange in the first quarter, then the bit tests,
/// the bit clears and the bit sets, with the bit in the middle field.
pub open spec fn byte_operation(opcode: u8) -> ByteOp {
    let bit = (opcode / 8 % 8) as u8;
    if opcode / 64 == 1 {
        ByteOp::TestBit(bit)
    } else if opcode / 64 == 2 {
        ByteOp::ResetBit(bit)
    } else if opcode / 64 == 3 {
        ByteOp::SetBit(bit)
    } else if bit == 0 {
        ByteOp::Rlc
    } else if bit == 1 {
        ByteOp::Rrc
    } else if bit == 2 {
        ByteOp::Rl
    } else if bit == 3 {
        ByteOp::Rr
    } else if bit == 4 {
        ByteOp::Sla
    } else if bit == 5 {
        ByteOp::Sra
    } else if bit == 6 {
        ByteOp::Swap
    } else {
        ByteOp::Srl
    }
}

/// What the instruction `opcode` of the extended table does: the operation
/// is in the upper five bits, the operand in the lower three.
pub open spec fn spec_extended(cpu: CpuView, opcode: u8) -> (CpuView, InsnResult) {
    if opcode % 8 == 6 {
        spec_memory_op(cpu, byte_operation(opcode))
    } else {
        spec_register_op(cpu, byte_operation(opcode), operand_register((opcode % 8) as int))
    }
}

/// What happens on an opcode that names no instruction.
pub open spec fn spec_undefined(cpu: CpuView, opcode: u8) -> (CpuView, InsnResult) {
    (cpu, Err(GameboyError::BadOpcode(opcode)))
}

/// What the instructions 0x00 to 0x3F do: `y` is the middle field of the
/// opcode, `z` the low one.
pub open spec fn spec_first_quarter(cpu: CpuView, opcode: u8) -> (CpuView, InsnResult) {
    let y = opcode / 8 % 8;
    let z = opcode % 8;
    if z == 0 {
        if y == 0 {
            (cpu, Ok(4))
        } else if y == 1 {
            spec_store_sp(cpu)
        } else if y == 2 {
            spec_undefined(cpu, opcode)
        } else if y == 3 {
            spec_jump_relative(cpu)
        } else {
            spec_jump_relative_conditional(cpu, condition_flag(y - 4), condition_state(y - 4))
        }
    } else if z == 1 {
        if y % 2 == 0 {
            spec_load_imm16_to_register(cpu, pair_register((y / 2) as int))
        } else {
            alu16::spec_op_registers(cpu, Alu16Op::AddHl, Register::HL, pair_register((y / 2) as int))
        }
    } else if z == 2 {
        if y == 0 {
            spec_store_register_into_mem(cpu, Register::BC, Register::A)
        } else if y == 1 {
            spec_load_mem_to_register(cpu, Register::A, Register::BC)
        } else if y == 2 {
            spec_store_register_into_mem(cpu, Register::DE, Register::A)
        } else if y == 3 {
            spec_load_mem_to_register(cpu, Register::A, Register::DE)
        } else if y == 4 {
            spec_store_and_step(cpu, 1)
        } else if y == 5 {
            spec_load_and_step(cpu, 1)
        } else if y == 6 {
            spec_store_and_step(cpu, -1)
        } else {
            spec_load_and_step(cpu, -1)
        }
    } else if z == 3 {
        alu16::spec_step_register(cpu, pair_register((y / 2) as int), y % 2 == 0)
    } else if z == 4 {
        if y == 6 {
            alu8::spec_step_mem(cpu, true)
        } else {
            alu8::spec_step_register(cpu, operand_register(y as int), true)
        }
    } else if z == 5 {
        if y == 6 {
            alu8::spec_step_mem(cpu, false)
        } else {
            alu8::spec_step_register(cpu, operand_register(y as int), false)
        }
    } else if z == 6 {
        if y == 6 {
            spec_store_imm(cpu)
        } else {
            spec_load_imm8_to_register(cpu, operand_register(y as int))
        }
    } else {
        if y == 0 {
            spec_rotate_accumulator(cpu, ByteOp::Rlc)
        } else if y == 1 {
            spec_rotate_accumulator(cpu, ByteOp::Rrc)
        } else if y == 2 {
            spec_rotate_accumulator(cpu, ByteOp::Rl)
        } else if y == 3 {
            spec_rotate_accumulator(cpu, ByteOp::Rr)
        } else if y == 4 {
            spec_adjust_accumulator(cpu)
        } else if y == 5 {
            spec_complement(cpu)
        } else if y == 6 {
            spec_carry(cpu, true)
        } else {
            spec_carry(cpu, !cpu.flags().c)
        }
    }
}

/// What the instructions 0x40 to 0x7F do: the halt, and the loads between
/// the operands that the two fields name.
pub open spec fn spec_second_quarter(cpu: CpuView, opcode: u8) -> (CpuView, InsnResult) {
    let y = opcode / 8 % 8;
    let z = opcode % 8;
    if opcode == HALT {
        (cpu.halt(), Ok(4))
    } else if z == 6 {
        spec_load_mem_to_register(cpu, operand_register(y as int), Register::HL)
    } else if y == 6 {
        spec_store_register_into_mem(cpu, Register::HL, operand_register(z as int))
    } else {
        spec_move_registers(cpu, operand_register(y as int), operand_register(z as int))
    }
}

/// What the instructions 0x80 to 0xBF do: the operation that the middle
/// field names, between the accumulator and the operand that the low field
/// names.
pub open spec fn spec_third_quarter(cpu: CpuView, opcode: u8) -> (CpuView, InsnResult) {
    let y = opcode / 8 % 8;
    let z = opcode % 8;
    if z == 6 {
        alu8::spec_op_mem(cpu, alu_operation(y as int))
    } else {
        alu8::spec_op_registers(
            cpu,
            alu_operation(y as int),
            Register::A,
            operand_register(z as int),
        )
    }
}

/// What the instructions 0xC0 to 0xFF do.
pub open spec fn spec_fourth_quarter(cpu: CpuView, opcode: u8) -> (CpuView, InsnResult) {
    let y = opcode / 8 % 8;
    let z = opcode % 8;
    if z == 0 {
        if y < 4 {
            spec_ret_conditional(cpu, condition_flag(y as int), condition_state(y as int))
        } else if y == 4 {
            spec_store_high_imm(cpu)
        } else if y == 5 {
            alu16::spec_op_imm(cpu, Alu16Op::Add, Register::SP)
        } else if y == 6 {
            spec_load_high_imm(cpu)
        } else {
            spec_load_hl_sp_offset(cpu)
        }
    } else if z == 1 {
        if y % 2 == 0 {
            spec_pop_nn(cpu, stack_register((y / 2) as int))
        } else if y == 1 {
            spec_ret_if(cpu, true)
        } else if y == 3 {
            spec_return_from_interrupt(cpu)
        } else if y == 5 {
            (cpu.with_register(Register::PC, cpu.register(Register::HL)), Ok(4))
        } else {
            spec_move_registers(cpu, Register::SP, Register::HL)
        }
    } else if z == 2 {
        if y < 4 {
            spec_jump_conditional(cpu, condition_flag(y as int), condition_state(y as int))
        } else if y == 4 {
            spec_store_high_c(cpu)
        } else if y == 5 {
            spec_store_absolute(cpu)
        } else if y == 6 {
            spec_load_high_c(cpu)
        } else {
            spec_load_absolute(cpu)
        }
    } else if z == 3 {
        if y == 0 {
            spec_jump_if(cpu, true)
        } else if y == 6 {
            (spec_set_ime(cpu, false), Ok(4))
        } else if y == 7 {
            (CpuView { ime_delay: true, ..cpu }, Ok(4))
        } else {
            spec_undefined(cpu, opcode)
        }
    } else if z == 4 {
        if y < 4 {
            spec_call_conditional(cpu, condition_flag(y as int), condition_state(y as int))
        } else {
            spec_undefined(cpu, opcode)
        }
    } else if z == 5 {
        if y % 2 == 0 {
            spec_push_nn(cpu, stack_register((y / 2) as int))
        } else if y == 1 {
            spec_call_if(cpu, true)
        } else {
            spec_undefined(cpu, opcode)
        }
    } else if z == 6 {
        alu8::spec_op_imm(cpu, alu_operation(y as int))
    } else {
        spec_restart(cpu, (y * 8) as u16)
    }
}

/// What the instruction `opcode` of the primary table does.
pub open spec fn spec_primary(cpu: CpuView, opcode: u8) -> (CpuView, InsnResult) {
    if opcode < 0x40 {
        spec_first_quarter(cpu, opcode)
    } else if opcode < 0x80 {
        spec_second_quarter(cpu, opcode)
    } else if opcode < 0xC0 {
        spec_third_quarter(cpu, opcode)
    } else {
        spec_fourth_quarter(cpu, opcode)
    }
}

/// Whether `opcode` names an instruction of the primary table. The prefix
/// names none by itself.
pub open spec fn spec_defined(opcode: u8) -> bool {
    opcode != 0x10 && opcode != 0xCB && opcode != 0xD3 && opcode != 0xDB && opcode != 0xDD
        && opcode != 0xE3 && opcode != 0xE4 && opcode != 0xEB && opcode != 0xEC && opcode != 0xED
        && opcode != 0xF4 && opcode != 0xFC && opcode != 0xFD
}

impl Instruction {
    /// What the instruction does to the machine, and the cycles it takes.
    pub open spec fn semantics(self, cpu: CpuView) -> (CpuView, InsnResult) {
        match self {
            Instruction::Primary(opcode) => spec_primary(cpu, opcode),
            Instruction::Extended(opcode) => spec_extended(cpu, opcode),
        }
    }
}

/// Runs the instruction `opcode` of the primary table, among those from 0x00 to 0x0f.
fn run_primary_0(cpu: &mut Cpu, opcode: u8) -> (result: InsnResult)
    requires
        old(cpu)@.wf(),
        opcode / 16 == 0,
    ensures
        (final(cpu)@, result) == spec_primary(old(cpu)@, opcode),
        final(cpu)@.wf(),
        result matches Ok(cycles) ==> cycles <= 24,
{
    match opcode {
        0x00 => instructions::opcode_00(cpu),
        0x01 => instructions::opcode_01(cpu),
        0x02 => instructions::opcode_02(cpu),
        0x03 => instructions::opcode_03(cpu),
        0x04 => instructions::opcode_04(cpu),
        0x05 => instructions::opcode_05(cpu),
        0x06 => instructions::opcode_06(cpu),
        0x07 => instructions::opcode_07(cpu),
        0x08 => instructions::opcode_08(cpu),
        0x09 => instructions::opcode_09(cpu),
        0x0a => instructions::opcode_0a(cpu),
        0x0b => instructions::opcode_0b(cpu),
        0x0c => instructions::opcode_0c(cpu),
        0x0d => instructions::opcode_0d(cpu),
        0x0e => instructions::opcode_0e(cpu),
        0x0f => instructions::opcode_0f(cpu),
        _ => Err(GameboyError::BadOpcode(opcode)),
    }
}

/// Runs the instruction `opcode` of the primary table, among those from 0x10 to 0x1f.
fn run_primary_1(cpu: &mut Cpu, opcode: u8) -> (result: InsnResult)
    requires
        old(cpu)@.wf(),
        opcode / 16 == 1,
    ensures
        (final(cpu)@, result) == spec_primary(old(cpu)@, opcode),
        final(cpu)@.wf(),
        result matches Ok(cycles) ==> cycles <= 24,
{
    match opcode {
        0x11 => instructions::opcode_11(cpu),
        0x12 => instructions::opcode_12(cpu),
        0x13 => instructions::opcode_13(cpu),
        0x14 => instructions::opcode_14(cpu),
        0x15 => instructions::opcode_15(cpu),
        0x16 => instructions::opcode_16(cpu),
        0x17 => instructions::opcode_17(cpu),
        0x18 => instructions::opcode_18(cpu),
        0x19 => instructions::opcode_19(cpu),
        0x1a => instructions::opcode_1a(cpu),
        0x1b => instructions::opcode_1b(cpu),
        0x1c => instructions::opcode_1c(cpu),
        0x1d => instructions::opcode_1d(cpu),
        0x1e => instructions::opcode_1e(cpu),
        0x1f => instructions::opcode_1f(cpu),
        _ => Err(GameboyError::BadOpcode(opcode)),
    }
}

/// Runs the instruction `opcode` of the primary table, among those from 0x20 to 0x2f.
fn run_primary_2(cpu: &mut Cpu, opcode: u8) -> (result: InsnResult)
    requires
        old(cpu)@.wf(),
        opcode / 16 == 2,
    ensures
        (final(cpu)@, result) == spec_primary(old(cpu)@, opcode),
        final(cpu)@.wf(),
        result matches Ok(cycles) ==> cycles <= 24,
{
    match opcode {
        0x20 => instructions::opcode_20(cpu),
        0x21 => instructions::opcode_21(cpu),
        0x22 => instructions::opcode_22(cpu),
        0x23 => instructions::opcode_23(cpu),
        0x24 => instructions::opcode_24(cpu),
        0x25 => instructions::opcode_25(cpu),
        0x26 => instructions::opcode_26(cpu),
        0x27 => instructions::opcode_27(cpu),
        0x28 => instructions::opcode_28(cpu),
        0x29 => instructions::opcode_29(cpu),
        0x2a => instructions::opcode_2a(cpu),
        0x2b => instructions::opcode_2b(cpu),
        0x2c => instructions::opcode_2c(cpu),
        0x2d => instructions::opcode_2d(cpu),
        0x2e => instructions::opcode_2e(cpu),
        0x2f => instructions::opcode_2f(cpu),
        _ => Err(GameboyError::BadOpcode(opcode)),
    }
}

/// Runs the instruction `opcode` of the primary table, among those from 0x30 to 0x3f.
fn run_primary_3(cpu: &mut Cpu, opcode: u8) -> (result: InsnResult)
    requires
        old(cpu)@.wf(),
        opcode / 16 == 3,
    ensures
        (final(cpu)@, result) == spec_primary(old(cpu)@, opcode),
        final(cpu)@.wf(),
        result matches Ok(cycles) ==> cycles <= 24,
{
    match opcode {
        0x30 => instructions::opcode_30(cpu),
        0x31 => instructions::opcode_31(cpu),
        0x32 => instructions::opcode_32(cpu),
        0x33 => instructions::opcode_33(cpu),
        0x34 => instructions::opcode_34(cpu),
        0x35 => instructions::opcode_35(cpu),
        0x36 => instructions::opcode_36(cpu),
        0x37 => instructions::opcode_37(cpu),
        0x38 => instructions::opcode_38(cpu),
        0x39 => instructions::opcode_39(cpu),
        0x3a => instructions::opcode_3a(cpu),
        0x3b => instructions::opcode_3b(cpu),
        0x3c => instructions::opcode_3c(cpu),
        0x3d => instructions::opcode_3d(cpu),
        0x3e => instructions::opcode_3e(cpu),
        0x3f => instructions::opcode_3f(cpu),
        _ => Err(GameboyError::BadOpcode(opcode)),
    }
}

/// Runs the instruction `opcode` of the primary table, among those from 0x40 to 0x4f.
fn run_primary_4(cpu: &mut Cpu, opcode: u8) -> (result: InsnResult)
    requires
        old(cpu)@.wf(),
        opcode / 16 == 4,
    ensures
        (final(cpu)@, result) == spec_primary(old(cpu)@, opcode),
        final(cpu)@.wf(),
        result matches Ok(cycles) ==> cycles <= 24,
{
    match opcode {
        0x40 => instructions::opcode_40(cpu),
        0x41 => instructions::opcode_41(cpu),
        0x42 => instructions::opcode_42(cpu),
        0x43 => instructions::opcode_43(cpu),
        0x44 => instructions::opcode_44(cpu),
        0x45 => instructions::opcode_45(cpu),
        0x46 => instructions::opcode_46(cpu),
        0x47 => instructions::opcode_47(cpu),
        0x48 => instructions::opcode_48(cpu),
        0x49 => instructions::opcode_49(cpu),
        0x4a => instructions::opcode_4a(cpu),
        0x4b => instructions::opcode_4b(cpu),
        0x4c => instructions::opcode_4c(cpu),
        0x4d => instructions::opcode_4d(cpu),
        0x4e => instructions::opcode_4e(cpu),
        0x4f => instructions::opcode_4f(cpu),
        _ => Err(GameboyError::BadOpcode(opcode)),
    }
}

/// Runs the instruction `opcode` of the primary table, among those from 0x50 to 0x5f.
fn run_primary_5(cpu: &mut Cpu, opcode: u8) -> (result: InsnResult)
    requires
        old(cpu)@.wf(),
        opcode / 16 == 5,
    ensures
        (final(cpu)@, result) == spec_primary(old(cpu)@, opcode),
        final(cpu)@.wf(),
        result matches Ok(cycles) ==> cycles <= 24,
{
    match opcode {
        0x50 => instructions::opcode_50(cpu),
        0x51 => instructions::opcode_51(cpu),
        0x52 => instructions::opcode_52(cpu),
        0x53 => instructions::opcode_53(cpu),
        0x54 => instructions::opcode_54(cpu),
        0x55 => instructions::opcode_55(cpu),
        0x56 => instructions::opcode_56(cpu),
        0x57 => instructions::opcode_57(cpu),
        0x58 => instructions::opcode_58(cpu),
        0x59 => instructions::opcode_59(cpu),
        0x5a => instructions::opcode_5a(cpu),
        0x5b => instructions::opcode_5b(cpu),
        0x5c => instructions::opcode_5c(cpu),
        0x5d => instructions::opcode_5d(cpu),
        0x5e => instructions::opcode_5e(cpu),
        0x5f => instructions::opcode_5f(cpu),
        _ => Err(GameboyError::BadOpcode(opcode)),
    }
}

/// Runs the instruction `opcode` of the primary table, among those from 0x60 to 0x6f.
fn run_primary_6(cpu: &mut Cpu, opcode: u8) -> (result: InsnResult)
    requires
        old(cpu)@.wf(),
        opcode / 16 == 6,
    ensures
        (final(cpu)@, result) == spec_primary(old(cpu)@, opcode),
        final(cpu)@.wf(),
        result matches Ok(cycles) ==> cycles <= 24,
{
    match opcode {
        0x60 => instructions::opcode_60(cpu),
        0x61 => instructions::opcode_61(cpu),
        0x62 => instructions::opcode_62(cpu),
        0x63 => instructions::opcode_63(cpu),
        0x64 => instructions::opcode_64(cpu),
        0x65 => instructions::opcode_65(cpu),
        0x66 => instructions::opcode_66(cpu),
        0x67 => instructions::opcode_67(cpu),
        0x68 => instructions::opcode_68(cpu),
        0x69 => instructions::opcode_69(cpu),
        0x6a => instructions::opcode_6a(cpu),
        0x6b => instructions::opcode_6b(cpu),
        0x6c => instructions::opcode_6c(cpu),
        0x6d => instructions::opcode_6d(cpu),
        0x6e => instructions::opcode_6e(cpu),
        0x6f => instructions::opcode_6f(cpu),
        _ => Err(GameboyError::BadOpcode(opcode)),
    }
}

/// Runs the instruction `opcode` of the primary table, among those from 0x70 to 0x7f.
fn run_primary_7(cpu: &mut Cpu, opcode: u8) -> (result: InsnResult)
    requires
        old(cpu)@.wf(),
        opcode / 16 == 7,
    ensures
        (final(cpu)@, result) == spec_primary(old(cpu)@, opcode),
        final(cpu)@.wf(),
        result matches Ok(cycles) ==> cycles <= 24,
{
    match opcode {
        0x70 => instructions::opcode_70(cpu),
        0x71 => instructions::opcode_71(cpu),
        0x72 => instructions::opcode_72(cpu),
        0x73 => instructions::opcode_73(cpu),
        0x74 => instructions::opcode_74(cpu),
        0x75 => instructions::opcode_75(cpu),
        0x76 => instructions::opcode_76(cpu),
        0x77 => instructions::opcode_77(cpu),
        0x78 => instructions::opcode_78(cpu),
        0x79 => instructions::opcode_79(cpu),
        0x7a => instructions::opcode_7a(cpu),
        0x7b => instructions::opcode_7b(cpu),
        0x7c => instructions::opcode_7c(cpu),
        0x7d => instructions::opcode_7d(cpu),
        0x7e => instructions::opcode_7e(cpu),
        0x7f => instructions::opcode_7f(cpu),
        _ => Err(GameboyError::BadOpcode(opcode)),
    }
}

/// Runs the instruction `opcode` of the primary table, among those from 0x80 to 0x8f.
fn run_primary_8(cpu: &mut Cpu, opcode: u8) -> (result: InsnResult)
    requires
        old(cpu)@.wf(),
        opcode / 16 == 8,
    ensures
        (final(cpu)@, result) == spec_primary(old(cpu)@, opcode),
        final(cpu)@.wf(),
        result matches Ok(cycles) ==> cycles <= 24,
{
    match opcode {
        0x80 => instructions::opcode_80(cpu),
        0x81 => instructions::opcode_81(cpu),
        0x82 => instructions::opcode_82(cpu),
        0x83 => instructions::opcode_83(cpu),
        0x84 => instructions::opcode_84(cpu),
        0x85 => instructions::opcode_85(cpu),
        0x86 => instructions::opcode_86(cpu),
        0x87 => instructions::opcode_87(cpu),
        0x88 => instructions::opcode_88(cpu),
        0x89 => instructions::opcode_89(cpu),
        0x8a => instructions::opcode_8a(cpu),
        0x8b => instructions::opcode_8b(cpu),
        0x8c => instructions::opcode_8c(cpu),
        0x8d => instructions::opcode_8d(cpu),
        0x8e => instructions::opcode_8e(cpu),
        0x8f => instructions::opcode_8f(cpu),
        _ => Err(GameboyError::BadOpcode(opcode)),
    }
}

/// Runs the instruction `opcode` of the primary table, among those from 0x90 to 0x9f.
fn run_primary_9(cpu: &mut Cpu, opcode: u8) -> (result: InsnResult)
    requires
        old(cpu)@.wf(),
        opcode / 16 == 9,
    ensures
        (final(cpu)@, result) == spec_primary(old(cpu)@, opcode),
        final(cpu)@.wf(),
        result matches Ok(cycles) ==> cycles <= 24,
{
    match opcode {
        0x90 => instructions::opcode_90(cpu),
        0x91 => instructions::opcode_91(cpu),
        0x92 => instructions::opcode_92(cpu),
        0x93 => instructions::opcode_93(cpu),
        0x94 => instructions::opcode_94(cpu),
        0x95 => instructions::opcode_95(cpu),
        0x96 => instructions::opcode_96(cpu),
        0x97 => instructions::opcode_97(cpu),
        0x98 => instructions::opcode_98(cpu),
        0x99 => instructions::opcode_99(cpu),
        0x9a => instructions::opcode_9a(cpu),
        0x9b => instructions::opcode_9b(cpu),
        0x9c => instructions::opcode_9c(cpu),
        0x9d => instructions::opcode_9d(cpu),
        0x9e => instructions::opcode_9e(cpu),
        0x9f => instructions::opcode_9f(cpu),
        _ => Err(GameboyError::BadOpcode(opcode)),
    }
}

/// Runs the instruction `opcode` of the primary table, among those from 0xa0 to 0xaf.
fn run_primary_a(cpu: &mut Cpu, opcode: u8) -> (result: InsnResult)
    requires
        old(cpu)@.wf(),
        opcode / 16 == 10,
    ensures
        (final(cpu)@, result) == spec_primary(old(cpu)@, opcode),
        final(cpu)@.wf(),
        result matches Ok(cycles) ==> cycles <= 24,
{
    match opcode {
        0xa0 => instructions::opcode_a0(cpu),
        0xa1 => instructions::opcode_a1(cpu),
        0xa2 => instructions::opcode_a2(cpu),
        0xa3 => instructions::opcode_a3(cpu),
        0xa4 => instructions::opcode_a4(cpu),
        0xa5 => instructions::opcode_a5(cpu),
        0xa6 => instructions::opcode_a6(cpu),
        0xa7 => instructions::opcode_a7(cpu),
        0xa8 => instructions::opcode_a8(cpu),
        0xa9 => instructions::opcode_a9(cpu),
        0xaa => instructions::opcode_aa(cpu),
        0xab => instructions::opcode_ab(cpu),
        0xac => instructions::opcode_ac(cpu),
        0xad => instructions::opcode_ad(cpu),
        0xae => instructions::opcode_ae(cpu),
        0xaf => instructions::opcode_af(cpu),
        _ => Err(GameboyError::BadOpcode(opcode)),
    }
}

/// Runs the instruction `opcode` of the primary table, among those from 0xb0 to 0xbf.
fn run_primary_b(cpu: &mut Cpu, opcode: u8) -> (result: InsnResult)
    requires
        old(cpu)@.wf(),
        opcode / 16 == 11,
    ensures
        (final(cpu)@, result) == spec_primary(old(cpu)@, opcode),
        final(cpu)@.wf(),
        result matches Ok(cycles) ==> cycles <= 24,
{
    match opcode {
        0xb0 => instructions::opcode_b0(cpu),
        0xb1 => instructions::opcode_b1(cpu),
        0xb2 => instructions::opcode_b2(cpu),
        0xb3 => instructions::opcode_b3(cpu),
        0xb4 => instructions::opcode_b4(cpu),
        0xb5 => instructions::opcode_b5(cpu),
        0xb6 => instructions::opcode_b6(cpu),
        0xb7 => instructions::opcode_b7(cpu),
        0xb8 => instructions::opcode_b8(cpu),
        0xb9 => instructions::opcode_b9(cpu),
        0xba => instructions::opcode_ba(cpu),
        0xbb => instructions::opcode_bb(cpu),
        0xbc => instructions::opcode_bc(cpu),
        0xbd => instructions::opcode_bd(cpu),
        0xbe => instructions::opcode_be(cpu),
        0xbf => instructions::opcode_bf(cpu),
        _ => Err(GameboyError::BadOpcode(opcode)),
    }
}

/// Runs the instruction `opcode` of the primary table, among those from 0xc0 to 0xcf.
fn run_primary_c(cpu: &mut Cpu, opcode: u8) -> (result: InsnResult)
    requires
        old(cpu)@.wf(),
        opcode / 16 == 12,
    ensures
        (final(cpu)@, result) == spec_primary(old(cpu)@, opcode),
        final(cpu)@.wf(),
        result matches Ok(cycles) ==> cycles <= 24,
{
    match opcode {
        0xc0 => instructions::opcode_c0(cpu),
        0xc1 => instructions::opcode_c1(cpu),
        0xc2 => instructions::opcode_c2(cpu),
        0xc3 => instructions::opcode_c3(cpu),
        0xc4 => instructions::opcode_c4(cpu),
        0xc5 => instructions::opcode_c5(cpu),
        0xc6 => instructions::opcode_c6(cpu),
        0xc7 => instructions::opcode_c7(cpu),
        0xc8 => instructions::opcode_c8(cpu),
        0xc9 => instructions::opcode_c9(cpu),
        0xca => instructions::opcode_ca(cpu),
        0xcc => instructions::opcode_cc(cpu),
        0xcd => instructions::opcode_cd(cpu),
        0xce => instructions::opcode_ce(cpu),
        0xcf => instructions::opcode_cf(cpu),
        _ => Err(GameboyError::BadOpcode(opcode)),
    }
}

/// Runs the instruction `opcode` of the primary table, among those from 0xd0 to 0xdf.
fn run_primary_d(cpu: &mut Cpu, opcode: u8) -> (result: InsnResult)
    requires
        old(cpu)@.wf(),
        opcode / 16 == 13,
    ensures
        (final(cpu)@, result) == spec_primary(old(cpu)@, opcode),
        final(cpu)@.wf(),
        result matches Ok(cycles) ==> cycles <= 24,
{
    match opcode {
        0xd0 => instructions::opcode_d0(cpu),
        0xd1 => instructions::opcode_d1(cpu),
        0xd2 => instructions::opcode_d2(cpu),
        0xd4 => instructions::opcode_d4(cpu),
        0xd5 => instructions::opcode_d5(cpu),
        0xd6 => instructions::opcode_d6(cpu),
        0xd7 => instructions::opcode_d7(cpu),
        0xd8 => instructions::opcode_d8(cpu),
        0xd9 => instructions::opcode_d9(cpu),
        0xda => instructions::opcode_da(cpu),
        0xdc => instructions::opcode_dc(cpu),
        0xde => instructions::opcode_de(cpu),
        0xdf => instructions::opcode_df(cpu),
        _ => Err(GameboyError::BadOpcode(opcode)),
    }
}

/// Runs the instruction `opcode` of the primary table, among those from 0xe0 to 0xef.
fn run_primary_e(cpu: &mut Cpu, opcode: u8) -> (result: InsnResult)
    requires
        old(cpu)@.wf(),
        opcode / 16 == 14,
    ensures
        (final(cpu)@, result) == spec_primary(old(cpu)@, opcode),
        final(cpu)@.wf(),
        result matches Ok(cycles) ==> cycles <= 24,
{
    match opcode {
        0xe0 => instructions::opcode_e0(cpu),
        0xe1 => instructions::opcode_e1(cpu),
        0xe2 => instructions::opcode_e2(cpu),
        0xe5 => instructions::opcode_e5(cpu),
        0xe6 => instructions::opcode_e6(cpu),
        0xe7 => instructions::opcode_e7(cpu),
        0xe8 => instructions::opcode_e8(cpu),
        0xe9 => instructions::opcode_e9(cpu),
        0xea => instructions::opcode_ea(cpu),
        0xee => instructions::opcode_ee(cpu),
        0xef => instructions::opcode_ef(cpu),
        _ => Err(GameboyError::BadOpcode(opcode)),
    }
}

/// Runs the instruction `opcode` of the primary table, among those from 0xf0 to 0xff.
fn run_primary_f(cpu: &mut Cpu, opcode: u8) -> (result: InsnResult)
    requires
        old(cpu)@.wf(),
        opcode / 16 == 15,
    ensures
        (final(cpu)@, result) == spec_primary(old(cpu)@, opcode),
        final(cpu)@.wf(),
        result matches Ok(cycles) ==> cycles <= 24,
{
    match opcode {
        0xf0 => instructions::opcode_f0(cpu),
        0xf1 => instructions::opcode_f1(cpu),
        0xf2 => instructions::opcode_f2(cpu),
        0xf3 => instructions::opcode_f3(cpu),
        0xf5 => instructions::opcode_f5(cpu),
        0xf6 => instructions::opcode_f6(cpu),
        0xf7 => instructions::opcode_f7(cpu),
        0xf8 => instructions::opcode_f8(cpu),
        0xf9 => instructions::opcode_f9(cpu),
        0xfa => instructions::opcode_fa(cpu),
        0xfb => instructions::opcode_fb(cpu),
        0xfe => instructions::opcode_fe(cpu),
        0xff => instructions::opcode_ff(cpu),
        _ => Err(GameboyError::BadOpcode(opcode)),
    }
}

/// Runs the instruction `opcode` of the primary table.
fn run_primary(cpu: &mut Cpu, opcode: u8) -> (result: InsnResult)
    requires
        old(cpu)@.wf(),
    ensures
        (final(cpu)@, result) == spec_primary(old(cpu)@, opcode),
        final(cpu)@.wf(),
        result matches Ok(cycles) ==> cycles <= 24,
{
    match opcode / 16 {
        0 => run_primary_0(cpu, opcode),
        1 => run_primary_1(cpu, opcode),
        2 => run_primary_2(cpu, opcode),
        3 => run_primary_3(cpu, opcode),
        4 => run_primary_4(cpu, opcode),
        5 => run_primary_5(cpu, opcode),
        6 => run_primary_6(cpu, opcode),
        7 => run_primary_7(cpu, opcode),
        8 => run_primary_8(cpu, opcode),
        9 => run_primary_9(cpu, opcode),
        10 => run_primary_a(cpu, opcode),
        11 => run_primary_b(cpu, opcode),
        12 => run_primary_c(cpu, opcode),
        13 => run_primary_d(cpu, opcode),
        14 => run_primary_e(cpu, opcode),
        _ => run_primary_f(cpu, opcode),
    }
}
/// Runs the instruction `opcode` of the extended table, among those from 0x00 to 0x0f.
fn run_extended_0(cpu: &mut Cpu, opcode: u8) -> (result: InsnResult)
    requires
        old(cpu)@.wf(),
        opcode / 16 == 0,
    ensures
        (final(cpu)@, result) == spec_extended(old(cpu)@, opcode),
        final(cpu)@.wf(),
        result matches Ok(cycles) ==> cycles <= 24,
{
    match opcode {
        0x00 => instructions::opcode_cb00(cpu),
        0x01 => instructions::opcode_cb01(cpu),
        0x02 => instructions::opcode_cb02(cpu),
        0x03 => instructions::opcode_cb03(cpu),
        0x04 => instructions::opcode_cb04(cpu),
        0x05 => instructions::opcode_cb05(cpu),
        0x06 => instructions::opcode_cb06(cpu),
        0x07 => instructions::opcode_cb07(cpu),
        0x08 => instructions::opcode_cb08(cpu),
        0x09 => instructions::opcode_cb09(cpu),
        0x0a => instructions::opcode_cb0a(cpu),
        0x0b => instructions::opcode_cb0b(cpu),
        0x0c => instructions::opcode_cb0c(cpu),
        0x0d => instructions::opcode_cb0d(cpu),
        0x0e => instructions::opcode_cb0e(cpu),
        0x0f => instructions::opcode_cb0f(cpu),
        _ => Err(GameboyError::BadOpcode(opcode)),
    }
}

/// Runs the instruction `opcode` of the extended table, among those from 0x10 to 0x1f.
fn run_extended_1(cpu: &mut Cpu, opcode: u8) -> (result: InsnResult)
    requires
        old(cpu)@.wf(),
        opcode / 16 == 1,
    ensures
        (final(cpu)@, result) == spec_extended(old(cpu)@, opcode),
        final(cpu)@.wf(),
        result matches Ok(cycles) ==> cycles <= 24,
{
    match opcode {
        0x10 => instructions::opcode_cb10(cpu),
        0x11 => instructions::opcode_cb11(cpu),
        0x12 => instructions::opcode_cb12(cpu),
        0x13 => instructions::opcode_cb13(cpu),
        0x14 => instructions::opcode_cb14(cpu),
        0x15 => instructions::opcode_cb15(cpu),
        0x16 => instructions::opcode_cb16(cpu),
        0x17 => instructions::opcode_cb17(cpu),
        0x18 => instructions::opcode_cb18(cpu),
        0x19 => instructions::opcode_cb19(cpu),
        0x1a => instructions::opcode_cb1a(cpu),
        0x1b => instructions::opcode_cb1b(cpu),
        0x1c => instructions::opcode_cb1c(cpu),
        0x1d => instructions::opcode_cb1d(cpu),
        0x1e => instructions::opcode_cb1e(cpu),
        0x1f => instructions::opcode_cb1f(cpu),
        _ => Err(GameboyError::BadOpcode(opcode)),
    }
}

/// Runs the instruction `opcode` of the extended table, among those from 0x20 to 0x2f.
fn run_extended_2(cpu: &mut Cpu, opcode: u8) -> (result: InsnResult)
    requires
        old(cpu)@.wf(),
        opcode / 16 == 2,
    ensures
        (final(cpu)@, result) == spec_extended(old(cpu)@, opcode),
        final(cpu)@.wf(),
        result matches Ok(cycles) ==> cycles <= 24,
{
    match opcode {
        0x20 => instructions::opcode_cb20(cpu),
        0x21 => instructions::opcode_cb21(cpu),
        0x22 => instructions::opcode_cb22(cpu),
        0x23 => instructions::opcode_cb23(cpu),
        0x24 => instructions::opcode_cb24(cpu),
        0x25 => instructions::opcode_cb25(cpu),
        0x26 => instructions::opcode_cb26(cpu),
        0x27 => instructions::opcode_cb27(cpu),
        0x28 => instructions::opcode_cb28(cpu),
        0x29 => instructions::opcode_cb29(cpu),
        0x2a => instructions::opcode_cb2a(cpu),
        0x2b => instructions::opcode_cb2b(cpu),
        0x2c => instructions::opcode_cb2c(cpu),
        0x2d => instructions::opcode_cb2d(cpu),
        0x2e => instructions::opcode_cb2e(cpu),
        0x2f => instructions::opcode_cb2f(cpu),
        _ => Err(GameboyError::BadOpcode(opcode)),
    }
}

/// Runs the instruction `opcode` of the extended table, among those from 0x30 to 0x3f.
fn run_extended_3(cpu: &mut Cpu, opcode: u8) -> (result: InsnResult)
    requires
        old(cpu)@.wf(),
        opcode / 16 == 3,
    ensures
        (final(cpu)@, result) == spec_extended(old(cpu)@, opcode),
        final(cpu)@.wf(),
        result matches Ok(cycles) ==> cycles <= 24,
{
    match opcode {
        0x30 => instructions::opcode_cb30(cpu),
        0x31 => instructions::opcode_cb31(cpu),
        0x32 => instructions::opcode_cb32(cpu),
        0x33 => instructions::opcode_cb33(cpu),
        0x34 => instructions::opcode_cb34(cpu),
        0x35 => instructions::opcode_cb35(cpu),
        0x36 => instructions::opcode_cb36(cpu),
        0x37 => instructions::opcode_cb37(cpu),
        0x38 => instructions::opcode_cb38(cpu),
        0x39 => instructions::opcode_cb39(cpu),
        0x3a => instructions::opcode_cb3a(cpu),
        0x3b => instructions::opcode_cb3b(cpu),
        0x3c => instructions::opcode_cb3c(cpu),
        0x3d => instructions::opcode_cb3d(cpu),
        0x3e => instructions::opcode_cb3e(cpu),
        0x3f => instructions::opcode_cb3f(cpu),
        _ => Err(GameboyError::BadOpcode(opcode)),
    }
}

/// Runs the instruction `opcode` of the extended table, among those from 0x40 to 0x4f.
fn run_extended_4(cpu: &mut Cpu, opcode: u8) -> (result: InsnResult)
    requires
        old(cpu)@.wf(),
        opcode / 16 == 4,
    ensures
        (final(cpu)@, result) == spec_extended(old(cpu)@, opcode),
        final(cpu)@.wf(),
        result matches Ok(cycles) ==> cycles <= 24,
{
    match opcode {
        0x40 => instructions::opcode_cb40(cpu),
        0x41 => instructions::opcode_cb41(cpu),
        0x42 => instructions::opcode_cb42(cpu),
        0x43 => instructions::opcode_cb43(cpu),
        0x44 => instructions::opcode_cb44(cpu),
        0x45 => instructions::opcode_cb45(cpu),
        0x46 => instructions::opcode_cb46(cpu),
        0x47 => instructions::opcode_cb47(cpu),
        0x48 => instructions::opcode_cb48(cpu),
        0x49 => instructions::opcode_cb49(cpu),
        0x4a => instructions::opcode_cb4a(cpu),
        0x4b => instructions::opcode_cb4b(cpu),
        0x4c => instructions::opcode_cb4c(cpu),
        0x4d => instructions::opcode_cb4d(cpu),
        0x4e => instructions::opcode_cb4e(cpu),
        0x4f => instructions::opcode_cb4f(cpu),
        _ => Err(GameboyError::BadOpcode(opcode)),
    }
}

/// Runs the instruction `opcode` of the extended table, among those from 0x50 to 0x5f.
fn run_extended_5(cpu: &mut Cpu, opcode: u8) -> (result: InsnResult)
    requires
        old(cpu)@.wf(),
        opcode / 16 == 5,
    ensures
        (final(cpu)@, result) == spec_extended(old(cpu)@, opcode),
        final(cpu)@.wf(),
        result matches Ok(cycles) ==> cycles <= 24,
{
    match opcode {
        0x50 => instructions::opcode_cb50(cpu),
        0x51 => instructions::opcode_cb51(cpu),
        0x52 => instructions::opcode_cb52(cpu),
        0x53 => instructions::opcode_cb53(cpu),
        0x54 => instructions::opcode_cb54(cpu),
        0x55 => instructions::opcode_cb55(cpu),
        0x56 => instructions::opcode_cb56(cpu),
        0x57 => instructions::opcode_cb57(cpu),
        0x58 => instructions::opcode_cb58(cpu),
        0x59 => instructions::opcode_cb59(cpu),
        0x5a => instructions::opcode_cb5a(cpu),
        0x5b => instructions::opcode_cb5b(cpu),
        0x5c => instructions::opcode_cb5c(cpu),
        0x5d => instructions::opcode_cb5d(cpu),
        0x5e => instructions::opcode_cb5e(cpu),
        0x5f => instructions::opcode_cb5f(cpu),
        _ => Err(GameboyError::BadOpcode(opcode)),
    }
}

/// Runs the instruction `opcode` of the extended table, among those from 0x60 to 0x6f.
fn run_extended_6(cpu: &mut Cpu, opcode: u8) -> (result: InsnResult)
    requires
        old(cpu)@.wf(),
        opcode / 16 == 6,
    ensures
        (final(cpu)@, result) == spec_extended(old(cpu)@, opcode),
        final(cpu)@.wf(),
        result matches Ok(cycles) ==> cycles <= 24,
{
    match opcode {
        0x60 => instructions::opcode_cb60(cpu),
        0x61 => instructions::opcode_cb61(cpu),
        0x62 => instructions::opcode_cb62(cpu),
        0x63 => instructions::opcode_cb63(cpu),
        0x64 => instructions::opcode_cb64(cpu),
        0x65 => instructions::opcode_cb65(cpu),
        0x66 => instructions::opcode_cb66(cpu),
        0x67 => instructions::opcode_cb67(cpu),
        0x68 => instructions::opcode_cb68(cpu),
        0x69 => instructions::opcode_cb69(cpu),
        0x6a => instructions::opcode_cb6a(cpu),
        0x6b => instructions::opcode_cb6b(cpu),
        0x6c => instructions::opcode_cb6c(cpu),
        0x6d => instructions::opcode_cb6d(cpu),
        0x6e => instructions::opcode_cb6e(cpu),
        0x6f => instructions::opcode_cb6f(cpu),
        _ => Err(GameboyError::BadOpcode(opcode)),
    }
}

/// Runs the instruction `opcode` of the extended table, among those from 0x70 to 0x7f.
fn run_extended_7(cpu: &mut Cpu, opcode: u8) -> (result: InsnResult)
    requires
        old(cpu)@.wf(),
        opcode / 16 == 7,
    ensures
        (final(cpu)@, result) == spec_extended(old(cpu)@, opcode),
        final(cpu)@.wf(),
        result matches Ok(cycles) ==> cycles <= 24,
{
    match opcode {
        0x70 => instructions::opcode_cb70(cpu),
        0x71 => instructions::opcode_cb71(cpu),
        0x72 => instructions::opcode_cb72(cpu),
        0x73 => instructions::opcode_cb73(cpu),
        0x74 => instructions::opcode_cb74(cpu),
        0x75 => instructions::opcode_cb75(cpu),
        0x76 => instructions::opcode_cb76(cpu),
        0x77 => instructions::opcode_cb77(cpu),
        0x78 => instructions::opcode_cb78(cpu),
        0x79 => instructions::opcode_cb79(cpu),
        0x7a => instructions::opcode_cb7a(cpu),
        0x7b => instructions::opcode_cb7b(cpu),
        0x7c => instructions::opcode_cb7c(cpu),
        0x7d => instructions::opcode_cb7d(cpu),
        0x7e => instructions::opcode_cb7e(cpu),
        0x7f => instructions::opcode_cb7f(cpu),
        _ => Err(GameboyError::BadOpcode(opcode)),
    }
}

/// Runs the instruction `opcode` of the extended table, among those from 0x80 to 0x8f.
fn run_extended_8(cpu: &mut Cpu, opcode: u8) -> (result: InsnResult)
    requires
        old(cpu)@.wf(),
        opcode / 16 == 8,
    ensures
        (final(cpu)@, result) == spec_extended(old(cpu)@, opcode),
        final(cpu)@.wf(),
        result matches Ok(cycles) ==> cycles <= 24,
{
    match opcode {
        0x80 => instructions::opcode_cb80(cpu),
        0x81 => instructions::opcode_cb81(cpu),
        0x82 => instructions::opcode_cb82(cpu),
        0x83 => instructions::opcode_cb83(cpu),
        0x84 => instructions::opcode_cb84(cpu),
        0x85 => instructions::opcode_cb85(cpu),
        0x86 => instructions::opcode_cb86(cpu),
        0x87 => instructions::opcode_cb87(cpu),
        0x88 => instructions::opcode_cb88(cpu),
        0x89 => instructions::opcode_cb89(cpu),
        0x8a => instructions::opcode_cb8a(cpu),
        0x8b => instructions::opcode_cb8b(cpu),
        0x8c => instructions::opcode_cb8c(cpu),
        0x8d => instructions::opcode_cb8d(cpu),
        0x8e => instructions::opcode_cb8e(cpu),
        0x8f => instructions::opcode_cb8f(cpu),
        _ => Err(GameboyError::BadOpcode(opcode)),
    }
}

/// Runs the instruction `opcode` of the extended table, among those from 0x90 to 0x9f.
fn run_extended_9(cpu: &mut Cpu, opcode: u8) -> (result: InsnResult)
    requires
        old(cpu)@.wf(),
        opcode / 16 == 9,
    ensures
        (final(cpu)@, result) == spec_extended(old(cpu)@, opcode),
        final(cpu)@.wf(),
        result matches Ok(cycles) ==> cycles <= 24,
{
    match opcode {
        0x90 => instructions::opcode_cb90(cpu),
        0x91 => instructions::opcode_cb91(cpu),
        0x92 => instructions::opcode_cb92(cpu),
        0x93 => instructions::opcode_cb93(cpu),
        0x94 => instructions::opcode_cb94(cpu),
        0x95 => instructions::opcode_cb95(cpu),
        0x96 => instructions::opcode_cb96(cpu),
        0x97 => instructions::opcode_cb97(cpu),
        0x98 => instructions::opcode_cb98(cpu),
        0x99 => instructions::opcode_cb99(cpu),
        0x9a => instructions::opcode_cb9a(cpu),
        0x9b => instructions::opcode_cb9b(cpu),
        0x9c => instructions::opcode_cb9c(cpu),
        0x9d => instructions::opcode_cb9d(cpu),
        0x9e => instructions::opcode_cb9e(cpu),
        0x9f => instructions::opcode_cb9f(cpu),
        _ => Err(GameboyError::BadOpcode(opcode)),
    }
}

/// Runs the instruction `opcode` of the extended table, among those from 0xa0 to 0xaf.
fn run_extended_a(cpu: &mut Cpu, opcode: u8) -> (result: InsnResult)
    requires
        old(cpu)@.wf(),
        opcode / 16 == 10,
    ensures
        (final(cpu)@, result) == spec_extended(old(cpu)@, opcode),
        final(cpu)@.wf(),
        result matches Ok(cycles) ==> cycles <= 24,
{
    match opcode {
        0xa0 => instructions::opcode_cba0(cpu),
        0xa1 => instructions::opcode_cba1(cpu),
        0xa2 => instructions::opcode_cba2(cpu),
        0xa3 => instructions::opcode_cba3(cpu),
        0xa4 => instructions::opcode_cba4(cpu),
        0xa5 => instructions::opcode_cba5(cpu),
        0xa6 => instructions::opcode_cba6(cpu),
        0xa7 => instructions::opcode_cba7(cpu),
        0xa8 => instructions::opcode_cba8(cpu),
        0xa9 => instructions::opcode_cba9(cpu),
        0xaa => instructions::opcode_cbaa(cpu),
        0xab => instructions::opcode_cbab(cpu),
        0xac => instructions::opcode_cbac(cpu),
        0xad => instructions::opcode_cbad(cpu),
        0xae => instructions::opcode_cbae(cpu),
        0xaf => instructions::opcode_cbaf(cpu),
        _ => Err(GameboyError::BadOpcode(opcode)),
    }
}

/// Runs the instruction `opcode` of the extended table, among those from 0xb0 to 0xbf.
fn run_extended_b(cpu: &mut Cpu, opcode: u8) -> (result: InsnResult)
    requires
        old(cpu)@.wf(),
        opcode / 16 == 11,
    ensures
        (final(cpu)@, result) == spec_extended(old(cpu)@, opcode),
        final(cpu)@.wf(),
        result matches Ok(cycles) ==> cycles <= 24,
{
    match opcode {
        0xb0 => instructions::opcode_cbb0(cpu),
        0xb1 => instructions::opcode_cbb1(cpu),
        0xb2 => instructions::opcode_cbb2(cpu),
        0xb3 => instructions::opcode_cbb3(cpu),
        0xb4 => instructions::opcode_cbb4(cpu),
        0xb5 => instructions::opcode_cbb5(cpu),
        0xb6 => instructions::opcode_cbb6(cpu),
        0xb7 => instructions::opcode_cbb7(cpu),
        0xb8 => instructions::opcode_cbb8(cpu),
        0xb9 => instructions::opcode_cbb9(cpu),
        0xba => instructions::opcode_cbba(cpu),
        0xbb => instructions::opcode_cbbb(cpu),
        0xbc => instructions::opcode_cbbc(cpu),
        0xbd => instructions::opcode_cbbd(cpu),
        0xbe => instructions::opcode_cbbe(cpu),
        0xbf => instructions::opcode_cbbf(cpu),
        _ => Err(GameboyError::BadOpcode(opcode)),
    }
}

/// Runs the instruction `opcode` of the extended table, among those from 0xc0 to 0xcf.
fn run_extended_c(cpu: &mut Cpu, opcode: u8) -> (result: InsnResult)
    requires
        old(cpu)@.wf(),
        opcode / 16 == 12,
    ensures
        (final(cpu)@, result) == spec_extended(old(cpu)@, opcode),
        final(cpu)@.wf(),
        result matches Ok(cycles) ==> cycles <= 24,
{
    match opcode {
        0xc0 => instructions::opcode_cbc0(cpu),
        0xc1 => instructions::opcode_cbc1(cpu),
        0xc2 => instructions::opcode_cbc2(cpu),
        0xc3 => instructions::opcode_cbc3(cpu),
        0xc4 => instructions::opcode_cbc4(cpu),
        0xc5 => instructions::opcode_cbc5(cpu),
        0xc6 => instructions::opcode_cbc6(cpu),
        0xc7 => instructions::opcode_cbc7(cpu),
        0xc8 => instructions::opcode_cbc8(cpu),
        0xc9 => instructions::opcode_cbc9(cpu),
        0xca => instructions::opcode_cbca(cpu),
        0xcb => instructions::opcode_cbcb(cpu),
        0xcc => instructions::opcode_cbcc(cpu),
        0xcd => instructions::opcode_cbcd(cpu),
        0xce => instructions::opcode_cbce(cpu),
        0xcf => instructions::opcode_cbcf(cpu),
        _ => Err(GameboyError::BadOpcode(opcode)),
    }
}

/// Runs the instruction `opcode` of the extended table, among those from 0xd0 to 0xdf.
fn run_extended_d(cpu: &mut Cpu, opcode: u8) -> (result: InsnResult)
    requires
        old(cpu)@.wf(),
        opcode / 16 == 13,
    ensures
        (final(cpu)@, result) == spec_extended(old(cpu)@, opcode),
        final(cpu)@.wf(),
        result matches Ok(cycles) ==> cycles <= 24,
{
    match opcode {
        0xd0 => instructions::opcode_cbd0(cpu),
        0xd1 => instructions::opcode_cbd1(cpu),
        0xd2 => instructions::opcode_cbd2(cpu),
        0xd3 => instructions::opcode_cbd3(cpu),
        0xd4 => instructions::opcode_cbd4(cpu),
        0xd5 => instructions::opcode_cbd5(cpu),
        0xd6 => instructions::opcode_cbd6(cpu),
        0xd7 => instructions::opcode_cbd7(cpu),
        0xd8 => instructions::opcode_cbd8(cpu),
        0xd9 => instructions::opcode_cbd9(cpu),
        0xda => instructions::opcode_cbda(cpu),
        0xdb => instructions::opcode_cbdb(cpu),
        0xdc => instructions::opcode_cbdc(cpu),
        0xdd => instructions::opcode_cbdd(cpu),
        0xde => instructions::opcode_cbde(cpu),
        0xdf => instructions::opcode_cbdf(cpu),
        _ => Err(GameboyError::BadOpcode(opcode)),
    }
}

/// Runs the instruction `opcode` of the extended table, among those from 0xe0 to 0xef.
fn run_extended_e(cpu: &mut Cpu, opcode: u8) -> (result: InsnResult)
    requires
        old(cpu)@.wf(),
        opcode / 16 == 14,
    ensures
        (final(cpu)@, result) == spec_extended(old(cpu)@, opcode),
        final(cpu)@.wf(),
        result matches Ok(cycles) ==> cycles <= 24,
{
    match opcode {
        0xe0 => instructions::opcode_cbe0(cpu),
        0xe1 => instructions::opcode_cbe1(cpu),
        0xe2 => instructions::opcode_cbe2(cpu),
        0xe3 => instructions::opcode_cbe3(cpu),
        0xe4 => instructions::opcode_cbe4(cpu),
        0xe5 => instructions::opcode_cbe5(cpu),
        0xe6 => instructions::opcode_cbe6(cpu),
        0xe7 => instructions::opcode_cbe7(cpu),
        0xe8 => instructions::opcode_cbe8(cpu),
        0xe9 => instructions::opcode_cbe9(cpu),
        0xea => instructions::opcode_cbea(cpu),
        0xeb => instructions::opcode_cbeb(cpu),
        0xec => instructions::opcode_cbec(cpu),
        0xed => instructions::opcode_cbed(cpu),
        0xee => instructions::opcode_cbee(cpu),
        0xef => instructions::opcode_cbef(cpu),
        _ => Err(GameboyError::BadOpcode(opcode)),
    }
}

/// Runs the instruction `opcode` of the extended table, among those from 0xf0 to 0xff.
fn run_extended_f(cpu: &mut Cpu, opcode: u8) -> (result: InsnResult)
    requires
        old(cpu)@.wf(),
        opcode / 16 == 15,
    ensures
        (final(cpu)@, result) == spec_extended(old(cpu)@, opcode),
        final(cpu)@.wf(),
        result matches Ok(cycles) ==> cycles <= 24,
{
    match opcode {
        0xf0 => instructions::opcode_cbf0(cpu),
        0xf1 => instructions::opcode_cbf1(cpu),
        0xf2 => instructions::opcode_cbf2(cpu),
        0xf3 => instructions::opcode_cbf3(cpu),
        0xf4 => instructions::opcode_cbf4(cpu),
        0xf5 => instructions::opcode_cbf5(cpu),
        0xf6 => instructions::opcode_cbf6(cpu),
        0xf7 => instructions::opcode_cbf7(cpu),
        0xf8 => instructions::opcode_cbf8(cpu),
        0xf9 => instructions::opcode_cbf9(cpu),
        0xfa => instructions::opcode_cbfa(cpu),
        0xfb => instructions::opcode_cbfb(cpu),
        0xfc => instructions::opcode_cbfc(cpu),
        0xfd => instructions::opcode_cbfd(cpu),
        0xfe => instructions::opcode_cbfe(cpu),
        0xff => instructions::opcode_cbff(cpu),
        _ => Err(GameboyError::BadOpcode(opcode)),
    }
}

/// Runs the instruction `opcode` of the extended table.
fn run_extended(cpu: &mut Cpu, opcode: u8) -> (result: InsnResult)
    requires
        old(cpu)@.wf(),
    ensures
        (final(cpu)@, result) == spec_extended(old(cpu)@, opcode),
        final(cpu)@.wf(),
        result matches Ok(cycles) ==> cycles <= 24,
{
    match opcode / 16 {
        0 => run_extended_0(cpu, opcode),
        1 => run_extended_1(cpu, opcode),
        2 => run_extended_2(cpu, opcode),
        3 => run_extended_3(cpu, opcode),
        4 => run_extended_4(cpu, opcode),
        5 => run_extended_5(cpu, opcode),
        6 => run_extended_6(cpu, opcode),
        7 => run_extended_7(cpu, opcode),
        8 => run_extended_8(cpu, opcode),
        9 => run_extended_9(cpu, opcode),
        10 => run_extended_a(cpu, opcode),
        11 => run_extended_b(cpu, opcode),
        12 => run_extended_c(cpu, opcode),
        13 => run_extended_d(cpu, opcode),
        14 => run_extended_e(cpu, opcode),
        _ => run_extended_f(cpu, opcode),
    }
}
/// The state after `opcode` was decoded, and the instruction it names. The
/// prefix is followed by the opcode of an instruction of the extended
/// table, which is fetched; an opcode that names nothing is refused.
pub open spec fn spec_decode(cpu: CpuView, opcode: u8) -> (
    CpuView,
    Result<Instruction, GameboyError>,
) {
    if opcode == PREFIX {
        match cpu.fetch8().1 {
            Err(error) => (cpu.fetch8().0, Err(error)),
            Ok(next) => (cpu.fetch8().0, Ok(Instruction::Extended(next))),
        }
    } else if spec_defined(opcode) {
        (cpu, Ok(Instruction::Primary(opcode)))
    } else {
        (cpu, Err(GameboyError::BadOpcode(opcode)))
    }
}

/// Tells whether `opcode` names an instruction of the primary table.
#[verifier::when_used_as_spec(spec_defined)]
pub fn defined(opcode: u8) -> (is_defined: bool)
    ensures
        is_defined == spec_defined(opcode),
{
    opcode != 0x10 && opcode != 0xCB && opcode != 0xD3 && opcode != 0xDB && opcode != 0xDD
        && opcode != 0xE3 && opcode != 0xE4 && opcode != 0xEB && opcode != 0xEC && opcode != 0xED
        && opcode != 0xF4 && opcode != 0xFC && opcode != 0xFD
}

impl Instruction {
    /// Runs the instruction and returns the cycles it took.
    pub fn execute(self, cpu: &mut Cpu) -> (result: InsnResult)
        requires
            old(cpu)@.wf(),
        ensures
            (final(cpu)@, result) == self.semantics(old(cpu)@),
            final(cpu)@.wf(),
            result matches Ok(cycles) ==> cycles <= 24,
    {
        match self {
            Instruction::Primary(opcode) => run_primary(cpu, opcode),
            Instruction::Extended(opcode) => run_extended(cpu, opcode),
        }
    }
}

impl Cpu {
    /// Returns the instruction that `opcode` names. After the prefix, the
    /// opcode of the extended table is fetched.
    pub fn decode(&mut self, opcode: u8) -> (result: Result<Instruction, GameboyError>)
        requires
            old(self)@.wf(),
        ensures
            (final(self)@, result) == spec_decode(old(self)@, opcode),
            final(self)@.wf(),
    {
        if opcode == PREFIX {
            match self.fetch::<u8>() {
                Ok(next) => self.decode_cb(next),
                Err(error) => Err(error),
            }
        } else if defined(opcode) {
            Ok(Instruction::Primary(opcode))
        } else {
            Err(GameboyError::BadOpcode(opcode))
        }
    }

    /// Returns the instruction of the extended table that `opcode` names:
    /// every opcode names one.
    pub fn decode_cb(&self, opcode: u8) -> (result: Result<Instruction, GameboyError>)
        ensures
            result == Ok::<Instruction, GameboyError>(Instruction::Extended(opcode)),
    {
        Ok(Instruction::Extended(opcode))
    }
}

} // verus!
