//! Laws of the processor: what holds of every state of the machine.

use vstd::prelude::*;
use crate::cpu::instructions::{
    offset_address, spec_enter_interrupt, spec_pop_nn, spec_push, spec_push_nn, spec_stack_top,
};
use crate::cpu::interrupts::{lemma_priority_order, Interrupt};
use crate::cpu::state::Register;
use crate::cpu::{spec_handle_interrupts, CpuView};
use crate::GameboyError;

verus! {

/// Whether a push finds the two bytes below the stack pointer in the work
/// RAM.
pub open spec fn stack_in_work_ram(cpu: CpuView) -> bool {
    0xC002 <= cpu.registers.sp <= 0xE000
}

/// A word pushed on a stack in the work RAM is the word on top of the
/// stack, and the stack pointer is two below where it was.
pub proof fn lemma_push_stack_top(cpu: CpuView, value: u16)
    requires
        cpu.wf(),
        stack_in_work_ram(cpu),
    ensures
        spec_push(cpu, value).1 is Ok,
        spec_push(cpu, value).0.wf(),
        spec_push(cpu, value).0.registers == cpu.registers.spec_set(
            Register::SP,
            (cpu.registers.sp - 2) as u16,
        ),
        spec_stack_top(spec_push(cpu, value).0) == Ok::<u16, GameboyError>(value),
        spec_push(cpu, value).0.mmap.interrupt_flag == cpu.mmap.interrupt_flag,
        spec_push(cpu, value).0.mmap.interrupt_enable == cpu.mmap.interrupt_enable,
{
    let sp = cpu.registers.sp;
    assert(offset_address(sp, -1) == sp - 1);
    assert(offset_address(sp, -2) == sp - 2);
    let moved = cpu.with_register(Register::SP, offset_address(sp, -2));
    let high = (value / 256) as u8;
    let low = (value % 256) as u8;
    let first = moved.write(offset_address(sp, -1), high);
    assert(first.1 is Ok);
    let second = first.0.write(offset_address(sp, -2), low);
    assert(second.1 is Ok);
    assert(spec_push(cpu, value) == second);
    assert(second.0.registers.sp == sp - 2);
    assert(offset_address((sp - 2) as u16, 1) == sp - 1);
    assert(second.0.read((sp - 2) as u16) == Ok::<u8, GameboyError>(low));
    assert(second.0.read((sp - 1) as u16) == Ok::<u8, GameboyError>(high));
}

/// Push and pop undo each other: on a stack in the work RAM, a general
/// register pair that is pushed and popped holds what it held, and the
/// stack pointer is where it was.
pub proof fn lemma_push_pop(cpu: CpuView, reg: Register)
    requires
        cpu.wf(),
        stack_in_work_ram(cpu),
        reg == Register::BC || reg == Register::DE || reg == Register::HL,
    ensures
        spec_push_nn(cpu, reg).1 == Ok::<usize, GameboyError>(16),
        spec_pop_nn(spec_push_nn(cpu, reg).0, reg).1 == Ok::<usize, GameboyError>(12),
        spec_pop_nn(spec_push_nn(cpu, reg).0, reg).0.registers == cpu.registers,
{
    reveal(spec_push_nn);
    reveal(spec_pop_nn);
    let value = cpu.register(reg);
    lemma_push_stack_top(cpu, value);
    let pushed = spec_push(cpu, value).0;
    assert(offset_address(pushed.registers.sp, 2) == cpu.registers.sp);
}

/// The dispatch of an interrupt. With the interrupts enabled, the
/// interrupt that is served waits and is enabled, and no interrupt that
/// goes before it does: vertical blanking goes before the display status,
/// the timer, the serial port and the joypad, in this order. On a stack in
/// the work RAM the dispatch takes twenty-four cycles; after it the
/// interrupts are disabled, the processor runs, the program counter is at
/// the interrupt's routine, the address on top of the stack is the program
/// counter of before, and the interrupt waits no more while the others wait
/// as before.
pub proof fn lemma_interrupt_dispatch(cpu: CpuView, interrupt: Interrupt)
    requires
        cpu.wf(),
        cpu.registers.ime,
        cpu.mmap.next_interrupt() == Some(interrupt),
        stack_in_work_ram(cpu),
    ensures
        (cpu.mmap.interrupt_flag & cpu.mmap.interrupt_enable) & interrupt.spec_value() != 0,
        forall|other: Interrupt|
            other.spec_ordinal() < interrupt.spec_ordinal() ==> (cpu.mmap.interrupt_flag
                & cpu.mmap.interrupt_enable) & other.spec_value() == 0,
        spec_handle_interrupts(cpu).1 == Ok::<usize, GameboyError>(24),
        !spec_handle_interrupts(cpu).0.registers.ime,
        !spec_handle_interrupts(cpu).0.halting,
        spec_handle_interrupts(cpu).0.registers.pc == interrupt.spec_vector(),
        spec_stack_top(spec_handle_interrupts(cpu).0) == Ok::<u16, GameboyError>(
            cpu.registers.pc,
        ),
        spec_handle_interrupts(cpu).0.mmap.interrupt_flag == cpu.mmap.interrupt_flag
            & !interrupt.spec_value(),
{
    reveal(spec_enter_interrupt);
    lemma_priority_order(cpu.mmap.interrupt_flag & cpu.mmap.interrupt_enable, interrupt);
    let served = CpuView { halting: false, mmap: cpu.mmap.fetch_interrupt(), ..cpu };
    lemma_push_stack_top(served, cpu.registers.pc);
    let pushed = spec_push(served, served.register(Register::PC)).0;
    let after = spec_handle_interrupts(cpu).0;
    assert(after.mmap == pushed.mmap);
    assert(after.registers.sp == pushed.registers.sp);
    assert(spec_stack_top(after) == spec_stack_top(pushed));
}

/// While the interrupts are disabled, none is dispatched: the step looks
/// at the interrupts without touching the registers or the bus, and takes
/// no cycle.
pub proof fn lemma_no_dispatch_while_disabled(cpu: CpuView)
    requires
        !cpu.registers.ime,
    ensures
        spec_handle_interrupts(cpu).1 == Ok::<usize, GameboyError>(0),
        spec_handle_interrupts(cpu).0.registers == cpu.registers,
        spec_handle_interrupts(cpu).0.mmap == cpu.mmap,
{
}

/// The halt bug. When the processor halts with the interrupts disabled
/// while an interrupt waits, the interrupt wakes it without being served,
/// and the byte after the halt is fetched twice: the first fetch leaves
/// the program counter where it is, the second returns the same byte and
/// moves on.
pub proof fn lemma_halt_bug(cpu: CpuView)
    requires
        cpu.wf(),
        !cpu.registers.ime,
        cpu.mmap.interrupt_flag & cpu.mmap.interrupt_enable != 0,
        cpu.read(cpu.registers.pc) is Ok,
    ensures
        cpu.halt().halting,
        spec_handle_interrupts(cpu.halt()) == (
            CpuView { halting: false, ..cpu.halt() },
            Ok::<usize, GameboyError>(0),
        ),
        spec_handle_interrupts(cpu.halt()).0.fetch8().1 == cpu.read(cpu.registers.pc),
        spec_handle_interrupts(cpu.halt()).0.fetch8().0.registers.pc == cpu.registers.pc,
        spec_handle_interrupts(cpu.halt()).0.fetch8().0.fetch8().1 == cpu.read(cpu.registers.pc),
        spec_handle_interrupts(cpu.halt()).0.fetch8().0.fetch8().0.registers.pc == offset_address(
            cpu.registers.pc,
            1,
        ),
{
    let flag = cpu.mmap.interrupt_flag;
    let enable = cpu.mmap.interrupt_enable;
    assert(flag & enable != 0 ==> flag != 0) by (bit_vector);
}

} // verus!
