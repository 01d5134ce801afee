//! The programmable timer.

use vstd::prelude::*;
use crate::bus::memory_range::MemoryRange;
use crate::bus::Memory;
use crate::config::{Config, HardwareModel};
use crate::cpu::interrupts::{Interrupt, InterruptMask, InterruptSource};
use crate::GameboyError;

verus! {

/// The divider register, which shows the upper byte of the divider.
pub const IO_DIV: u16 = 0xFF04;

/// The timer counter.
pub const IO_TIMA: u16 = 0xFF05;

/// The timer modulo, which the counter restarts from.
pub const IO_TMA: u16 = 0xFF06;

/// The timer control register.
pub const IO_TAC: u16 = 0xFF07;

/// The timer registers.
pub const MMAP_IO_TIMER: MemoryRange = 0xFF04_FF07;

/// The timer control register.
#[derive(Clone, Copy, Debug, PartialEq, Eq, Structural)]
pub struct Tac {
    /// Whether the counter runs.
    pub enable: bool,
    /// Which bit of the divider clocks the counter: 0, 1, 2 and 3 select bits
    /// 9, 3, 5 and 7.
    pub frequency: u8,
}

impl Tac {
    /// Creates the register with the counter stopped.
    pub fn new() -> (tac: Tac)
        ensures
            tac == (Tac { enable: false, frequency: 0 }),
    {
        Tac { enable: false, frequency: 0 }
    }

    /// Stops the counter and selects bit 9.
    pub fn reset(&mut self)
        ensures
            *final(self) == (Tac { enable: false, frequency: 0 }),
    {
        self.enable = false;
        self.frequency = 0;
    }

    /// The register that a write of `value` gives: bit 2 enables the counter,
    /// bits 0 and 1 select the frequency.
    pub open spec fn spec_write(value: u8) -> Tac {
        Tac { enable: value / 4 % 2 == 1, frequency: value % 4 }
    }

    /// What the program reads.
    pub open spec fn spec_read(&self) -> u8 {
        (self.frequency + if self.enable {
            4int
        } else {
            0int
        }) as u8
    }

    /// Replaces the register's bits.
    pub fn write(&mut self, value: u8)
        ensures
            *final(self) == Tac::spec_write(value),
            final(self).frequency < 4,
    {
        self.enable = value / 4 % 2 == 1;
        self.frequency = value % 4;
    }

    /// Returns what the program reads.
    #[verifier::when_used_as_spec(spec_read)]
    pub fn read(&self) -> (value: u8)
        requires
            self.frequency < 4,
        ensures
            value == self.spec_read(),
    {
        self.frequency + if self.enable {
            4
        } else {
            0
        }
    }
}

/// Whether the bit of `div` that `frequency` selects is set.
pub open spec fn divider_bit(div: u16, frequency: u8) -> bool {
    if frequency == 0 {
        div / 512 % 2 == 1
    } else if frequency == 1 {
        div / 8 % 2 == 1
    } else if frequency == 2 {
        div / 32 % 2 == 1
    } else {
        div / 128 % 2 == 1
    }
}

/// The number of cycles between two falling edges of the bit that
/// `frequency` selects.
pub open spec fn period(frequency: u8) -> int {
    if frequency == 0 {
        1024
    } else if frequency == 1 {
        16
    } else if frequency == 2 {
        64
    } else {
        256
    }
}

/// The divider at boot.
pub open spec fn boot_divider(model: HardwareModel) -> u16 {
    match model {
        HardwareModel::GB | HardwareModel::SGB => 0xabcc,
        HardwareModel::GBC => 0x1ea0,
        HardwareModel::GBP => 0x1ea4,
    }
}

/// The mathematical state of the timer.
pub struct TimerView {
    /// The 16-bit divider, which counts cycles.
    pub div: u16,
    /// The timer counter.
    pub tima: u8,
    /// The timer modulo.
    pub tma: u8,
    /// The timer control.
    pub tac: Tac,
    /// The interrupts raised since the mask was last cleared.
    pub interrupt_flag: InterruptMask,
}

impl TimerView {
    /// The timer's invariant: the frequency is one of the four.
    pub open spec fn wf(self) -> bool {
        self.tac.frequency < 4
    }

    /// The timer at boot.
    pub open spec fn boot(model: HardwareModel) -> TimerView {
        TimerView {
            div: boot_divider(model),
            tima: 0,
            tma: 0,
            tac: Tac { enable: false, frequency: 0 },
            interrupt_flag: 0,
        }
    }

    /// The divider after `cycles` cycles: it wraps at 16 bits.
    pub open spec fn divider_after(self, cycles: usize) -> u16 {
        ((self.div + cycles) % 0x1_0000) as u16
    }

    /// Whether a tick of `cycles` cycles increments the counter: the counter
    /// runs, and the selected bit of the divider is set before the tick and
    /// clear after it.
    pub open spec fn increments(self, cycles: usize) -> bool {
        self.tac.enable && divider_bit(self.div, self.tac.frequency) && !divider_bit(
            self.divider_after(cycles),
            self.tac.frequency,
        )
    }

    /// The state after a tick of `cycles` cycles. A counter that is
    /// incremented past 255 restarts from the modulo and raises the timer
    /// interrupt.
    pub open spec fn process(self, cycles: usize) -> TimerView {
        let div = self.divider_after(cycles);
        if self.increments(cycles) {
            if self.tima == 255 {
                TimerView {
                    div,
                    tima: self.tma,
                    interrupt_flag: self.interrupt_flag | Interrupt::Timer.spec_value(),
                    ..self
                }
            } else {
                TimerView { div, tima: (self.tima + 1) as u8, ..self }
            }
        } else {
            TimerView { div, ..self }
        }
    }

    /// The state after the ticks of `ticks`, one after another.
    pub open spec fn run(self, ticks: Seq<usize>) -> TimerView
        decreases ticks.len(),
    {
        if ticks.len() == 0 {
            self
        } else {
            self.process(ticks[0]).run(ticks.skip(1))
        }
    }

    /// How many of the ticks of `ticks`, made one after another, increment
    /// the counter.
    pub open spec fn count_increments(self, ticks: Seq<usize>) -> int
        decreases ticks.len(),
    {
        if ticks.len() == 0 {
            0
        } else {
            (if self.increments(ticks[0]) {
                1int
            } else {
                0int
            }) + self.process(ticks[0]).count_increments(ticks.skip(1))
        }
    }

    /// What a read of `address` returns.
    pub open spec fn read(self, address: u16) -> Result<u8, GameboyError> {
        if address == IO_DIV {
            Ok((self.div / 256) as u8)
        } else if address == IO_TIMA {
            Ok(self.tima)
        } else if address == IO_TMA {
            Ok(self.tma)
        } else if address == IO_TAC {
            Ok(self.tac.spec_read())
        } else {
            Err(GameboyError::BadAddress(address))
        }
    }

    /// The state after a write of `value` to `address`, and what the write
    /// returns. A write to the divider clears it, whatever the value.
    pub open spec fn write(self, address: u16, value: u8) -> (TimerView, Result<(), GameboyError>) {
        if address == IO_DIV {
            (TimerView { div: 0, ..self }, Ok(()))
        } else if address == IO_TIMA {
            (TimerView { tima: value, ..self }, Ok(()))
        } else if address == IO_TMA {
            (TimerView { tma: value, ..self }, Ok(()))
        } else if address == IO_TAC {
            (TimerView { tac: Tac::spec_write(value), ..self }, Ok(()))
        } else {
            (self, Err(GameboyError::BadAddress(address)))
        }
    }
}

/// The total number of cycles of `ticks`.
pub open spec fn total_cycles(ticks: Seq<usize>) -> int
    decreases ticks.len(),
{
    if ticks.len() == 0 {
        0
    } else {
        ticks[0] + total_cycles(ticks.skip(1))
    }
}

/// The timer.
pub struct Timer {
    div: u16,
    tima: u8,
    tma: u8,
    tac: Tac,
    interrupt_flag: InterruptMask,
}

impl View for Timer {
    type V = TimerView;

    closed spec fn view(&self) -> TimerView {
        TimerView {
            div: self.div,
            tima: self.tima,
            tma: self.tma,
            tac: self.tac,
            interrupt_flag: self.interrupt_flag,
        }
    }
}

impl Timer {
    /// Creates the timer in its state at boot.
    pub fn new(config: &Config) -> (timer: Timer)
        ensures
            timer@ == TimerView::boot(config.model),
            timer@.wf(),
    {
        let mut timer = Timer { div: 0, tima: 0, tma: 0, tac: Tac::new(), interrupt_flag: 0 };
        timer.reset(config);
        timer
    }

    /// Puts the registers back to their state at boot; the raised interrupts
    /// stay raised.
    pub fn reset(&mut self, config: &Config)
        ensures
            final(self)@ == (TimerView {
                interrupt_flag: old(self)@.interrupt_flag,
                ..TimerView::boot(config.model)
            }),
            final(self)@.wf(),
    {
        match config.model {
            HardwareModel::GB | HardwareModel::SGB => {
                self.div = 0xabcc;
            },
            HardwareModel::GBC => {
                self.div = 0x1ea0;
            },
            HardwareModel::GBP => {
                self.div = 0x1ea4;
            },
        }
        self.tima = 0;
        self.tma = 0;
        self.tac.reset();
    }

    /// Tells whether the bit of `div` that the control register selects is
    /// set.
    fn selected_bit(&self, div: u16) -> (set: bool)
        ensures
            set == divider_bit(div, self@.tac.frequency),
    {
        if self.tac.frequency == 0 {
            div / 512 % 2 == 1
        } else if self.tac.frequency == 1 {
            div / 8 % 2 == 1
        } else if self.tac.frequency == 2 {
            div / 32 % 2 == 1
        } else {
            div / 128 % 2 == 1
        }
    }

    /// Advances the timer by `cycles` cycles.
    pub fn process(&mut self, cycles: usize)
        requires
            old(self)@.wf(),
        ensures
            final(self)@ == old(self)@.process(cycles),
            final(self)@.wf(),
    {
        let new_div = ((self.div as usize + cycles % 0x1_0000) % 0x1_0000) as u16;
        assert(new_div == self@.divider_after(cycles)) by {
            vstd::arithmetic::div_mod::lemma_add_mod_noop(
                self.div as int,
                cycles as int,
                0x1_0000,
            );
        }
        if self.tac.enable && self.selected_bit(self.div) && !self.selected_bit(new_div) {
            if self.tima == 255 {
                self.interrupt_flag = self.interrupt_flag | Interrupt::Timer.value();
                self.tima = self.tma;
            } else {
                self.tima = self.tima + 1;
            }
        }
        self.div = new_div;
    }
}

impl Memory for Timer {
    open spec fn valid(&self) -> bool {
        self@.wf()
    }

    open spec fn read_spec(&self, address: u16) -> Result<u8, GameboyError> {
        self@.read(address)
    }

    open spec fn write_spec(
        pre: &Self,
        post: &Self,
        address: u16,
        value: u8,
        result: Result<(), GameboyError>,
    ) -> bool {
        (post@, result) == pre@.write(address, value)
    }

    fn write(&mut self, address: u16, value: u8) -> (result: Result<(), GameboyError>) {
        if address == IO_DIV {
            self.div = 0;
        } else if address == IO_TIMA {
            self.tima = value;
        } else if address == IO_TMA {
            self.tma = value;
        } else if address == IO_TAC {
            self.tac.write(value);
        } else {
            return Err(GameboyError::BadAddress(address));
        }
        Ok(())
    }

    fn read(&self, address: u16) -> (result: Result<u8, GameboyError>) {
        if address == IO_DIV {
            Ok((self.div / 256) as u8)
        } else if address == IO_TIMA {
            Ok(self.tima)
        } else if address == IO_TMA {
            Ok(self.tma)
        } else if address == IO_TAC {
            Ok(self.tac.read())
        } else {
            Err(GameboyError::BadAddress(address))
        }
    }
}

impl InterruptSource for Timer {
    open spec fn pending(&self) -> InterruptMask {
        self@.interrupt_flag
    }

    open spec fn cleared(pre: &Self, post: &Self) -> bool {
        post@ == (TimerView { interrupt_flag: 0, ..pre@ })
    }

    fn interrupts(&self) -> (mask: InterruptMask) {
        self.interrupt_flag
    }

    fn clear(&mut self) {
        self.interrupt_flag = 0;
    }
}

proof fn lemma_edge_512(d: u32, n: u32)
    by (bit_vector)
    requires
        d < 0x1_0000,
        n <= 512,
    ensures
        ((d / 512) % 2 == 1 && (((d + n) % 0x1_0000) / 512) % 2 != 1) <==> (d + n) / 1024 == d
            / 1024 + 1,
        !((d / 512) % 2 == 1 && (((d + n) % 0x1_0000) / 512) % 2 != 1) <==> (d + n) / 1024 == d
            / 1024,
{
}

proof fn lemma_edge_8(d: u32, n: u32)
    by (bit_vector)
    requires
        d < 0x1_0000,
        n <= 8,
    ensures
        ((d / 8) % 2 == 1 && (((d + n) % 0x1_0000) / 8) % 2 != 1) <==> (d + n) / 16 == d / 16 + 1,
        !((d / 8) % 2 == 1 && (((d + n) % 0x1_0000) / 8) % 2 != 1) <==> (d + n) / 16 == d / 16,
{
}

proof fn lemma_edge_32(d: u32, n: u32)
    by (bit_vector)
    requires
        d < 0x1_0000,
        n <= 32,
    ensures
        ((d / 32) % 2 == 1 && (((d + n) % 0x1_0000) / 32) % 2 != 1) <==> (d + n) / 64 == d / 64
            + 1,
        !((d / 32) % 2 == 1 && (((d + n) % 0x1_0000) / 32) % 2 != 1) <==> (d + n) / 64 == d / 64,
{
}

proof fn lemma_edge_128(d: u32, n: u32)
    by (bit_vector)
    requires
        d < 0x1_0000,
        n <= 128,
    ensures
        ((d / 128) % 2 == 1 && (((d + n) % 0x1_0000) / 128) % 2 != 1) <==> (d + n) / 256 == d
            / 256 + 1,
        !((d / 128) % 2 == 1 && (((d + n) % 0x1_0000) / 128) % 2 != 1) <==> (d + n) / 256 == d
            / 256,
{
}

/// A tick of at most half a period increments the counter exactly when the
/// divider passes a multiple of the period.
pub proof fn lemma_tick_increment(v: TimerView, cycles: usize)
    requires
        v.wf(),
        v.tac.enable,
        cycles <= period(v.tac.frequency) / 2,
    ensures
        v.increments(cycles) <==> (v.div + cycles) / period(v.tac.frequency) == (v.div as int)
            / period(v.tac.frequency) + 1,
        !v.increments(cycles) <==> (v.div + cycles) / period(v.tac.frequency) == (v.div as int)
            / period(v.tac.frequency),
        v.process(cycles).tac == v.tac,
        v.process(cycles).div == (v.div + cycles) % 0x1_0000,
{
    let d = v.div as u32;
    let n = cycles as u32;
    if v.tac.frequency == 0 {
        lemma_edge_512(d, n);
    } else if v.tac.frequency == 1 {
        lemma_edge_8(d, n);
    } else if v.tac.frequency == 2 {
        lemma_edge_32(d, n);
    } else {
        lemma_edge_128(d, n);
    }
}

proof fn lemma_wrapped_quotient(x: int, frequency: u8)
    ensures
        (x - 0x1_0000) / period(frequency) == x / period(frequency) - 0x1_0000int / period(
            frequency,
        ),
{
    if frequency == 0 {
        vstd::arithmetic::div_mod::lemma_hoist_over_denominator(x - 0x1_0000, 64, 1024);
    } else if frequency == 1 {
        vstd::arithmetic::div_mod::lemma_hoist_over_denominator(x - 0x1_0000, 4096, 16);
    } else if frequency == 2 {
        vstd::arithmetic::div_mod::lemma_hoist_over_denominator(x - 0x1_0000, 1024, 64);
    } else {
        vstd::arithmetic::div_mod::lemma_hoist_over_denominator(x - 0x1_0000, 256, 256);
    }
}

/// The counter's rate: while the counter runs and no tick is longer than
/// half a period of the selected bit, the counter is incremented once each
/// time the divider passes a multiple of the period. With bit 9 selected
/// that is once per 1024 cycles.
pub proof fn lemma_increment_rate(v: TimerView, ticks: Seq<usize>)
    requires
        v.wf(),
        v.tac.enable,
        forall|i: int| 0 <= i < ticks.len() ==> ticks[i] <= period(v.tac.frequency) / 2,
    ensures
        v.count_increments(ticks) == (v.div + total_cycles(ticks)) / period(v.tac.frequency) - (
        v.div as int) / period(v.tac.frequency),
        total_cycles(ticks) == period(v.tac.frequency) ==> v.count_increments(ticks) == 1,
        v.tac.frequency == 0 && total_cycles(ticks) == 1024 ==> v.count_increments(ticks) == 1,
    decreases ticks.len(),
{
    let f = v.tac.frequency;
    if ticks.len() > 0 {
        let next = v.process(ticks[0]);
        let rest = ticks.skip(1);
        lemma_tick_increment(v, ticks[0]);
        assert forall|i: int| 0 <= i < rest.len() implies rest[i] <= period(next.tac.frequency)
            / 2 by {
            assert(rest[i] == ticks[i + 1]);
        }
        lemma_increment_rate(next, rest);
        let d = v.div as int;
        let n = ticks[0] as int;
        let t = total_cycles(rest);
        if next.div != d + n {
            assert(next.div == d + n - 0x1_0000);
            lemma_wrapped_quotient(d + n + t, f);
            lemma_wrapped_quotient(d + n, f);
        }
    }
    vstd::arithmetic::div_mod::lemma_hoist_over_denominator(v.div as int, 1, period(f) as nat);
}

} // verus!
