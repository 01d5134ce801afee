//! The real-time clock of the type-3 bank controller.
//!
//! The clock counts seconds in a counter of its own. The program does not
//! see the counter: it sees five registers, which take the counter's value
//! when the program latches the clock.

use vstd::prelude::*;
use crate::bus::consts::MMAP_RAM_BANK_SW;
use crate::bus::memory_range::in_range;
use crate::bus::Memory;
use crate::GameboyError;

verus! {

/// The first of the five values that map a clock register in place of the
/// cartridge RAM.
pub const RTC_CONTROL_FIRST: u8 = 0x08;

/// The last of the five values that map a clock register.
pub const RTC_CONTROL_LAST: u8 = 0x0C;

/// The number of seconds in a day.
pub const SECONDS_PER_DAY: u64 = 86400;

/// Whether a value written to the bank select range maps a clock register.
pub open spec fn spec_is_rtc_register(value: u8) -> bool {
    RTC_CONTROL_FIRST <= value <= RTC_CONTROL_LAST
}

/// Tells whether a value written to the bank select range maps a clock
/// register.
#[verifier::when_used_as_spec(spec_is_rtc_register)]
pub fn is_rtc_register(value: u8) -> (is_register: bool)
    ensures
        is_register == spec_is_rtc_register(value),
{
    RTC_CONTROL_FIRST <= value && value <= RTC_CONTROL_LAST
}

/// The mathematical state of the clock.
pub struct RtcView {
    /// The seconds register.
    pub seconds: u8,
    /// The minutes register.
    pub minutes: u8,
    /// The hours register.
    pub hours: u8,
    /// The low eight bits of the day counter.
    pub days_low: u8,
    /// Bit 0: the ninth bit of the day counter. Bit 6: the clock is halted.
    /// Bit 7: the day counter overflowed.
    pub flags: u8,
    /// The register that reads and writes reach: 0 to 4, in the order of the
    /// fields above.
    pub active_register: u8,
    /// The seconds counted since the clock was created.
    pub counter: u64,
    /// The last value written to the latch.
    pub latch: u8,
}

impl RtcView {
    /// The clock's invariant: the active register is one of the five.
    pub open spec fn wf(self) -> bool {
        self.active_register < 5
    }

    /// The clock at its creation.
    pub open spec fn boot() -> RtcView {
        RtcView {
            seconds: 0,
            minutes: 0,
            hours: 0,
            days_low: 0,
            flags: 0,
            active_register: 0,
            counter: 0,
            latch: 0,
        }
    }

    /// Whether the clock is halted.
    pub open spec fn halted(self) -> bool {
        self.flags / 64 % 2 == 1
    }

    /// The clock one second later: a halted clock does not count, and the
    /// counter wraps at 64 bits.
    pub open spec fn tick(self) -> RtcView {
        if self.halted() {
            self
        } else {
            RtcView { counter: ((self.counter + 1) % 0x1_0000_0000_0000_0000) as u64, ..self }
        }
    }

    /// The clock with its registers showing the counter: the seconds,
    /// minutes and hours of the day, and the days modulo 512. The overflow
    /// bit is set once 512 days have passed and stays set; the halt bit
    /// stays as it is.
    pub open spec fn latched(self) -> RtcView {
        let days = self.counter / 86400;
        RtcView {
            seconds: (self.counter % 60) as u8,
            minutes: (self.counter / 60 % 60) as u8,
            hours: (self.counter / 3600 % 24) as u8,
            days_low: (days % 256) as u8,
            flags: (days / 256 % 2 + (self.flags / 64 % 2) * 64 + if days >= 512 || self.flags
                >= 128 {
                128int
            } else {
                0int
            }) as u8,
            ..self
        }
    }

    /// The clock after `value` was written to the latch: a one that follows
    /// a zero latches the clock.
    pub open spec fn latch(self, value: u8) -> RtcView {
        if self.latch == 0 && value == 1 {
            RtcView { latch: value, ..self.latched() }
        } else {
            RtcView { latch: value, ..self }
        }
    }

    /// The value of the active register.
    pub open spec fn active_value(self) -> u8 {
        if self.active_register == 0 {
            self.seconds
        } else if self.active_register == 1 {
            self.minutes
        } else if self.active_register == 2 {
            self.hours
        } else if self.active_register == 3 {
            self.days_low
        } else {
            self.flags
        }
    }

    /// The clock with `value` in the active register. The flags register
    /// keeps its three bits only.
    pub open spec fn with_active_value(self, value: u8) -> RtcView {
        if self.active_register == 0 {
            RtcView { seconds: value, ..self }
        } else if self.active_register == 1 {
            RtcView { minutes: value, ..self }
        } else if self.active_register == 2 {
            RtcView { hours: value, ..self }
        } else if self.active_register == 3 {
            RtcView { days_low: value, ..self }
        } else {
            RtcView { flags: (value / 64 * 64 + value % 2) as u8, ..self }
        }
    }

    /// The clock after `value` was written to the bank select range, and
    /// what the write returns: the values 0x08 to 0x0C select the five
    /// registers, any other value is refused.
    pub open spec fn set_active_register(self, value: u8) -> (RtcView, Result<(), GameboyError>) {
        if spec_is_rtc_register(value) {
            (RtcView { active_register: (value - 0x08) as u8, ..self }, Ok(()))
        } else {
            (self, Err(GameboyError::BadValue(value)))
        }
    }

    /// What a read of `address` returns: the active register, at every
    /// address of the cartridge RAM range.
    pub open spec fn read(self, address: u16) -> Result<u8, GameboyError> {
        if in_range(MMAP_RAM_BANK_SW, address) {
            Ok(self.active_value())
        } else {
            Err(GameboyError::BadAddress(address))
        }
    }

    /// The clock after a write of `value` to `address`, and what the write
    /// returns.
    pub open spec fn write(self, address: u16, value: u8) -> (RtcView, Result<(), GameboyError>) {
        if in_range(MMAP_RAM_BANK_SW, address) {
            (self.with_active_value(value), Ok(()))
        } else {
            (self, Err(GameboyError::BadAddress(address)))
        }
    }
}

/// The real-time clock.
pub struct Rtc {
    seconds: u8,
    minutes: u8,
    hours: u8,
    days_low: u8,
    flags: u8,
    active_register: u8,
    counter: u64,
    latch: u8,
}

impl View for Rtc {
    type V = RtcView;

    closed spec fn view(&self) -> RtcView {
        RtcView {
            seconds: self.seconds,
            minutes: self.minutes,
            hours: self.hours,
            days_low: self.days_low,
            flags: self.flags,
            active_register: self.active_register,
            counter: self.counter,
            latch: self.latch,
        }
    }
}

impl Rtc {
    /// Creates a clock that has counted nothing.
    pub fn new() -> (rtc: Rtc)
        ensures
            rtc@ == RtcView::boot(),
            rtc@.wf(),
    {
        Rtc {
            seconds: 0,
            minutes: 0,
            hours: 0,
            days_low: 0,
            flags: 0,
            active_register: 0,
            counter: 0,
            latch: 0,
        }
    }

    /// Returns the seconds register.
    pub fn seconds(&self) -> (value: u8)
        ensures
            value == self@.seconds,
    {
        self.seconds
    }

    /// Returns the minutes register.
    pub fn minutes(&self) -> (value: u8)
        ensures
            value == self@.minutes,
    {
        self.minutes
    }

    /// Returns the hours register.
    pub fn hours(&self) -> (value: u8)
        ensures
            value == self@.hours,
    {
        self.hours
    }

    /// Returns the low eight bits of the day counter.
    pub fn days_low(&self) -> (value: u8)
        ensures
            value == self@.days_low,
    {
        self.days_low
    }

    /// Returns the flags register.
    pub fn flags(&self) -> (value: u8)
        ensures
            value == self@.flags,
    {
        self.flags
    }

    /// Counts one second, unless the clock is halted.
    pub fn tick(&mut self)
        ensures
            final(self)@ == old(self)@.tick(),
    {
        if self.flags / 64 % 2 != 1 {
            self.counter = self.counter.wrapping_add(1);
        }
    }

    /// Writes `value` to the latch: a one that follows a zero copies the
    /// counter into the registers.
    pub fn latch(&mut self, value: u8)
        ensures
            final(self)@ == old(self)@.latch(value),
    {
        if self.latch == 0 && value == 1 {
            let days = self.counter / SECONDS_PER_DAY;
            let overflow: u8 = if days >= 512 || self.flags >= 128 {
                128
            } else {
                0
            };
            self.seconds = (self.counter % 60) as u8;
            self.minutes = (self.counter / 60 % 60) as u8;
            self.hours = (self.counter / 3600 % 24) as u8;
            self.days_low = (days % 256) as u8;
            self.flags = (days / 256 % 2) as u8 + (self.flags / 64 % 2) * 64 + overflow;
        }
        self.latch = value;
    }

    /// Selects the register that reads and writes reach.
    pub fn set_active_register(&mut self, value: u8) -> (result: Result<(), GameboyError>)
        requires
            old(self)@.wf(),
        ensures
            (final(self)@, result) == old(self)@.set_active_register(value),
            final(self)@.wf(),
    {
        if is_rtc_register(value) {
            self.active_register = value - 0x08;
            return Ok(());
        }
        Err(GameboyError::BadValue(value))
    }
}

impl Memory for Rtc {
    open spec fn valid(&self) -> bool {
        self@.wf()
    }

    open spec fn read_spec(&self, address: u16) -> Result<u8, GameboyError> {
        self@.read(address)
    }

    open spec fn write_spec(
        pre: &Self,
        post: &Self,
        address: u16,
        value: u8,
        result: Result<(), GameboyError>,
    ) -> bool {
        (post@, result) == pre@.write(address, value)
    }

    fn write(&mut self, address: u16, value: u8) -> (result: Result<(), GameboyError>) {
        if !in_range(MMAP_RAM_BANK_SW, address) {
            return Err(GameboyError::BadAddress(address));
        }
        if self.active_register == 0 {
            self.seconds = value;
        } else if self.active_register == 1 {
            self.minutes = value;
        } else if self.active_register == 2 {
            self.hours = value;
        } else if self.active_register == 3 {
            self.days_low = value;
        } else {
            self.flags = value / 64 * 64 + value % 2;
        }
        Ok(())
    }

    fn read(&self, address: u16) -> (result: Result<u8, GameboyError>) {
        if !in_range(MMAP_RAM_BANK_SW, address) {
            return Err(GameboyError::BadAddress(address));
        }
        if self.active_register == 0 {
            Ok(self.seconds)
        } else if self.active_register == 1 {
            Ok(self.minutes)
        } else if self.active_register == 2 {
            Ok(self.hours)
        } else if self.active_register == 3 {
            Ok(self.days_low)
        } else {
            Ok(self.flags)
        }
    }
}

/// What a latched clock shows: the registers give back the counter modulo
/// 512 days, and each stays within its range.
pub proof fn lemma_latched_time(v: RtcView)
    ensures
        v.latched().seconds < 60,
        v.latched().minutes < 60,
        v.latched().hours < 24,
        v.latched().seconds + 60 * v.latched().minutes + 3600 * v.latched().hours + 86400 * (
        v.latched().days_low + 256 * (v.latched().flags % 2)) == v.counter % 44236800,
        v.latched().halted() == v.halted(),
        v.latched().flags >= 128 <==> (v.counter >= 44236800 || v.flags >= 128),
{
    let c = v.counter as int;
    let days = c / 86400;
    let f = v.latched().flags as int;
    assert(f == days / 256 % 2 + (v.flags / 64 % 2) * 64 + if days >= 512 || v.flags >= 128 {
        128int
    } else {
        0int
    });
    assert(f % 2 == days / 256 % 2);
    assert(c == 86400 * days + c % 86400);
    assert(c % 86400 == c % 60 + 60 * (c / 60 % 60) + 3600 * (c / 3600 % 24));
    assert(days % 512 == days % 256 + 256 * (days / 256 % 2));
    assert(c % 44236800 == 86400 * (days % 512) + c % 86400);
}

} // verus!
