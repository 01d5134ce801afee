//! The interrupt lines and their priorities.

use vstd::prelude::*;

verus! {

/// A set of interrupt lines, one bit per line.
pub type InterruptMask = u8;

/// A peripheral that raises interrupts.
///
/// The peripheral collects the lines it raises in a mask of its own; the bus
/// reads the mask and clears it once per tick.
pub trait InterruptSource: Sized {
    /// The lines raised since the mask was last cleared.
    spec fn pending(&self) -> InterruptMask;

    /// Relates the peripheral before and after its mask was cleared: nothing
    /// but the mask changes.
    spec fn cleared(pre: &Self, post: &Self) -> bool;

    /// Returns the lines raised since the mask was last cleared.
    fn interrupts(&self) -> (mask: InterruptMask)
        ensures
            mask == self.pending(),
    ;

    /// Empties the mask of raised lines.
    fn clear(&mut self)
        ensures
            final(self).pending() == 0,
            Self::cleared(old(self), final(self)),
    ;
}

/// The interrupts that peripherals raise, in order of decreasing priority.
#[derive(Debug, Clone, Copy, PartialEq, Eq, Structural)]
pub enum Interrupt {
    /// The display entered vertical blanking.
    VerticalBlank,
    /// A display status event that the program asked for.
    LcdStat,
    /// The timer counter overflowed.
    Timer,
    /// A serial transfer completed.
    Serial,
    /// A key was pressed.
    Joypad,
}

impl Interrupt {
    /// The position of the interrupt's line in a mask; a lower position is
    /// served first.
    pub open spec fn spec_ordinal(&self) -> u8 {
        match self {
            Interrupt::VerticalBlank => 0,
            Interrupt::LcdStat => 1,
            Interrupt::Timer => 2,
            Interrupt::Serial => 3,
            Interrupt::Joypad => 4,
        }
    }

    /// The mask that holds the interrupt's line alone.
    pub open spec fn spec_value(&self) -> u8 {
        match self {
            Interrupt::VerticalBlank => 1,
            Interrupt::LcdStat => 2,
            Interrupt::Timer => 4,
            Interrupt::Serial => 8,
            Interrupt::Joypad => 16,
        }
    }

    /// The address of the interrupt's service routine.
    pub open spec fn spec_vector(&self) -> u16 {
        match self {
            Interrupt::VerticalBlank => 0x0040,
            Interrupt::LcdStat => 0x0048,
            Interrupt::Timer => 0x0050,
            Interrupt::Serial => 0x0058,
            Interrupt::Joypad => 0x0060,
        }
    }

    /// Returns the position of the interrupt's line in a mask.
    #[verifier::when_used_as_spec(spec_ordinal)]
    pub fn ordinal(&self) -> (index: u8)
        ensures
            index == self.spec_ordinal(),
            index < 5,
    {
        match self {
            Interrupt::VerticalBlank => 0,
            Interrupt::LcdStat => 1,
            Interrupt::Timer => 2,
            Interrupt::Serial => 3,
            Interrupt::Joypad => 4,
        }
    }

    /// Returns the mask that holds the interrupt's line alone.
    #[verifier::when_used_as_spec(spec_value)]
    pub fn value(&self) -> (mask: u8)
        ensures
            mask == self.spec_value(),
            mask == 1u8 << self.spec_ordinal(),
    {
        let index = self.ordinal();
        assert(1u8 << 0u8 == 1 && 1u8 << 1u8 == 2 && 1u8 << 2u8 == 4 && 1u8 << 3u8 == 8 && 1u8
            << 4u8 == 16) by (bit_vector);
        1u8 << index
    }

    /// Returns the address of the interrupt's service routine.
    #[verifier::when_used_as_spec(spec_vector)]
    pub fn vector(&self) -> (address: u16)
        ensures
            address == self.spec_vector(),
            address == 0x0040 + 8 * self.spec_ordinal(),
    {
        match self {
            Interrupt::VerticalBlank => 0x0040,
            Interrupt::LcdStat => 0x0048,
            Interrupt::Timer => 0x0050,
            Interrupt::Serial => 0x0058,
            Interrupt::Joypad => 0x0060,
        }
    }
}

/// The interrupt of highest priority among the lines of `mask`, if any of the
/// five lines is set.
pub open spec fn highest_priority(mask: InterruptMask) -> Option<Interrupt> {
    if mask & 1 != 0 {
        Some(Interrupt::VerticalBlank)
    } else if mask & 2 != 0 {
        Some(Interrupt::LcdStat)
    } else if mask & 4 != 0 {
        Some(Interrupt::Timer)
    } else if mask & 8 != 0 {
        Some(Interrupt::Serial)
    } else if mask & 16 != 0 {
        Some(Interrupt::Joypad)
    } else {
        None
    }
}

/// `mask` without the line of its interrupt of highest priority.
pub open spec fn without_highest(mask: InterruptMask) -> InterruptMask {
    match highest_priority(mask) {
        Some(interrupt) => mask & !interrupt.spec_value(),
        None => mask,
    }
}

/// Walks the lines of a mask from the highest priority to the lowest.
pub struct InterruptIter {
    /// The lines still to visit; a visited line is removed.
    pub mask: InterruptMask,
}

impl InterruptIter {
    /// Creates a walk over the lines of `mask`.
    pub fn new(mask: InterruptMask) -> (iter: InterruptIter)
        ensures
            iter.mask == mask,
    {
        InterruptIter { mask }
    }

    /// Removes the line of highest priority from the mask and returns its
    /// interrupt; `None` when none of the five lines is set.
    pub fn next(&mut self) -> (interrupt: Option<Interrupt>)
        ensures
            interrupt == highest_priority(old(self).mask),
            final(self).mask == without_highest(old(self).mask),
    {
        if self.mask & 1 != 0 {
            self.mask = self.mask & !1;
            Some(Interrupt::VerticalBlank)
        } else if self.mask & 2 != 0 {
            self.mask = self.mask & !2;
            Some(Interrupt::LcdStat)
        } else if self.mask & 4 != 0 {
            self.mask = self.mask & !4;
            Some(Interrupt::Timer)
        } else if self.mask & 8 != 0 {
            self.mask = self.mask & !8;
            Some(Interrupt::Serial)
        } else if self.mask & 16 != 0 {
            self.mask = self.mask & !16;
            Some(Interrupt::Joypad)
        } else {
            None
        }
    }
}

/// The served interrupt is pending, and no interrupt of higher priority is:
/// vertical blanking goes before the display status, which goes before the
/// timer, the serial port and the joypad, in this order.
pub proof fn lemma_priority_order(mask: InterruptMask, interrupt: Interrupt)
    ensures
        highest_priority(mask) == Some(interrupt) <==> (mask & interrupt.spec_value() != 0
            && forall|other: Interrupt|
            other.spec_ordinal() < interrupt.spec_ordinal() ==> mask & other.spec_value() == 0),
{
    let no_higher = forall|other: Interrupt|
        other.spec_ordinal() < interrupt.spec_ordinal() ==> mask & other.spec_value() == 0;
    if highest_priority(mask) == Some(interrupt) {
        assert(no_higher);
    }
    if mask & interrupt.spec_value() != 0 && no_higher {
        assert(Interrupt::VerticalBlank.spec_value() == 1);
        assert(Interrupt::LcdStat.spec_value() == 2);
        assert(Interrupt::Timer.spec_value() == 4);
        assert(Interrupt::Serial.spec_value() == 8);
        assert(Interrupt::Joypad.spec_value() == 16);
    }
}

/// Serving an interrupt clears its line and leaves every other line as it
/// was.
pub proof fn lemma_without_highest(mask: InterruptMask)
    ensures
        highest_priority(mask) is Some ==> without_highest(mask) & highest_priority(
            mask,
        ).unwrap().spec_value() == 0,
        forall|other: Interrupt|
            highest_priority(mask) != Some(other) ==> (without_highest(mask) & other.spec_value()
                == mask & #[trigger] other.spec_value()),
{
    assert(forall|m: u8, a: u8| #![auto] (m & !a) & a == 0) by (bit_vector);
    assert forall|other: Interrupt| highest_priority(mask) != Some(other) implies (without_highest(
        mask,
    ) & other.spec_value() == mask & #[trigger] other.spec_value()) by {
        let a = other.spec_value();
        match highest_priority(mask) {
            Some(served) => {
                let b = served.spec_value();
                assert((a == 1 || a == 2 || a == 4 || a == 8 || a == 16) && (b == 1 || b == 2 || b
                    == 4 || b == 8 || b == 16) && a != b ==> (mask & !b) & a == mask & a)
                    by (bit_vector);
            },
            None => {},
        }
    }
}

} // verus!
