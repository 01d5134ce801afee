//! The joypad.

use vstd::prelude::*;
use crate::bus::Memory;
use crate::cpu::interrupts::{Interrupt, InterruptMask, InterruptSource};
use crate::GameboyError;

verus! {

/// The joypad register.
pub const IO_P1: u16 = 0xFF00;

/// The keys of the console.
#[derive(Clone, Copy, Debug, PartialEq, Eq, Structural)]
pub enum Key {
    /// The right arrow.
    Right,
    /// The left arrow.
    Left,
    /// The up arrow.
    Up,
    /// The down arrow.
    Down,
    /// The A button.
    A,
    /// The B button.
    B,
    /// The select button.
    Select,
    /// The start button.
    Start,
}

impl Key {
    /// The key's bit in the key bitmap: the arrows in the low nibble, the
    /// buttons in the high nibble.
    pub open spec fn spec_value(&self) -> u8 {
        match self {
            Key::Right => 1,
            Key::Left => 2,
            Key::Up => 4,
            Key::Down => 8,
            Key::A => 16,
            Key::B => 32,
            Key::Select => 64,
            Key::Start => 128,
        }
    }

    /// Returns the key's bit in the key bitmap.
    #[verifier::when_used_as_spec(spec_value)]
    pub fn value(&self) -> (bit: u8)
        ensures
            bit == self.spec_value(),
    {
        match self {
            Key::Right => 1,
            Key::Left => 2,
            Key::Up => 4,
            Key::Down => 8,
            Key::A => 16,
            Key::B => 32,
            Key::Select => 64,
            Key::Start => 128,
        }
    }
}

/// A device that is told which keys are held.
pub trait Controller: Sized {
    /// Relates the device before and after `key` was pressed.
    spec fn pressed(pre: &Self, post: &Self, key: Key) -> bool;

    /// Relates the device before and after `key` was released.
    spec fn released(pre: &Self, post: &Self, key: Key) -> bool;

    /// Marks `key` as held.
    fn down(&mut self, key: Key)
        ensures
            Self::pressed(old(self), final(self), key),
    ;

    /// Marks `key` as released.
    fn up(&mut self, key: Key)
        ensures
            Self::released(old(self), final(self), key),
    ;
}

/// The mathematical state of the joypad.
pub struct JoypadView {
    /// The key bitmap: a key's bit is clear while the key is held.
    pub data: u8,
    /// The last value written to the register; bits 4 and 5 select which
    /// group of keys a read shows.
    pub select: u8,
    /// The interrupts raised since the mask was last cleared.
    pub interrupt_flag: InterruptMask,
}

impl JoypadView {
    /// The state after `key` was pressed: its bit is cleared and the joypad
    /// interrupt is raised.
    pub open spec fn down(self, key: Key) -> JoypadView {
        JoypadView {
            data: self.data & !key.spec_value(),
            interrupt_flag: self.interrupt_flag | Interrupt::Joypad.spec_value(),
            ..self
        }
    }

    /// The state after `key` was released: its bit is set.
    pub open spec fn up(self, key: Key) -> JoypadView {
        JoypadView { data: self.data | key.spec_value(), ..self }
    }

    /// What a read of the register returns: the written value, with the
    /// buttons in the low nibble if bit 5 is clear, else with the arrows if
    /// bit 4 is clear.
    pub open spec fn read_register(self) -> u8 {
        if self.select & 0x20 == 0 {
            self.select | ((self.data >> 4) & 0xf)
        } else if self.select & 0x10 == 0 {
            self.select | (self.data & 0xf)
        } else {
            self.select
        }
    }

    /// What a read of `address` returns.
    pub open spec fn read(self, address: u16) -> Result<u8, GameboyError> {
        if address == IO_P1 {
            Ok(self.read_register())
        } else {
            Err(GameboyError::BadAddress(address))
        }
    }

    /// The state after a write of `value` to `address`, and what the write
    /// returns.
    pub open spec fn write(self, address: u16, value: u8) -> (
        JoypadView,
        Result<(), GameboyError>,
    ) {
        if address == IO_P1 {
            (JoypadView { select: value, ..self }, Ok(()))
        } else {
            (self, Err(GameboyError::BadAddress(address)))
        }
    }
}

/// The joypad.
pub struct Joypad {
    data: u8,
    select: u8,
    interrupt_flag: InterruptMask,
}

impl View for Joypad {
    type V = JoypadView;

    closed spec fn view(&self) -> JoypadView {
        JoypadView { data: self.data, select: self.select, interrupt_flag: self.interrupt_flag }
    }
}

impl Joypad {
    /// Creates the joypad with an empty register.
    pub fn new() -> (joypad: Joypad)
        ensures
            joypad@ == (JoypadView { data: 0, select: 0, interrupt_flag: 0 }),
    {
        Joypad { data: 0, select: 0, interrupt_flag: 0 }
    }

    /// Advances the joypad by `cycles` cycles: nothing in it depends on time.
    pub fn process(&mut self, cycles: usize)
        ensures
            final(self)@ == old(self)@,
    {
    }
}

impl Controller for Joypad {
    open spec fn pressed(pre: &Self, post: &Self, key: Key) -> bool {
        post@ == pre@.down(key)
    }

    open spec fn released(pre: &Self, post: &Self, key: Key) -> bool {
        post@ == pre@.up(key)
    }

    fn down(&mut self, key: Key) {
        self.data = self.data & !key.value();
        self.interrupt_flag = self.interrupt_flag | Interrupt::Joypad.value();
    }

    fn up(&mut self, key: Key) {
        self.data = self.data | key.value();
    }
}

impl InterruptSource for Joypad {
    open spec fn pending(&self) -> InterruptMask {
        self@.interrupt_flag
    }

    open spec fn cleared(pre: &Self, post: &Self) -> bool {
        post@ == (JoypadView { interrupt_flag: 0, ..pre@ })
    }

    fn interrupts(&self) -> (mask: InterruptMask) {
        self.interrupt_flag
    }

    fn clear(&mut self) {
        self.interrupt_flag = 0;
    }
}

impl Memory for Joypad {
    open spec fn valid(&self) -> bool {
        true
    }

    open spec fn read_spec(&self, address: u16) -> Result<u8, GameboyError> {
        self@.read(address)
    }

    open spec fn write_spec(
        pre: &Self,
        post: &Self,
        address: u16,
        value: u8,
        result: Result<(), GameboyError>,
    ) -> bool {
        (post@, result) == pre@.write(address, value)
    }

    fn write(&mut self, address: u16, value: u8) -> (result: Result<(), GameboyError>) {
        if address == IO_P1 {
            self.select = value;
            Ok(())
        } else {
            Err(GameboyError::BadAddress(address))
        }
    }

    fn read(&self, address: u16) -> (result: Result<u8, GameboyError>) {
        if address != IO_P1 {
            Err(GameboyError::BadAddress(address))
        } else if self.select & 0x20 == 0 {
            Ok(self.select | ((self.data >> 4) & 0xf))
        } else if self.select & 0x10 == 0 {
            Ok(self.select | (self.data & 0xf))
        } else {
            Ok(self.select)
        }
    }
}

/// A held key reads as held: after `key` is pressed its bit is clear, after
/// it is released its bit is set, and the bits of the other keys stay.
pub proof fn lemma_key_bits(v: JoypadView, key: Key, other: Key)
    ensures
        v.down(key).data & key.spec_value() == 0,
        v.up(key).data & key.spec_value() == key.spec_value(),
        other != key ==> v.down(key).data & other.spec_value() == v.data & other.spec_value(),
        other != key ==> v.up(key).data & other.spec_value() == v.data & other.spec_value(),
{
    let d = v.data;
    let k = key.spec_value();
    let o = other.spec_value();
    assert((d & !k) & k == 0 && (d | k) & k == k) by (bit_vector);
    if other != key {
        assert((k == 1 || k == 2 || k == 4 || k == 8 || k == 16 || k == 32 || k == 64 || k == 128)
            && (o == 1 || o == 2 || o == 4 || o == 8 || o == 16 || o == 32 || o == 64 || o == 128)
            && k != o ==> (d & !k) & o == d & o && (d | k) & o == d & o) by (bit_vector);
    }
}

} // verus!
