//! The register file.

use vstd::prelude::*;
use crate::config::{Config, HardwareModel};

verus! {

/// The number of 16-bit slots of the register file.
pub const NUM_REGS: usize = 6;

/// The names by which the instructions reach the register file. The first
/// four slots are reached whole or by halves.
#[derive(PartialEq, Eq, Structural, Clone, Copy, Debug)]
pub enum Register {
    /// The accumulator: the high half of `AF`.
    A,
    /// The flags: the low half of `AF`.
    F,
    /// The accumulator and the flags.
    AF,
    /// The high half of `BC`.
    B,
    /// The low half of `BC`.
    C,
    /// A general pair.
    BC,
    /// The high half of `DE`.
    D,
    /// The low half of `DE`.
    E,
    /// A general pair.
    DE,
    /// The high half of `HL`.
    H,
    /// The low half of `HL`.
    L,
    /// The pair that addresses memory.
    HL,
    /// The stack pointer.
    SP,
    /// The program counter.
    PC,
}

/// The part of a slot that a register name stands for.
#[derive(PartialEq, Eq, Structural, Clone, Copy, Debug)]
pub enum RegisterType {
    /// The whole slot.
    Wide,
    /// The low byte.
    Low8,
    /// The high byte.
    High8,
}

/// The flags of the `F` register.
#[derive(PartialEq, Eq, Structural, Clone, Copy, Debug)]
pub enum Flag {
    /// The carry flag, bit 4.
    C,
    /// The half-carry flag, bit 5.
    H,
    /// The subtract flag, bit 6.
    N,
    /// The zero flag, bit 7.
    Z,
}

/// The part of its slot that `reg` stands for.
pub open spec fn spec_get_type(reg: Register) -> RegisterType {
    match reg {
        Register::A | Register::B | Register::D | Register::H => RegisterType::High8,
        Register::F | Register::C | Register::E | Register::L => RegisterType::Low8,
        Register::AF | Register::BC | Register::DE | Register::HL | Register::SP
        | Register::PC => RegisterType::Wide,
    }
}

/// The slot of `reg` in the register file.
pub open spec fn spec_get_index(reg: Register) -> usize {
    match reg {
        Register::A | Register::F | Register::AF => 0,
        Register::B | Register::C | Register::BC => 1,
        Register::D | Register::E | Register::DE => 2,
        Register::H | Register::L | Register::HL => 3,
        Register::SP => 4,
        Register::PC => 5,
    }
}

/// Returns the part of its slot that `reg` stands for.
pub fn get_type(reg: &Register) -> (kind: RegisterType)
    ensures
        kind == spec_get_type(*reg),
{
    match reg {
        Register::A | Register::B | Register::D | Register::H => RegisterType::High8,
        Register::F | Register::C | Register::E | Register::L => RegisterType::Low8,
        Register::AF | Register::BC | Register::DE | Register::HL | Register::SP
        | Register::PC => RegisterType::Wide,
    }
}

/// Returns the slot of `reg` in the register file.
pub fn get_index(reg: &Register) -> (index: usize)
    ensures
        index == spec_get_index(*reg),
        index < NUM_REGS,
{
    match reg {
        Register::A | Register::F | Register::AF => 0,
        Register::B | Register::C | Register::BC => 1,
        Register::D | Register::E | Register::DE => 2,
        Register::H | Register::L | Register::HL => 3,
        Register::SP => 4,
        Register::PC => 5,
    }
}

/// Whether `reg` is one byte wide.
pub open spec fn is_byte(reg: Register) -> bool {
    spec_get_type(reg) != RegisterType::Wide
}

/// The four flags.
#[derive(PartialEq, Eq, Structural, Clone, Copy, Debug)]
pub struct Flags {
    /// The zero flag.
    pub z: bool,
    /// The subtract flag.
    pub n: bool,
    /// The half-carry flag.
    pub h: bool,
    /// The carry flag.
    pub c: bool,
}

impl Flags {
    /// The flags that the byte `f` holds in its bits 7 to 4.
    pub open spec fn spec_from_byte(f: u8) -> Flags {
        Flags { z: f / 128 == 1, n: f % 128 / 64 == 1, h: f % 64 / 32 == 1, c: f % 32 / 16 == 1 }
    }

    /// The byte that holds the flags in its bits 7 to 4, and zeros below.
    pub open spec fn spec_byte(&self) -> u8 {
        ((if self.z {
            128int
        } else {
            0int
        }) + (if self.n {
            64int
        } else {
            0int
        }) + (if self.h {
            32int
        } else {
            0int
        }) + (if self.c {
            16int
        } else {
            0int
        })) as u8
    }

    /// The value of `flag`.
    pub open spec fn spec_get(&self, flag: Flag) -> bool {
        match flag {
            Flag::Z => self.z,
            Flag::N => self.n,
            Flag::H => self.h,
            Flag::C => self.c,
        }
    }

    /// The flags with `flag` set to `value`.
    pub open spec fn spec_with(self, flag: Flag, value: bool) -> Flags {
        match flag {
            Flag::Z => Flags { z: value, ..self },
            Flag::N => Flags { n: value, ..self },
            Flag::H => Flags { h: value, ..self },
            Flag::C => Flags { c: value, ..self },
        }
    }

    /// Reads the flags from bits 7 to 4 of `f`.
    #[verifier::when_used_as_spec(spec_from_byte)]
    pub fn from_byte(f: u8) -> (flags: Flags)
        ensures
            flags == Flags::spec_from_byte(f),
    {
        Flags { z: f / 128 == 1, n: f % 128 / 64 == 1, h: f % 64 / 32 == 1, c: f % 32 / 16 == 1 }
    }

    /// Returns the byte that holds the flags in its bits 7 to 4.
    #[verifier::when_used_as_spec(spec_byte)]
    pub fn byte(&self) -> (f: u8)
        ensures
            f == self.spec_byte(),
            f % 16 == 0,
    {
        let z: u8 = if self.z {
            128
        } else {
            0
        };
        let n: u8 = if self.n {
            64
        } else {
            0
        };
        let h: u8 = if self.h {
            32
        } else {
            0
        };
        let c: u8 = if self.c {
            16
        } else {
            0
        };
        z + n + h + c
    }

    /// Returns the value of `flag`.
    #[verifier::when_used_as_spec(spec_get)]
    pub fn get(&self, flag: Flag) -> (value: bool)
        ensures
            value == self.spec_get(flag),
    {
        match flag {
            Flag::Z => self.z,
            Flag::N => self.n,
            Flag::H => self.h,
            Flag::C => self.c,
        }
    }

    /// Returns the flags with `flag` set to `value`.
    #[verifier::when_used_as_spec(spec_with)]
    pub fn with(self, flag: Flag, value: bool) -> (flags: Flags)
        ensures
            flags == self.spec_with(flag, value),
    {
        match flag {
            Flag::Z => Flags { z: value, ..self },
            Flag::N => Flags { n: value, ..self },
            Flag::H => Flags { h: value, ..self },
            Flag::C => Flags { c: value, ..self },
        }
    }
}

/// The register file: six 16-bit slots and the interrupt master enable.
///
/// The low nibble of the `F` register does not exist: every write to `F` or
/// `AF` clears it.
#[derive(Clone, Copy, Debug, PartialEq, Eq, Structural)]
pub struct CpuState {
    /// The accumulator and the flags.
    pub af: u16,
    /// The pair `BC`.
    pub bc: u16,
    /// The pair `DE`.
    pub de: u16,
    /// The pair `HL`.
    pub hl: u16,
    /// The stack pointer.
    pub sp: u16,
    /// The program counter.
    pub pc: u16,
    /// The interrupt master enable.
    pub ime: bool,
    /// The model, which decides the accumulator's value at reset.
    pub model: HardwareModel,
}

/// The accumulator at reset.
pub open spec fn boot_accumulator(model: HardwareModel) -> u8 {
    match model {
        HardwareModel::GB | HardwareModel::SGB => 0x01,
        HardwareModel::GBC => 0x11,
        HardwareModel::GBP => 0xFF,
    }
}

impl CpuState {
    /// The register file at reset.
    pub open spec fn boot(model: HardwareModel) -> CpuState {
        CpuState {
            af: (boot_accumulator(model) * 256 + 0xB0) as u16,
            bc: 0x0013,
            de: 0x00D8,
            hl: 0x014D,
            sp: 0xFFFE,
            pc: 0x0100,
            ime: false,
            model,
        }
    }

    /// The invariant of the register file: the low nibble of `F` is zero.
    pub open spec fn wf(self) -> bool {
        self.af % 16 == 0
    }

    /// The value of slot `index`.
    pub open spec fn slot(self, index: usize) -> u16 {
        if index == 0 {
            self.af
        } else if index == 1 {
            self.bc
        } else if index == 2 {
            self.de
        } else if index == 3 {
            self.hl
        } else if index == 4 {
            self.sp
        } else {
            self.pc
        }
    }

    /// The register file with `value` in slot `index`.
    pub open spec fn with_slot(self, index: usize, value: u16) -> CpuState {
        if index == 0 {
            CpuState { af: value, ..self }
        } else if index == 1 {
            CpuState { bc: value, ..self }
        } else if index == 2 {
            CpuState { de: value, ..self }
        } else if index == 3 {
            CpuState { hl: value, ..self }
        } else if index == 4 {
            CpuState { sp: value, ..self }
        } else {
            CpuState { pc: value, ..self }
        }
    }

    /// The value of `reg`: its slot, or the half of the slot that it stands
    /// for.
    pub open spec fn spec_get(&self, reg: Register) -> u16 {
        let slot = self.slot(spec_get_index(reg));
        match spec_get_type(reg) {
            RegisterType::Wide => slot,
            RegisterType::Low8 => slot % 256,
            RegisterType::High8 => slot / 256,
        }
    }

    /// The register file after `value` was written to `reg`. A write to a
    /// half keeps the other half and drops the high byte of `value`; a write
    /// to `F` or `AF` clears the low nibble.
    pub open spec fn spec_set(self, reg: Register, value: u16) -> CpuState {
        let slot = self.slot(spec_get_index(reg));
        let written = match spec_get_type(reg) {
            RegisterType::Wide => value as int,
            RegisterType::Low8 => slot / 256 * 256 + value % 256,
            RegisterType::High8 => value % 256 * 256 + slot % 256,
        };
        let stored = if spec_get_index(reg) == 0 {
            written / 16 * 16
        } else {
            written
        };
        self.with_slot(spec_get_index(reg), stored as u16)
    }

    /// The four flags.
    pub open spec fn spec_flags(&self) -> Flags {
        Flags::spec_from_byte((self.af % 256) as u8)
    }

    /// The register file with the four flags replaced.
    pub open spec fn with_flags(self, flags: Flags) -> CpuState {
        CpuState { af: (self.af / 256 * 256 + flags.spec_byte()) as u16, ..self }
    }

    /// The value of `flag`.
    pub open spec fn spec_flag(&self, flag: Flag) -> bool {
        self.spec_flags().spec_get(flag)
    }

    /// The register file with `flag` set to `value`.
    pub open spec fn spec_set_flag(self, flag: Flag, value: bool) -> CpuState {
        self.with_flags(self.spec_flags().spec_with(flag, value))
    }

    /// Creates the register file in its state at reset.
    pub fn new(config: &Config) -> (state: CpuState)
        ensures
            state == CpuState::boot(config.model),
            state.wf(),
    {
        let mut state = CpuState {
            af: 0,
            bc: 0,
            de: 0,
            hl: 0,
            sp: 0,
            pc: 0,
            ime: false,
            model: config.model,
        };
        state.reset();
        state
    }

    /// Puts the registers back to their state at reset and disables the
    /// interrupts.
    pub fn reset(&mut self)
        ensures
            *final(self) == CpuState::boot(old(self).model),
            final(self).wf(),
    {
        self.ime = false;
        self.set(Register::F, 0xB0);
        self.set(Register::BC, 0x0013);
        self.set(Register::DE, 0x00D8);
        self.set(Register::HL, 0x014D);
        self.set(Register::SP, 0xFFFE);
        self.set(Register::PC, 0x0100);
        match self.model {
            HardwareModel::GB | HardwareModel::SGB => {
                self.set(Register::A, 0x01);
            },
            HardwareModel::GBC => {
                self.set(Register::A, 0x11);
            },
            HardwareModel::GBP => {
                self.set(Register::A, 0xFF);
            },
        }
    }

    /// Writes `value` to `reg`.
    pub fn set(&mut self, reg: Register, value: u16)
        ensures
            *final(self) == old(self).spec_set(reg, value),
            spec_get_index(reg) == 0 || old(self).wf() ==> final(self).wf(),
    {
        let index = get_index(&reg);
        let slot: u16 = if index == 0 {
            self.af
        } else if index == 1 {
            self.bc
        } else if index == 2 {
            self.de
        } else if index == 3 {
            self.hl
        } else if index == 4 {
            self.sp
        } else {
            self.pc
        };
        let written: u16 = match get_type(&reg) {
            RegisterType::Wide => value,
            RegisterType::Low8 => slot / 256 * 256 + value % 256,
            RegisterType::High8 => value % 256 * 256 + slot % 256,
        };
        if index == 0 {
            self.af = written / 16 * 16;
        } else if index == 1 {
            self.bc = written;
        } else if index == 2 {
            self.de = written;
        } else if index == 3 {
            self.hl = written;
        } else if index == 4 {
            self.sp = written;
        } else {
            self.pc = written;
        }
    }

    /// Reads `reg`.
    #[verifier::when_used_as_spec(spec_get)]
    pub fn get(&self, reg: Register) -> (value: u16)
        ensures
            value == self.spec_get(reg),
            is_byte(reg) ==> value < 256,
    {
        let index = get_index(&reg);
        let slot: u16 = if index == 0 {
            self.af
        } else if index == 1 {
            self.bc
        } else if index == 2 {
            self.de
        } else if index == 3 {
            self.hl
        } else if index == 4 {
            self.sp
        } else {
            self.pc
        };
        match get_type(&reg) {
            RegisterType::Wide => slot,
            RegisterType::Low8 => slot % 256,
            RegisterType::High8 => slot / 256,
        }
    }

    /// Reads the byte register `reg`.
    pub fn get8(&self, reg: Register) -> (value: u8)
        requires
            is_byte(reg),
        ensures
            value == self.spec_get(reg),
    {
        self.get(reg) as u8
    }

    /// Returns the four flags.
    #[verifier::when_used_as_spec(spec_flags)]
    pub fn flags(&self) -> (flags: Flags)
        ensures
            flags == self.spec_flags(),
    {
        Flags::from_byte((self.af % 256) as u8)
    }

    /// Replaces the four flags.
    pub fn set_flags(&mut self, flags: Flags)
        ensures
            *final(self) == old(self).with_flags(flags),
            final(self).spec_flags() == flags,
            final(self).wf(),
    {
        let byte = flags.byte();
        proof {
            lemma_flags_byte(flags);
            let high = self.af / 256 * 256;
            assert((high + byte) % 256 == byte);
            assert((high + byte) % 16 == 0);
        }
        self.af = self.af / 256 * 256 + byte as u16;
    }

    /// Returns the value of `flag`.
    #[verifier::when_used_as_spec(spec_flag)]
    pub fn get_flag(&self, flag: Flag) -> (value: bool)
        ensures
            value == self.spec_flag(flag),
    {
        self.flags().get(flag)
    }

    /// Returns the value of `flag`.
    #[verifier::when_used_as_spec(spec_flag)]
    pub fn flag(&self, flag: Flag) -> (value: bool)
        ensures
            value == self.spec_flag(flag),
    {
        self.flags().get(flag)
    }

    /// Sets `flag` to `value`.
    pub fn set_flag(&mut self, flag: Flag, value: bool)
        ensures
            *final(self) == old(self).spec_set_flag(flag, value),
            final(self).wf(),
    {
        let flags = self.flags().with(flag, value);
        self.set_flags(flags);
    }

    /// Tells whether the interrupts are enabled.
    pub fn ime(&self) -> (enabled: bool)
        ensures
            enabled == self.ime,
    {
        self.ime
    }

    /// Enables or disables the interrupts.
    pub fn set_ime(&mut self, enabled: bool)
        ensures
            *final(self) == (CpuState { ime: enabled, ..*old(self) }),
    {
        self.ime = enabled;
    }
}

/// A register gives back what was written to it. The flags register is the
/// exception: the low nibble of what is written to `F` or `AF` is dropped,
/// so the law holds there of the values whose low nibble is zero.
pub proof fn lemma_set_get(state: CpuState, reg: Register, value: u16)
    requires
        is_byte(reg) ==> value < 256,
        reg == Register::F || reg == Register::AF ==> value % 16 == 0,
    ensures
        state.spec_set(reg, value).spec_get(reg) == value,
{
    let slot = state.slot(spec_get_index(reg));
    let index = spec_get_index(reg);
    match spec_get_type(reg) {
        RegisterType::Wide => {},
        RegisterType::Low8 => {
            let written = slot / 256 * 256 + value % 256;
            assert(written % 256 == value);
            if index == 0 {
                assert(written / 16 * 16 == written);
            }
        },
        RegisterType::High8 => {
            let written = value % 256 * 256 + slot % 256;
            assert(written / 256 == value);
            if index == 0 {
                assert((written / 16 * 16) / 256 == value);
            }
        },
    }
}

/// The halves of a pair give back the halves of what was written to the
/// pair; of the flags, the high nibble.
pub proof fn lemma_set_pair_get_halves(state: CpuState, value: u16)
    ensures
        state.spec_set(Register::BC, value).spec_get(Register::B) == value / 256,
        state.spec_set(Register::BC, value).spec_get(Register::C) == value % 256,
        state.spec_set(Register::DE, value).spec_get(Register::D) == value / 256,
        state.spec_set(Register::DE, value).spec_get(Register::E) == value % 256,
        state.spec_set(Register::HL, value).spec_get(Register::H) == value / 256,
        state.spec_set(Register::HL, value).spec_get(Register::L) == value % 256,
        state.spec_set(Register::AF, value).spec_get(Register::A) == value / 256,
        state.spec_set(Register::AF, value).spec_get(Register::F) == value % 256 / 16 * 16,
{
    let stored = (value / 16 * 16) as u16;
    assert(stored / 256 == value / 256);
    assert(stored % 256 == value % 256 / 16 * 16);
}

/// A write to one half of a pair keeps the other half, and a write to a
/// register keeps every other slot.
pub proof fn lemma_set_frame(state: CpuState, reg: Register, value: u16, other: Register)
    requires
        state.wf(),
        other != reg,
        !(spec_get_index(other) == spec_get_index(reg) && (spec_get_type(other)
            == RegisterType::Wide || spec_get_type(reg) == RegisterType::Wide)),
    ensures
        state.spec_set(reg, value).spec_get(other) == state.spec_get(other),
        state.spec_set(reg, value).wf(),
{
}

/// The byte of four flags holds the four flags, and nothing below them.
pub proof fn lemma_flags_byte(flags: Flags)
    ensures
        Flags::spec_from_byte(flags.spec_byte()) == flags,
        flags.spec_byte() % 16 == 0,
{
    let z = if flags.z {
        128int
    } else {
        0int
    };
    let n = if flags.n {
        64int
    } else {
        0int
    };
    let h = if flags.h {
        32int
    } else {
        0int
    };
    let c = if flags.c {
        16int
    } else {
        0int
    };
    let f = z + n + h + c;
    assert(flags.spec_byte() == f);
    assert(f / 128 == 1 <==> flags.z);
    assert(f % 128 == n + h + c);
    assert(f % 128 / 64 == 1 <==> flags.n);
    assert(f % 64 == h + c);
    assert(f % 64 / 32 == 1 <==> flags.h);
    assert(f % 32 == c);
    assert(f % 32 / 16 == 1 <==> flags.c);
}

/// A byte whose low nibble is zero is the byte of the flags it holds.
pub proof fn lemma_byte_flags(f: u8)
    requires
        f % 16 == 0,
    ensures
        Flags::spec_from_byte(f).spec_byte() == f,
{
    let z = if f / 128 == 1 {
        128int
    } else {
        0int
    };
    let n = if f % 128 / 64 == 1 {
        64int
    } else {
        0int
    };
    let h = if f % 64 / 32 == 1 {
        32int
    } else {
        0int
    };
    let c = if f % 32 / 16 == 1 {
        16int
    } else {
        0int
    };
    assert(f == (f / 128) * 128 + f % 128);
    assert(f % 128 == (f % 128 / 64) * 64 + f % 64);
    assert(f % 64 == (f % 64 / 32) * 32 + f % 32);
    assert(f % 32 == (f % 32 / 16) * 16 + f % 16);
    assert(f == z + n + h + c);
}

/// The flags are the four high bits of `F`: the flags that are written are
/// the flags that are read, and writing them is writing their byte to `F`.
pub proof fn lemma_flags(state: CpuState, flags: Flags)
    ensures
        state.with_flags(flags).spec_flags() == flags,
        state.with_flags(flags) == state.spec_set(Register::F, flags.spec_byte() as u16),
        state.with_flags(flags).spec_get(Register::F) == flags.spec_byte(),
        state.with_flags(flags).spec_get(Register::A) == state.spec_get(Register::A),
        state.with_flags(flags).wf(),
        state.wf() ==> state.with_flags(state.spec_flags()) == state,
{
    lemma_flags_byte(flags);
    let byte = flags.spec_byte() as int;
    let high = state.af / 256 * 256;
    assert((high + byte) % 256 == byte);
    assert((high + byte) / 256 == state.af / 256);
    assert((high + byte) / 16 * 16 == high + byte);
    if state.wf() {
        lemma_byte_flags((state.af % 256) as u8);
    }
}

/// A flag that is set reads as set, and the other flags stay.
pub proof fn lemma_set_flag(state: CpuState, flag: Flag, value: bool, other: Flag)
    ensures
        state.spec_set_flag(flag, value).spec_flag(flag) == value,
        other != flag ==> state.spec_set_flag(flag, value).spec_flag(other) == state.spec_flag(
            other,
        ),
{
    lemma_flags(state, state.spec_flags().spec_with(flag, value));
}

} // verus!
