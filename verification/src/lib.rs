//! Emulation of an 8-bit handheld console: its Z80-like processor, the memory
//! bus and the peripherals that share the processor's clock.
//!
//! Every operation is stated over a mathematical model of the machine: each
//! stateful component has a view made of integers and sequences, and each
//! operation says how that view changes.

use vstd::prelude::*;

pub mod bus;
pub mod config;
pub mod cpu;
pub mod emulator;

verus! {

/// The errors that the emulation core reports to its driver.
#[derive(Debug, Clone, Copy)]
pub enum GameboyError {
    /// The requested feature is not emulated.
    NotImplemented,
    /// The cartridge rejected an operation.
    Cartridge(&'static str),
    /// A memory-mapped access could not be served.
    Io(&'static str),
    /// The address is not one the addressed component answers to.
    BadAddress(u16),
    /// The byte does not decode to an instruction.
    BadOpcode(u8),
    /// The value is not accepted by the register it was written to.
    BadValue(u8),
}

} // verus!
