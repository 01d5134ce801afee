//! The arithmetic and logic unit.

pub mod alu16;
pub mod alu8;
