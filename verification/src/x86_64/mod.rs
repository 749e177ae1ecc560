//! Support for 64-bit x86 machines.

pub mod cpu;
pub mod io;
pub mod mm;
pub mod serial;
