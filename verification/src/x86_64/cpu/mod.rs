//! Descriptor tables, the trap entry path and the trap handlers.

pub mod descriptor;
pub mod exceptions;
pub mod gdt;
pub mod idt;
pub mod init;
pub mod interrupt;
pub mod reload;

pub use init::init;
