//! Processor bring-up and trap handling for a small x86-64 kernel.
//!
//! The crate computes everything the boot code has to hand to the processor:
//! the bytes of the segment table and of the interrupt table, the layout of
//! the state saved around a trap, what a trap handler reports, and the pages
//! given out before a real memory manager exists. The few instruction
//! sequences on which all of this rests are modelled and proved to do what
//! they are there for. Privileged instructions are issued by the caller;
//! nothing here touches the hardware.

pub mod encoding;
pub mod log;
pub mod x86_64;
