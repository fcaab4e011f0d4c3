//! A verified interpreter core for the CHIP-8 virtual machine: 4 KiB of
//! memory, sixteen 8-bit registers, a 16-entry call stack, two countdown
//! timers, a 64x32 monochrome framebuffer and a 16-key pad.
//!
//! `isa` holds the mathematical model of the machine and the meaning of every
//! instruction; `emu` holds the executable interpreter, proved against that
//! model; `laws` holds proofs of the properties the instruction set promises.

pub mod emu;
pub mod isa;
pub mod laws;
