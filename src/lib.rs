//! An instruction-level emulator of an 8080-class 8-bit processor.

pub mod flags;
pub mod alu;
pub mod isa;
pub mod cpu;
pub mod laws;
pub mod display;
pub mod loader;
