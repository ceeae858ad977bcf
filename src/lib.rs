//! A CHIP-8 instruction core: memory map, decoder, display and CPU, each
//! stated against a mathematical model and verified with Verus.
pub mod chip8;
pub mod cpu;
pub mod debug;
pub mod disasm;
pub mod display;
pub mod instruction;
pub mod mem;
