//! Core of an emulator for a classic 8-bit handheld console: the register
//! file, the opcode table, the memory interconnect, the execution engine and
//! the video timing state machine.

pub mod cpu;
pub mod mem;
pub mod sys;
pub mod vid;
