//! Core of a CHIP-8 virtual machine: a 35-opcode decoder, a 4096-byte
//! memory, a register file with a bounded call stack, keypad and display
//! adapters, and the fetch/decode/execute engine that ties them together.

pub mod cpu;
pub mod display;
pub mod emu;
pub mod keypad;
pub mod mem;
pub mod oper;
pub mod text;
