//! Core of an 8-bit retro-console CPU: register file, bounds-checked memory,
//! opcode decoder and executor, and the fetch-decode-execute step loop.

pub mod cpu;
pub mod errors;
pub mod instructions;
pub mod memory;
pub mod registers;
