//! A functional emulator for a single 64-bit RISC-V hart: integer, multiply/divide,
//! atomic and Zicsr instructions, three privilege levels, Sv39 address translation,
//! trap delivery and a small set of memory-mapped devices.
//!
//! Every executable function carries a contract over a mathematical model of the
//! machine state; the models are the `*View` types and the `spec` functions beside
//! the code they describe.
pub mod components;
pub mod cpu;
pub mod instructions;
pub mod util;
