//! The memory-mapped devices.
pub mod dram;
pub mod plic;
pub mod rom;
pub mod uart;
