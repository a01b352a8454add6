//! The parts of the machine: registers, memory management, bus, devices and
//! the trap unit.
pub mod csr;
pub mod devices;
pub mod mmu;
pub mod registers;
pub mod system_bus;
pub mod trap;
