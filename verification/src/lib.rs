//! A RISC-V 64-bit (RV64GC) emulator library: the hart, its control and status registers, the
//! system bus and the memory-mapped peripheral devices of the QEMU `virt` machine.

pub mod bus;
pub mod cpu;
pub mod csr;
pub mod devices;
pub mod dram;
pub mod elf;
pub mod emulator;
pub mod exception;
pub mod interrupt;
pub mod le;
pub mod memory;
pub mod mmu;
pub mod rom;
