//! The mmu module contains the functions to translate a virtual memory to a physical memory.

use vstd::prelude::*;

use crate::csr::satp;
use crate::exception::Exception;

verus! {

/// Translate a virtual address to a physical address for the paged virtual-memory system. The
/// implemented schemes map every address to itself; a reserved scheme raises an instruction
/// page fault for the address.
pub fn translate(address: usize, mode: satp::Mode) -> (r: Result<usize, Exception>)
    ensures
        r == (match mode {
            satp::Mode::Reserved => Err(Exception::InstructionPageFault(address as u64)),
            _ => Ok(address),
        }),
{
    match mode {
        satp::Mode::Bare => Ok(address),
        satp::Mode::Sv39 => Ok(address),
        satp::Mode::Sv48 => Ok(address),
        _ => Err(Exception::InstructionPageFault(address as u64)),
    }
}

} // verus!
