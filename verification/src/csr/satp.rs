//! Supervisor address translation and protection, as an object of its own.

use vstd::prelude::*;

use crate::csr::{field_spec, set_field_spec, BitBound, CsrBase, Mxlen, Read, Write};

verus! {

/// The address-translation schemes.
#[derive(Debug, Clone, Copy, PartialEq, Eq, Structural)]
pub enum Mode {
    /// No translation or protection.
    Bare,
    /// Page-based 39-bit virtual addressing.
    Sv39,
    /// Page-based 48-bit virtual addressing.
    Sv48,
    /// Reserved.
    /// (Sv57) Reserved for page-based 57-bit virtual addressing.
    /// (Sv64) Reserved for page-based 64-bit virtual addressing.
    Reserved,
}

/// The scheme a MODE field value encodes: 0 is bare, 8 Sv39 and 9 Sv48.
pub open spec fn mode_of(field: i64) -> Mode {
    if field == 0 {
        Mode::Bare
    } else if field == 8 {
        Mode::Sv39
    } else if field == 9 {
        Mode::Sv48
    } else {
        Mode::Reserved
    }
}

/// The supervisor address translation and protection register: MODE (bits 60 to 63),
/// ASID (bits 44 to 59) and PPN (bits 0 to 43).
pub struct Satp {
    value: Mxlen,
}

impl CsrBase for Satp {
    closed spec fn csr_value(&self) -> Mxlen {
        self.value
    }

    fn new(value: Mxlen) -> (s: Self) {
        Self { value }
    }

    fn reset(&mut self) {
        self.value = 0;
    }

    fn write_value(&mut self, value: Mxlen) {
        self.value = value;
    }

    fn read_value(&self) -> (r: Mxlen) {
        self.value
    }
}

impl Write for Satp {}

impl Read for Satp {}

impl Satp {
    /// Read the MODE field, which selects the current address-translation scheme.
    pub fn read_mode(&self) -> (r: Mode)
        ensures
            r == mode_of(field_spec(self.csr_value(), 60, 64)),
    {
        let mode = self.read_bits(BitBound::Included(60), BitBound::Unbounded);
        if mode == 0 {
            Mode::Bare
        } else if mode == 8 {
            Mode::Sv39
        } else if mode == 9 {
            Mode::Sv48
        } else {
            Mode::Reserved
        }
    }

    /// Write the MODE field, which selects the current address-translation scheme; the
    /// reserved scheme changes nothing.
    pub fn write_mode(&mut self, mode: Mode)
        ensures
            final(self).csr_value() == match mode {
                Mode::Bare => set_field_spec(old(self).csr_value(), 60, 64, 0),
                Mode::Sv39 => set_field_spec(old(self).csr_value(), 60, 64, 8),
                Mode::Sv48 => set_field_spec(old(self).csr_value(), 60, 64, 9),
                Mode::Reserved => old(self).csr_value(),
            },
    {
        match mode {
            Mode::Bare => self.write_bits(BitBound::Included(60), BitBound::Unbounded, 0),
            Mode::Sv39 => self.write_bits(BitBound::Included(60), BitBound::Unbounded, 8),
            Mode::Sv48 => self.write_bits(BitBound::Included(60), BitBound::Unbounded, 9),
            _ => {},
        }
    }

    /// Read the address space identifier (ASID), which facilitates address-translation
    /// fences on a per-address-space basis.
    pub fn read_asid(&self) -> (r: Mxlen)
        ensures
            r == field_spec(self.csr_value(), 44, 60),
    {
        self.read_bits(BitBound::Included(44), BitBound::Excluded(60))
    }

    /// Write the address space identifier (ASID).
    pub fn write_asid(&mut self, value: Mxlen)
        ensures
            final(self).csr_value() == set_field_spec(old(self).csr_value(), 44, 60, value),
    {
        self.write_bits(BitBound::Included(44), BitBound::Excluded(60), value)
    }

    /// Read the physical page number (PPN) of the root page table, i.e., its supervisor
    /// physical address divided by 4 KiB.
    pub fn read_ppn(&self) -> (r: Mxlen)
        ensures
            r == field_spec(self.csr_value(), 0, 44),
    {
        self.read_bits(BitBound::Unbounded, BitBound::Excluded(44))
    }

    /// Write the physical page number (PPN) of the root page table.
    pub fn write_ppn(&mut self, value: Mxlen)
        ensures
            final(self).csr_value() == set_field_spec(old(self).csr_value(), 0, 44, value),
    {
        self.write_bits(BitBound::Unbounded, BitBound::Excluded(44), value)
    }
}

} // verus!
