//! Supervisor trap-handler base address register, as an object of its own: a BASE address and a MODE.

use vstd::prelude::*;

use crate::csr::{field_spec, set_field_spec, BitBound, CsrBase, Mxlen, Read, Write};

verus! {

/// The trap vector modes.
#[derive(Debug, Clone, Copy, PartialEq, Eq, Structural)]
pub enum Mode {
    /// All exceptions set pc to BASE.
    Direct,
    /// Asynchronous interrupts set pc to BASE + 4 * cause.
    Vectored,
    /// Reserved.
    Reserved,
}

/// The mode a MODE field value encodes: 0 is direct, 1 vectored.
pub open spec fn mode_of(field: i64) -> Mode {
    if field == 0 {
        Mode::Direct
    } else if field == 1 {
        Mode::Vectored
    } else {
        Mode::Reserved
    }
}

/// The supervisor trap-handler base address register.
pub struct Stvec {
    value: Mxlen,
}

impl CsrBase for Stvec {
    closed spec fn csr_value(&self) -> Mxlen {
        self.value
    }

    fn new(value: Mxlen) -> (s: Self) {
        Self { value }
    }

    fn reset(&mut self) {
        self.value = 0;
    }

    fn write_value(&mut self, value: Mxlen) {
        self.value = value;
    }

    fn read_value(&self) -> (r: Mxlen) {
        self.value
    }
}

impl Read for Stvec {}

impl Write for Stvec {}

impl Stvec {
    /// Read the BASE field (bits 2 and up).
    pub fn read_base(&self) -> (r: Mxlen)
        ensures
            r == field_spec(self.csr_value(), 2, 64),
    {
        self.read_bits(BitBound::Included(2), BitBound::Unbounded)
    }

    /// Write the BASE field. The BASE field must always be aligned on a 4-byte boundary.
    pub fn write_base(&mut self, base: Mxlen)
        ensures
            final(self).csr_value() == set_field_spec(old(self).csr_value(), 2, 64, base),
    {
        self.write_bits(BitBound::Included(2), BitBound::Unbounded, base)
    }

    /// Read the MODE field (bits 0 and 1).
    pub fn read_mode(&self) -> (r: Mode)
        ensures
            r == mode_of(field_spec(self.csr_value(), 0, 2)),
    {
        let mode = self.read_bits(BitBound::Unbounded, BitBound::Excluded(2));
        if mode == 0 {
            Mode::Direct
        } else if mode == 1 {
            Mode::Vectored
        } else {
            Mode::Reserved
        }
    }

    /// Write the MODE field; the reserved mode changes nothing.
    pub fn write_mode(&mut self, mode: Mode)
        ensures
            final(self).csr_value() == match mode {
                Mode::Direct => set_field_spec(old(self).csr_value(), 0, 2, 0),
                Mode::Vectored => set_field_spec(old(self).csr_value(), 0, 2, 1),
                Mode::Reserved => old(self).csr_value(),
            },
    {
        match mode {
            Mode::Direct => self.write_bits(BitBound::Unbounded, BitBound::Excluded(2), 0),
            Mode::Vectored => self.write_bits(BitBound::Unbounded, BitBound::Excluded(2), 1),
            _ => {},
        }
    }
}

} // verus!
