//! The supervisor trap cause register, as an object of its own.

use vstd::prelude::*;

use crate::csr::{bit_set, field_spec, set_field_spec, with_bit, BitBound, CsrBase, Mxlen, Read, Write, MXLEN};

verus! {

/// The supervisor trap cause register: the interrupt bit (63) and the exception code.
pub struct Scause {
    value: Mxlen,
}

impl CsrBase for Scause {
    closed spec fn csr_value(&self) -> Mxlen {
        self.value
    }

    fn new(value: Mxlen) -> (s: Self) {
        Self { value }
    }

    fn reset(&mut self) {
        self.value = 0;
    }

    fn write_value(&mut self, value: Mxlen) {
        self.value = value;
    }

    fn read_value(&self) -> (r: Mxlen) {
        self.value
    }
}

impl Read for Scause {}

impl Write for Scause {}

impl Scause {
    /// Read the interrupt bit: the trap was caused by an interrupt.
    pub fn read_interrupt(&self) -> (r: bool)
        ensures
            r == bit_set(self.csr_value(), 63),
    {
        self.read_bit(MXLEN - 1)
    }

    /// Write the interrupt bit.
    pub fn write_interrupt(&mut self, value: bool)
        ensures
            final(self).csr_value() == with_bit(old(self).csr_value(), 63, value),
    {
        self.write_bit(MXLEN - 1, value)
    }

    /// Read the exception code: the bits below the interrupt bit.
    pub fn read_exception_code(&self) -> (r: Mxlen)
        ensures
            r == field_spec(self.csr_value(), 0, 63),
    {
        self.read_bits(BitBound::Unbounded, BitBound::Excluded(63))
    }

    /// Write the exception code.
    pub fn write_exception_code(&mut self, value: Mxlen)
        ensures
            final(self).csr_value() == set_field_spec(old(self).csr_value(), 0, 63, value),
    {
        self.write_bits(BitBound::Unbounded, BitBound::Excluded(63), value)
    }
}

} // verus!
