//! The supervisor status register, as an object of its own.

use vstd::prelude::*;

use crate::csr::{bit_set, with_bit, CsrBase, Mxlen, Read, Write};

verus! {

/// The supervisor status register.
pub struct Sstatus {
    value: Mxlen,
}

impl CsrBase for Sstatus {
    closed spec fn csr_value(&self) -> Mxlen {
        self.value
    }

    fn new(value: Mxlen) -> (s: Self) {
        Self { value }
    }

    fn reset(&mut self) {
        self.value = 0;
    }

    fn write_value(&mut self, value: Mxlen) {
        self.value = value;
    }

    fn read_value(&self) -> (r: Mxlen) {
        self.value
    }
}

impl Read for Sstatus {}

impl Write for Sstatus {}

impl Sstatus {
    /// Read a privious privilege mode for supervisor mode: set for supervisor, clear for user.
    pub fn read_spp(&self) -> (r: bool)
        ensures
            r == bit_set(self.csr_value(), 8),
    {
        self.read_bit(8)
    }

    /// Write a privious privilege mode for supervisor mode.
    pub fn write_spp(&mut self, mode: bool)
        ensures
            final(self).csr_value() == with_bit(old(self).csr_value(), 8, mode),
    {
        self.write_bit(8, mode)
    }

    /// Read a privious interrupt-enable bit for supervisor mode.
    pub fn read_spie(&self) -> (r: bool)
        ensures
            r == bit_set(self.csr_value(), 5),
    {
        self.read_bit(5)
    }

    /// Write a privious interrupt-enable bit for supervisor mode.
    pub fn write_spie(&mut self, value: bool)
        ensures
            final(self).csr_value() == with_bit(old(self).csr_value(), 5, value),
    {
        self.write_bit(5, value)
    }

    /// Read a privious interrupt-enable bit for user mode.
    pub fn read_upie(&self) -> (r: bool)
        ensures
            r == bit_set(self.csr_value(), 4),
    {
        self.read_bit(4)
    }

    /// Write a privious interrupt-enable bit for user mode.
    pub fn write_upie(&mut self, value: bool)
        ensures
            final(self).csr_value() == with_bit(old(self).csr_value(), 4, value),
    {
        self.write_bit(4, value)
    }

    /// Read a global interrupt-enable bit for supervisor mode.
    pub fn read_sie(&self) -> (r: bool)
        ensures
            r == bit_set(self.csr_value(), 1),
    {
        self.read_bit(1)
    }

    /// Write a global interrupt-enable bit for supervisor mode.
    pub fn write_sie(&mut self, value: bool)
        ensures
            final(self).csr_value() == with_bit(old(self).csr_value(), 1, value),
    {
        self.write_bit(1, value)
    }

    /// Read a global interrupt-enable bit for user mode.
    pub fn read_uie(&self) -> (r: bool)
        ensures
            r == bit_set(self.csr_value(), 0),
    {
        self.read_bit(0)
    }

    /// Write a global interrupt-enable bit for user mode.
    pub fn write_uie(&mut self, value: bool)
        ensures
            final(self).csr_value() == with_bit(old(self).csr_value(), 0, value),
    {
        self.write_bit(0, value)
    }
}

} // verus!
