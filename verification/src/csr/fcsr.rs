//! The floating-point control and status register, as an object of its own.

use vstd::prelude::*;

use crate::csr::{bit_set, field_spec, with_bit, BitBound, CsrBase, Mxlen, Read, Write};

verus! {

/// The rounding modes.
#[derive(Debug, Clone, Copy, PartialEq, Eq, Structural)]
pub enum RoundingMode {
    /// Round to nearest, ties to even (0b000).
    Rne,
    /// Round towards zero (0b001).
    Rtz,
    /// Round down, towards -infinity (0b010).
    Rdn,
    /// Round up, towards +infinity (0b011).
    Rup,
    /// Round to nearest, ties to max magnitude (0b100).
    Rmm,
    /// In instruction's rm field, selects dynamic rounding mode; In rounding mode register,
    /// invalid (0b111).
    Dyn,
    /// The reserved encodings 0b101 and 0b110.
    Invalid,
}

/// The rounding mode a 3-bit frm field value encodes.
pub open spec fn rounding_mode_of(frm: i64) -> RoundingMode {
    if frm == 0b000 {
        RoundingMode::Rne
    } else if frm == 0b001 {
        RoundingMode::Rtz
    } else if frm == 0b010 {
        RoundingMode::Rdn
    } else if frm == 0b011 {
        RoundingMode::Rup
    } else if frm == 0b100 {
        RoundingMode::Rmm
    } else if frm == 0b111 {
        RoundingMode::Dyn
    } else {
        RoundingMode::Invalid
    }
}

/// The floating-point control and status register:
/// ```text
///  31       8 7                   5 4                           0
/// | Reserved | Rounding Mode (frm) | Accrued Exceptions: fflags |
///                                  |   NV | DZ | OF | UF | NX   |
///      24              3               1    1    1    1    1
/// ```
pub struct Fcsr {
    value: Mxlen,
}

impl CsrBase for Fcsr {
    closed spec fn csr_value(&self) -> Mxlen {
        self.value
    }

    fn new(value: Mxlen) -> (s: Self) {
        Self { value }
    }

    fn reset(&mut self) {
        self.value = 0;
    }

    fn write_value(&mut self, value: Mxlen) {
        self.value = value;
    }

    fn read_value(&self) -> (r: Mxlen) {
        self.value
    }
}

impl Read for Fcsr {}

impl Write for Fcsr {}

impl Fcsr {
    /// Clear the whole register.
    pub fn clear(&mut self)
        ensures
            final(self).csr_value() == 0,
    {
        self.value = 0;
    }

    /// Read the rounding mode field (bits 5 to 7).
    pub fn read_frm(&self) -> (r: RoundingMode)
        ensures
            r == rounding_mode_of(field_spec(self.csr_value(), 5, 8)),
    {
        let frm = self.read_bits(BitBound::Included(5), BitBound::Excluded(8));
        if frm == 0b000 {
            RoundingMode::Rne
        } else if frm == 0b001 {
            RoundingMode::Rtz
        } else if frm == 0b010 {
            RoundingMode::Rdn
        } else if frm == 0b011 {
            RoundingMode::Rup
        } else if frm == 0b100 {
            RoundingMode::Rmm
        } else if frm == 0b111 {
            RoundingMode::Dyn
        } else {
            RoundingMode::Invalid
        }
    }

    /// Read the invalid operation flag.
    pub fn read_nv(&self) -> (r: bool)
        ensures
            r == bit_set(self.csr_value(), 4),
    {
        self.read_bit(4)
    }

    /// Write the invalid operation flag.
    pub fn write_nv(&mut self, value: bool)
        ensures
            final(self).csr_value() == with_bit(old(self).csr_value(), 4, value),
    {
        self.write_bit(4, value)
    }

    /// Read the divide by zero flag.
    pub fn read_dz(&self) -> (r: bool)
        ensures
            r == bit_set(self.csr_value(), 3),
    {
        self.read_bit(3)
    }

    /// Write the divide by zero flag.
    pub fn write_dz(&mut self, value: bool)
        ensures
            final(self).csr_value() == with_bit(old(self).csr_value(), 3, value),
    {
        self.write_bit(3, value)
    }

    /// Read the overflow flag.
    pub fn read_of(&self) -> (r: bool)
        ensures
            r == bit_set(self.csr_value(), 2),
    {
        self.read_bit(2)
    }

    /// Write the overflow flag.
    pub fn write_of(&mut self, value: bool)
        ensures
            final(self).csr_value() == with_bit(old(self).csr_value(), 2, value),
    {
        self.write_bit(2, value)
    }

    /// Read the underflow flag.
    pub fn read_uf(&self) -> (r: bool)
        ensures
            r == bit_set(self.csr_value(), 1),
    {
        self.read_bit(1)
    }

    /// Write the underflow flag.
    pub fn write_uf(&mut self, value: bool)
        ensures
            final(self).csr_value() == with_bit(old(self).csr_value(), 1, value),
    {
        self.write_bit(1, value)
    }

    /// Read the inexact flag.
    pub fn read_nx(&self) -> (r: bool)
        ensures
            r == bit_set(self.csr_value(), 0),
    {
        self.read_bit(0)
    }

    /// Write the inexact flag.
    pub fn write_nx(&mut self, value: bool)
        ensures
            final(self).csr_value() == with_bit(old(self).csr_value(), 0, value),
    {
        self.write_bit(0, value)
    }
}

} // verus!
