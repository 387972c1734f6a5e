//! The ISA register, as an object of its own: the base ISA width (MXL) and the extensions.

use vstd::prelude::*;

use crate::csr::{field_spec, set_field_spec, BitBound, CsrBase, Mxlen, Read, Write};

verus! {

/// Encoding of MXL field in `misa`: 1, 2 and 3.
#[derive(Debug, Clone, Copy, PartialEq, Eq, Structural)]
pub enum Mxl {
    Xlen32,
    Xlen64,
    Xlen128,
}

/// The base ISA width an MXL field value encodes.
pub open spec fn mxl_of(field: i64) -> Mxl {
    if field == 1 {
        Mxl::Xlen32
    } else if field == 2 {
        Mxl::Xlen64
    } else {
        Mxl::Xlen128
    }
}

/// Encoding of extensions field in `misa`: each extension has the bit of its letter.
#[derive(Debug, Clone, Copy, PartialEq, Eq, Structural)]
pub enum Extensions {
    /// Atomic extension.
    BitA,
    /// Tentatively reserved for Bit-Manipulation extension.
    BitB,
    /// Compressed extension.
    BitC,
    /// Double-precision floating-point extension.
    BitD,
    /// RV32E base ISA.
    BitE,
    /// Single-precision floating-point extension.
    BitF,
    /// Additional standard extensions present.
    BitG,
    /// Hypervisor extension.
    BitH,
    /// RV32I/64I/128I base ISA.
    BitI,
    /// Tentatively reserved for Dynamically Translated Languages extension.
    BitJ,
    /// Reserved.
    BitK,
    /// Tentatively reserved for Decimal Floating-Point extension.
    BitL,
    /// Integer Multiply/Divide extension.
    BitM,
    /// User-level interrupts supported.
    BitN,
    /// Reserved.
    BitO,
    /// Tentatively reserved for Packed-SIMD extension.
    BitP,
    /// Quad-precision floating-point extension.
    BitQ,
    /// Reserved.
    BitR,
    /// Supervisor mode implemented.
    BitS,
    /// Tentatively reserved for Transactional Memory extension.
    BitT,
    /// User mode implemented.
    BitU,
    /// Tentatively reserved for Vector extension.
    BitV,
    /// Reserved.
    BitW,
    /// Non-standard extensions present.
    BitX,
    /// Reserved.
    BitY,
    /// Reserved.
    BitZ,
}

impl Extensions {
    /// The bit of the extension in the extensions field: its letter's position in the
    /// alphabet.
    pub open spec fn bit_spec(self) -> i64 {
        match self {
            Extensions::BitA => 0,
            Extensions::BitB => 1,
            Extensions::BitC => 2,
            Extensions::BitD => 3,
            Extensions::BitE => 4,
            Extensions::BitF => 5,
            Extensions::BitG => 6,
            Extensions::BitH => 7,
            Extensions::BitI => 8,
            Extensions::BitJ => 9,
            Extensions::BitK => 10,
            Extensions::BitL => 11,
            Extensions::BitM => 12,
            Extensions::BitN => 13,
            Extensions::BitO => 14,
            Extensions::BitP => 15,
            Extensions::BitQ => 16,
            Extensions::BitR => 17,
            Extensions::BitS => 18,
            Extensions::BitT => 19,
            Extensions::BitU => 20,
            Extensions::BitV => 21,
            Extensions::BitW => 22,
            Extensions::BitX => 23,
            Extensions::BitY => 24,
            Extensions::BitZ => 25,
        }
    }

    /// The bit of the extension in the extensions field.
    pub fn bit(&self) -> (r: i64)
        ensures
            r == self.bit_spec(),
    {
        match self {
            Extensions::BitA => 0,
            Extensions::BitB => 1,
            Extensions::BitC => 2,
            Extensions::BitD => 3,
            Extensions::BitE => 4,
            Extensions::BitF => 5,
            Extensions::BitG => 6,
            Extensions::BitH => 7,
            Extensions::BitI => 8,
            Extensions::BitJ => 9,
            Extensions::BitK => 10,
            Extensions::BitL => 11,
            Extensions::BitM => 12,
            Extensions::BitN => 13,
            Extensions::BitO => 14,
            Extensions::BitP => 15,
            Extensions::BitQ => 16,
            Extensions::BitR => 17,
            Extensions::BitS => 18,
            Extensions::BitT => 19,
            Extensions::BitU => 20,
            Extensions::BitV => 21,
            Extensions::BitW => 22,
            Extensions::BitX => 23,
            Extensions::BitY => 24,
            Extensions::BitZ => 25,
        }
    }
}

/// The extensions a hart of this emulator implements: A, D, F, I, M, S and U.
pub open spec fn default_extensions() -> i64 {
    (1i64 << 0i64) | (1i64 << 3i64) | (1i64 << 5i64) | (1i64 << 8i64) | (1i64 << 12i64) | (1i64
        << 18i64) | (1i64 << 20i64)
}

/// The ISA register: MXL (bits 62 and 63) and the extensions (bits 0 to 25).
pub struct Misa {
    value: Mxlen,
}

impl CsrBase for Misa {
    closed spec fn csr_value(&self) -> Mxlen {
        self.value
    }

    fn new(value: Mxlen) -> (s: Self) {
        Self { value }
    }

    fn reset(&mut self) {
        self.value = 0;
    }

    fn write_value(&mut self, value: Mxlen) {
        self.value = value;
    }

    fn read_value(&self) -> (r: Mxlen) {
        self.value
    }
}

impl Read for Misa {}

impl Write for Misa {}

impl Default for Misa {
    /// The register describing the implemented extensions.
    fn default() -> (m: Self)
        ensures
            m.csr_value() == default_extensions(),
    {
        Self {
            value: 1i64 << Extensions::BitA.bit()
            // | 1 << Extensions::BitC
             | 1i64 << Extensions::BitD.bit() | 1i64 << Extensions::BitF.bit() | 1i64
                << Extensions::BitI.bit() | 1i64 << Extensions::BitM.bit()
            // | 1 << Extensions::BitN
             | 1i64 << Extensions::BitS.bit() | 1i64 << Extensions::BitU.bit(),
        }
    }
}

impl Misa {
    /// Read the MXL field. Only the encodings 1, 2 and 3 are defined.
    pub fn read_mxl(&self) -> (r: Mxl)
        requires
            1 <= field_spec(self.csr_value(), 62, 64) <= 3,
        ensures
            r == mxl_of(field_spec(self.csr_value(), 62, 64)),
    {
        let mxl = self.read_bits(BitBound::Included(62), BitBound::Unbounded);
        if mxl == 1 {
            Mxl::Xlen32
        } else if mxl == 2 {
            Mxl::Xlen64
        } else {
            Mxl::Xlen128
        }
    }

    /// Write the MXL field.
    pub fn write_mxl(&mut self, value: Mxlen)
        ensures
            final(self).csr_value() == set_field_spec(old(self).csr_value(), 62, 64, value),
    {
        self.write_bits(BitBound::Included(62), BitBound::Unbounded, value)
    }

    /// Read the extensions field.
    pub fn read_extensions(&self) -> (r: Mxlen)
        ensures
            r == field_spec(self.csr_value(), 0, 26),
    {
        self.read_bits(BitBound::Unbounded, BitBound::Excluded(26))
    }

    /// Write the extensions field.
    pub fn write_extensions(&mut self, value: Mxlen)
        ensures
            final(self).csr_value() == set_field_spec(old(self).csr_value(), 0, 26, value),
    {
        self.write_bits(BitBound::Unbounded, BitBound::Excluded(26), value)
    }
}

} // verus!
