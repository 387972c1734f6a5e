//! The machine status register, as an object of its own.

use vstd::prelude::*;

use crate::cpu::Mode;
use crate::csr::{
    apply_writes, bit_set, field_spec, law_register_field_survives_writes, set_field_spec,
    well_formed_write, with_bit, write_avoids, BitBound, CsrBase, Mxlen, Read, RegisterWrite,
    Write,
};

verus! {

/// The privilege mode an MPP field value encodes; the reserved encoding gives `Debug`.
pub open spec fn mpp_mode(mpp: i64) -> Mode {
    if mpp == 0b00 {
        Mode::User
    } else if mpp == 0b01 {
        Mode::Supervisor
    } else if mpp == 0b11 {
        Mode::Machine
    } else {
        Mode::Debug
    }
}

/// The MPP field value that records `mode`; a mode that cannot be recorded gives user.
pub open spec fn mpp_of(mode: Mode) -> i64 {
    match mode {
        Mode::Supervisor => 0b01,
        Mode::Machine => 0b11,
        _ => 0b00,
    }
}

/// The machine status register.
pub struct Mstatus {
    value: Mxlen,
}

impl CsrBase for Mstatus {
    closed spec fn csr_value(&self) -> Mxlen {
        self.value
    }

    fn new(value: Mxlen) -> (s: Self) {
        Self { value }
    }

    fn reset(&mut self) {
        self.value = 0;
    }

    fn write_value(&mut self, value: Mxlen) {
        self.value = value;
    }

    fn read_value(&self) -> (r: Mxlen) {
        self.value
    }
}

impl Read for Mstatus {}

impl Write for Mstatus {}

impl Mstatus {
    /// Read a privious privilege mode for machine mode.
    pub fn read_mpp(&self) -> (r: Mode)
        ensures
            r == mpp_mode(field_spec(self.csr_value(), 11, 13)),
    {
        let mpp = self.read_bits(BitBound::Included(11), BitBound::Excluded(13));
        if mpp == 0b00 {
            Mode::User
        } else if mpp == 0b01 {
            Mode::Supervisor
        } else if mpp == 0b11 {
            Mode::Machine
        } else {
            Mode::Debug
        }
    }

    /// Write a privious privilege mode for machine mode.
    pub fn write_mpp(&mut self, mode: Mode)
        ensures
            final(self).csr_value() == set_field_spec(old(self).csr_value(), 11, 13, mpp_of(mode)),
    {
        match mode {
            Mode::User => self.write_bits(BitBound::Included(11), BitBound::Excluded(13), 0b00),
            Mode::Supervisor => self.write_bits(
                BitBound::Included(11),
                BitBound::Excluded(13),
                0b01,
            ),
            Mode::Machine => self.write_bits(BitBound::Included(11), BitBound::Excluded(13), 0b11),
            _ => self.write_bits(BitBound::Included(11), BitBound::Excluded(13), 0b00),
        }
    }

    /// Read a privious privilege mode for supervisor mode. It can only holds machine or
    /// supervisor mode.
    pub fn read_spp(&self) -> (r: Mode)
        ensures
            r == (if bit_set(self.csr_value(), 8) {
                Mode::Supervisor
            } else {
                Mode::User
            }),
    {
        if self.read_bit(8) {
            Mode::Supervisor
        } else {
            Mode::User
        }
    }

    /// Write a privious privilege mode for supervisor mode. It can only holds machine or
    /// supervisor mode.
    pub fn write_spp(&mut self, mode: Mode)
        ensures
            final(self).csr_value() == with_bit(
                old(self).csr_value(),
                8,
                mode == Mode::Supervisor,
            ),
    {
        match mode {
            Mode::User => self.write_bit(8, false),
            Mode::Supervisor => self.write_bit(8, true),
            _ => self.write_bit(8, false),
        }
    }

    /// Read a privious interrupt-enable bit for machine mode.
    pub fn read_mpie(&self) -> (r: bool)
        ensures
            r == bit_set(self.csr_value(), 7),
    {
        self.read_bit(7)
    }

    /// Write a privious interrupt-enable bit for machine mode.
    pub fn write_mpie(&mut self, value: bool)
        ensures
            final(self).csr_value() == with_bit(old(self).csr_value(), 7, value),
    {
        self.write_bit(7, value)
    }

    /// Read a privious interrupt-enable bit for supervisor mode.
    pub fn read_spie(&self) -> (r: bool)
        ensures
            r == bit_set(self.csr_value(), 5),
    {
        self.read_bit(5)
    }

    /// Write a privious interrupt-enable bit for supervisor mode.
    pub fn write_spie(&mut self, value: bool)
        ensures
            final(self).csr_value() == with_bit(old(self).csr_value(), 5, value),
    {
        self.write_bit(5, value)
    }

    /// Read a privious interrupt-enable bit for user mode.
    pub fn read_upie(&self) -> (r: bool)
        ensures
            r == bit_set(self.csr_value(), 4),
    {
        self.read_bit(4)
    }

    /// Write a privious interrupt-enable bit for user mode.
    pub fn write_upie(&mut self, value: bool)
        ensures
            final(self).csr_value() == with_bit(old(self).csr_value(), 4, value),
    {
        self.write_bit(4, value)
    }

    /// Read a global interrupt-enable bit for machine mode.
    pub fn read_mie(&self) -> (r: bool)
        ensures
            r == bit_set(self.csr_value(), 3),
    {
        self.read_bit(3)
    }

    /// Write a global interrupt-enable bit for machine mode.
    pub fn write_mie(&mut self, value: bool)
        ensures
            final(self).csr_value() == with_bit(old(self).csr_value(), 3, value),
    {
        self.write_bit(3, value)
    }

    /// Read a global interrupt-enable bit for supervisor mode.
    pub fn read_sie(&self) -> (r: bool)
        ensures
            r == bit_set(self.csr_value(), 1),
    {
        self.read_bit(1)
    }

    /// Write a global interrupt-enable bit for supervisor mode.
    pub fn write_sie(&mut self, value: bool)
        ensures
            final(self).csr_value() == with_bit(old(self).csr_value(), 1, value),
    {
        self.write_bit(1, value)
    }

    /// Read a global interrupt-enable bit for user mode.
    pub fn read_uie(&self) -> (r: bool)
        ensures
            r == bit_set(self.csr_value(), 0),
    {
        self.read_bit(0)
    }

    /// Write a global interrupt-enable bit for user mode.
    pub fn write_uie(&mut self, value: bool)
        ensures
            final(self).csr_value() == with_bit(old(self).csr_value(), 0, value),
    {
        self.write_bit(0, value)
    }
}

/// The previous privilege mode recorded with `write_mpp` (user, supervisor or machine) is what
/// `read_mpp` gives after any number of later writes of other bits and fields of `mstatus`.
pub proof fn law_mpp_survives_writes(v: Mxlen, mode: Mode, ws: Seq<RegisterWrite>)
    requires
        mode != Mode::Debug,
        forall|i: int| 0 <= i < ws.len() ==> well_formed_write(#[trigger] ws[i]) && write_avoids(
            ws[i],
            11,
            13,
        ),
    ensures
        mpp_mode(field_spec(apply_writes(set_field_spec(v, 11, 13, mpp_of(mode)), ws), 11, 13))
            == mode,
{
    let val = mpp_of(mode);
    assert(val >> 2u64 == 0) by (bit_vector)
        requires
            val == 0 || val == 1 || val == 3,
    ;
    law_register_field_survives_writes(v, 11, 13, val, ws);
}

} // verus!
