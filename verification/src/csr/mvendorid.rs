//! Vendor ID. A CSR held as an object of its own.

use vstd::prelude::*;

use crate::csr::{CsrBase, Mxlen, Read};

verus! {

/// The vendor ID register.
pub struct Mvendorid {
    value: Mxlen,
}

impl CsrBase for Mvendorid {
    closed spec fn csr_value(&self) -> Mxlen {
        self.value
    }

    fn new(value: Mxlen) -> (s: Self) {
        Self { value }
    }

    fn reset(&mut self) {
        self.value = 0;
    }

    fn write_value(&mut self, value: Mxlen) {
        self.value = value;
    }

    fn read_value(&self) -> (r: Mxlen) {
        self.value
    }
}

impl Read for Mvendorid {}

} // verus!
