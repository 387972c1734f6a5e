//! Scratch register for machine trap handlers. A CSR held as an object of its own.

use vstd::prelude::*;

use crate::csr::{CsrBase, Mxlen, Read, Write};

verus! {

/// The scratch register for machine trap handlers.
pub struct Mscratch {
    value: Mxlen,
}

impl CsrBase for Mscratch {
    closed spec fn csr_value(&self) -> Mxlen {
        self.value
    }

    fn new(value: Mxlen) -> (s: Self) {
        Self { value }
    }

    fn reset(&mut self) {
        self.value = 0;
    }

    fn write_value(&mut self, value: Mxlen) {
        self.value = value;
    }

    fn read_value(&self) -> (r: Mxlen) {
        self.value
    }
}

impl Read for Mscratch {}

impl Write for Mscratch {}

} // verus!
