//! Physical memory protection address register 0. A CSR held as an object of its own.

use vstd::prelude::*;

use crate::csr::{CsrBase, Mxlen, Read, Write};

verus! {

/// The first physical memory protection address register.
pub struct Pmpaddr0 {
    value: Mxlen,
}

impl CsrBase for Pmpaddr0 {
    closed spec fn csr_value(&self) -> Mxlen {
        self.value
    }

    fn new(value: Mxlen) -> (s: Self) {
        Self { value }
    }

    fn reset(&mut self) {
        self.value = 0;
    }

    fn write_value(&mut self, value: Mxlen) {
        self.value = value;
    }

    fn read_value(&self) -> (r: Mxlen) {
        self.value
    }
}

impl Read for Pmpaddr0 {}

impl Write for Pmpaddr0 {}

} // verus!
