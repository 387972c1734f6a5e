//! Hardware thread ID. A CSR held as an object of its own.

use vstd::prelude::*;

use crate::csr::{CsrBase, Mxlen, Read};

verus! {

/// The hart ID register. Hart IDs might not necessarily be numbered contiguously in a
/// multiprocessor system, but at least one hart must have a hart ID of zero.
pub struct Mhartid {
    value: Mxlen,
}

impl CsrBase for Mhartid {
    closed spec fn csr_value(&self) -> Mxlen {
        self.value
    }

    fn new(value: Mxlen) -> (s: Self) {
        Self { value }
    }

    fn reset(&mut self) {
        self.value = 0;
    }

    fn write_value(&mut self, value: Mxlen) {
        self.value = value;
    }

    fn read_value(&self) -> (r: Mxlen) {
        self.value
    }
}

impl Read for Mhartid {}

} // verus!
