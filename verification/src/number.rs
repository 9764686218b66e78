//! Numbers that the gateway carries without computing with them.

use vstd::prelude::*;

verus! {

/// A binary64 number held as its IEEE 754 bit pattern.
///
/// Statistics such as a performance or a variance come from the backend and
/// leave in a response untouched, so the library keeps the 64 bits as they
/// are. Two values are equal when their bits are.
#[derive(Debug, Clone, Copy, PartialEq, Eq, Structural)]
pub struct F64Bits {
    pub bits: u64,
}

impl F64Bits {
    pub fn new(bits: u64) -> (n: F64Bits)
        ensures
            n.bits == bits,
    {
        F64Bits { bits }
    }
}

} // verus!
