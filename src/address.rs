use vstd::prelude::*;

verus! {

/// The 32-byte identity of a ledger record or of a wallet, held as four
/// little-endian 64-bit words so that equality is plain field equality.
#[derive(Clone, Copy, Debug, PartialEq, Eq, Structural)]
pub struct Address {
    pub w0: u64,
    pub w1: u64,
    pub w2: u64,
    pub w3: u64,
}

impl Address {
    pub fn new(w0: u64, w1: u64, w2: u64, w3: u64) -> (r: Address)
        ensures
            r == (Address { w0, w1, w2, w3 }),
    {
        Address { w0, w1, w2, w3 }
    }
}

} // verus!
