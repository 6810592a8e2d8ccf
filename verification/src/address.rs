use vstd::prelude::*;

verus! {

/// A 32-byte account identity (an owner, an item's mint, an admin, a token
/// mint), held as four 64-bit words so that equality is plain structural
/// equality on integers. The runtime key type converts to and from this
/// form at the library's edge.
#[derive(Clone, Copy, PartialEq, Eq, Structural, Debug, Hash)]
pub struct Address {
    pub w0: u64,
    pub w1: u64,
    pub w2: u64,
    pub w3: u64,
}

impl Address {
    pub fn new(w0: u64, w1: u64, w2: u64, w3: u64) -> (a: Address)
        ensures
            a == (Address { w0, w1, w2, w3 }),
    {
        Address { w0, w1, w2, w3 }
    }
}

impl Default for Address {
    /// The all-zero identity, the runtime's default key.
    fn default() -> (a: Address)
        ensures
            a == (Address { w0: 0u64, w1: 0u64, w2: 0u64, w3: 0u64 }),
    {
        Address { w0: 0, w1: 0, w2: 0, w3: 0 }
    }
}

} // verus!
