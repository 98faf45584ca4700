use vstd::prelude::*;

verus! {

/// A 32-byte account identity — an owner, an asset, or a derived program
/// authority — held as four 64-bit words so that equality is structural.
#[derive(Clone, Copy, Debug, PartialEq, Eq, Structural)]
pub struct AccountId {
    pub w0: u64,
    pub w1: u64,
    pub w2: u64,
    pub w3: u64,
}

impl AccountId {
    /// The all-zero identity, used before a real identity is bound.
    pub fn zero() -> (r: AccountId)
        ensures
            r == (AccountId { w0: 0, w1: 0, w2: 0, w3: 0 }),
    {
        AccountId { w0: 0, w1: 0, w2: 0, w3: 0 }
    }
}

} // verus!
