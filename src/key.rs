use vstd::prelude::*;

verus! {

/// A 256-bit account address, held as two 128-bit halves
/// (`hi` holds the first sixteen bytes, big-endian).
#[derive(Clone, Copy, Debug, PartialEq, Eq, Structural)]
pub struct AccountKey {
    pub hi: u128,
    pub lo: u128,
}

impl AccountKey {
    /// The address made of the two halves.
    pub fn new(hi: u128, lo: u128) -> (r: AccountKey)
        ensures
            r.hi == hi,
            r.lo == lo,
    {
        AccountKey { hi, lo }
    }
}

/// What the ledger reads of a token account: who owns it and which mint
/// its balance is denominated in.
#[derive(Clone, Copy, Debug, PartialEq, Eq, Structural)]
pub struct TokenAccountRef {
    pub owner: AccountKey,
    pub mint: AccountKey,
}

} // verus!
