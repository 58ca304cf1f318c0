//! Signing accounts: an address, a signing capability, and the locally
//! tracked next sequence number.

use vstd::prelude::*;

verus! {

/// An account that can sign transactions. The `sequence_number` field is the
/// local counter of the next sequence number to be consumed; it always equals
/// the next number a produced transaction will carry, and it only grows.
#[derive(Debug, Copy, Clone, PartialEq, Eq, Structural)]
pub struct SigningAccount {
    /// On-chain address of the account.
    pub address: u64,
    /// The signing capability (the key material, reduced to its identity).
    pub key: u64,
    /// Next sequence number to be consumed by a produced transaction.
    pub sequence_number: u64,
}

impl SigningAccount {
    pub fn new(address: u64, key: u64, sequence_number: u64) -> (a: Self)
        ensures
            a == (SigningAccount { address, key, sequence_number }),
    {
        SigningAccount { address, key, sequence_number }
    }

    pub fn address(&self) -> (r: u64)
        ensures
            r == self.address,
    {
        self.address
    }

    pub fn sequence_number(&self) -> (r: u64)
        ensures
            r == self.sequence_number,
    {
        self.sequence_number
    }
}

} // verus!
