//! The native transaction context: per-transaction data the virtual
//! machine's native functions read — the running script's hash, the
//! transaction's hash and the chain id.

use vstd::prelude::*;

verus! {

/// Number of buckets transactions are spread over by their hash.
pub const NUM_BUCKETS: u128 = 10;

/// The native transaction context extension. One value is attached to each
/// virtual-machine session, so natives of the extension can read it.
pub struct NativeTransactionContext {
    script_hash: Vec<u8>,
    txn_hash: u128,
    chain_id: u8,
}

impl NativeTransactionContext {
    /// Create a new instance of a native transaction context. This must be
    /// passed into each virtual-machine session.
    pub fn new(script_hash: Vec<u8>, txn_hash: u128, chain_id: u8) -> (c: Self)
        ensures
            c.script_hash_spec() == script_hash@,
            c.txn_hash() == txn_hash,
            c.chain_id_spec() == chain_id,
    {
        NativeTransactionContext { script_hash, txn_hash, chain_id }
    }

    pub closed spec fn script_hash_spec(&self) -> Seq<u8> {
        self.script_hash@
    }

    pub closed spec fn txn_hash(&self) -> u128 {
        self.txn_hash
    }

    pub closed spec fn chain_id_spec(&self) -> u8 {
        self.chain_id
    }

    pub fn chain_id(&self) -> (r: u8)
        ensures
            r == self.chain_id_spec(),
    {
        self.chain_id
    }

    /// The bucket a transaction falls into: its hash modulo the number of
    /// buckets. This is what the `get_bucket` native hands to the
    /// virtual machine.
    pub fn get_bucket(&self) -> (r: u64)
        ensures
            r as u128 == self.txn_hash() % NUM_BUCKETS,
    {
        (self.txn_hash % NUM_BUCKETS) as u64
    }

    /// The running script's hash, as the `get_script_hash` native hands it
    /// to the virtual machine.
    pub fn script_hash(&self) -> (r: &Vec<u8>)
        ensures
            r@ == self.script_hash_spec(),
    {
        &self.script_hash
    }
}

} // verus!
