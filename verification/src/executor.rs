//! The execution capability the setup-phase strategies need from the
//! surrounding harness, and the consistency barrier that lets setup
//! transactions be awaited until their on-chain effect is visible.

use vstd::prelude::*;

use crate::transaction::SignedTransaction;

verus! {

/// How often the submission barrier polls the on-chain sequence numbers, in
/// milliseconds. The poll loop has no upper bound: it runs until every
/// submitted transaction is confirmed.
pub const POLL_INTERVAL_MS: u64 = 10;

/// An unrecoverable failure of the execution backend. Individual transaction
/// rejection is never reported this way — it only increments the caller's
/// failure counters.
#[derive(Debug, Clone)]
pub enum ExecutionError {
    Transport(String),
    Storage(String),
}

/// The capability strategies need from an execution backend: point-in-time
/// balance and sequence-number reads against the latest committed state, and
/// a batch submission that returns only once every submitted transaction's
/// sender has reached at least that transaction's sequence number plus one.
/// Implementations live outside the library; nothing is assumed of what
/// their reads return.
pub trait TransactionExecutor {
    fn get_account_balance(&self, account_address: u64) -> Result<u64, ExecutionError>;

    fn query_sequence_number(&self, account_address: u64) -> Result<u64, ExecutionError>;

    /// Submits a batch and blocks until every transaction in it is
    /// confirmed on-chain; rejected transactions are counted in
    /// `failure_counter`, never turned into an error.
    fn execute_transactions_with_counter(
        &self,
        txns: &Vec<SignedTransaction>,
        failure_counter: &mut Vec<u64>,
    ) -> Result<(), ExecutionError>;

    fn execute_transactions(&self, txns: &Vec<SignedTransaction>) -> Result<(), ExecutionError> {
        let mut counters: Vec<u64> = Vec::new();
        counters.push(0);
        self.execute_transactions_with_counter(txns, &mut counters)
    }
}

/// The pair the barrier tracks for one submitted transaction: its sender and
/// its sequence number.
pub open spec fn barrier_entry(t: SignedTransaction) -> (u64, u64) {
    (t.sender, t.sequence_number)
}

/// The consistency barrier's state: one entry per submitted transaction, in
/// submission order, confirmed one after the other. An entry is confirmed
/// only by an observation of its sender's on-chain sequence number that is
/// strictly greater than the entry's own sequence number — that is, at least
/// its sequence number plus one — and the barrier is complete only when
/// every entry has been so confirmed, never before.
pub struct ConsistencyBarrier {
    waiting: Vec<(u64, u64)>,
    confirmed: usize,
}

impl ConsistencyBarrier {
    /// The (sender, sequence number) pairs still awaiting confirmation,
    /// after the ones already confirmed.
    pub closed spec fn entries(&self) -> Seq<(u64, u64)> {
        self.waiting@
    }

    pub closed spec fn confirmed_count(&self) -> nat {
        self.confirmed as nat
    }

    pub closed spec fn well_formed(&self) -> bool {
        self.confirmed <= self.waiting@.len()
    }

    pub fn new(txns: &Vec<SignedTransaction>) -> (b: Self)
        ensures
            b.well_formed(),
            b.entries() == txns@.map_values(|t: SignedTransaction| barrier_entry(t)),
            b.confirmed_count() == 0,
    {
        let mut waiting: Vec<(u64, u64)> = Vec::new();
        let n = txns.len();
        let mut i: usize = 0;
        while i < n
            invariant
                0 <= i <= n,
                n == txns@.len(),
                waiting@.len() == i,
                forall|m: int| 0 <= m < i ==> waiting@[m] == barrier_entry(#[trigger] txns@[m]),
            decreases n - i,
        {
            let t = txns[i];
            waiting.push((t.sender, t.sequence_number));
            i = i + 1;
        }
        proof {
            assert(waiting@ =~= txns@.map_values(|t: SignedTransaction| barrier_entry(t)));
        }
        ConsistencyBarrier { waiting, confirmed: 0 }
    }

    /// The sender whose on-chain sequence number must be polled next, or
    /// nothing once every entry is confirmed.
    pub fn poll_target(&self) -> (r: Option<u64>)
        requires
            self.well_formed(),
        ensures
            self.confirmed_count() < self.entries().len() ==> r == Some(
                self.entries()[self.confirmed_count() as int].0,
            ),
            self.confirmed_count() == self.entries().len() ==> r is None,
    {
        if self.confirmed < self.waiting.len() {
            Some(self.waiting[self.confirmed].0)
        } else {
            None
        }
    }

    /// Feeds one observed on-chain sequence number of the current poll
    /// target into the barrier. The current entry is confirmed if and only
    /// if the observation is at least the entry's sequence number plus one;
    /// otherwise the barrier does not advance.
    pub fn observe(&mut self, observed_sequence_number: u64)
        requires
            old(self).well_formed(),
            old(self).confirmed_count() < old(self).entries().len(),
        ensures
            final(self).well_formed(),
            final(self).entries() == old(self).entries(),
            final(self).confirmed_count() == if observed_sequence_number > old(self).entries()[old(
                self,
            ).confirmed_count() as int].1 {
                old(self).confirmed_count() + 1
            } else {
                old(self).confirmed_count()
            },
    {
        let len = self.waiting.len();
        if self.confirmed < len && observed_sequence_number > self.waiting[self.confirmed].1 {
            self.confirmed = self.confirmed + 1;
        }
    }

    /// The barrier is complete exactly when every entry is confirmed.
    pub fn is_complete(&self) -> (r: bool)
        requires
            self.well_formed(),
        ensures
            r == (self.confirmed_count() == self.entries().len()),
    {
        self.confirmed == self.waiting.len()
    }
}

} // verus!
