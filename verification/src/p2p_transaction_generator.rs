//! The coin-transfer strategy: peer-to-peer transfers to targets sampled
//! uniformly from the address pool, with a configurable fraction of
//! intentionally invalid transfers to exercise rejection handling.

use vstd::prelude::*;

use crate::account::SigningAccount;
use crate::pools::AddressPool;
use crate::rng::rand_below;
use crate::transaction::{
    accounts_advanced, batch_txn, batch_well_formed, cap_count, lemma_batch_index,
    lemma_offset_uniform_rows, lemma_total_uniform_bounded, lemma_total_uniform_rows,
    offset_uniform, sign_all, SignedTransaction, TransactionFactory, TransactionPayload,
};

verus! {

/// A coin-transfer payload is either a valid transfer — target drawn from
/// the address pool, moving the configured amount — or, when the invalid
/// ratio is positive, an intentionally broken one: the reserved null target
/// and a zero amount.
pub open spec fn p2p_payload_ok(
    p: TransactionPayload,
    addresses: Seq<u64>,
    send_amount: u64,
    ratio: nat,
) -> bool {
    match p {
        TransactionPayload::CoinTransfer { to, amount } => (addresses.contains(to) && amount
            == send_amount) || (ratio > 0 && to == 0 && amount == 0),
        _ => false,
    }
}

pub struct P2PTransactionGeneratorCreator {
    pub txn_factory: TransactionFactory,
    pub amount: u64,
    pub invalid_transaction_ratio: usize,
}

impl P2PTransactionGeneratorCreator {
    pub fn new(
        txn_factory: TransactionFactory,
        amount: u64,
        invalid_transaction_ratio: usize,
    ) -> (c: Self)
        ensures
            c == (P2PTransactionGeneratorCreator { txn_factory, amount, invalid_transaction_ratio }),
    {
        P2PTransactionGeneratorCreator { txn_factory, amount, invalid_transaction_ratio }
    }

    pub fn create_transaction_generator(&self, rng: rand::rngs::StdRng) -> (g: P2PTransactionGenerator)
        ensures
            g.txn_factory == self.txn_factory,
            g.send_amount == self.amount,
            g.invalid_transaction_ratio == self.invalid_transaction_ratio,
    {
        P2PTransactionGenerator {
            rng,
            txn_factory: self.txn_factory,
            send_amount: self.amount,
            invalid_transaction_ratio: self.invalid_transaction_ratio,
        }
    }
}

pub struct P2PTransactionGenerator {
    pub rng: rand::rngs::StdRng,
    pub txn_factory: TransactionFactory,
    pub send_amount: u64,
    pub invalid_transaction_ratio: usize,
}

impl P2PTransactionGenerator {
    /// For each account, up to `transactions_per_account` transfers
    /// consuming successive sequence numbers from the account's counter;
    /// with an invalid ratio of zero every transfer is valid and its target
    /// is drawn from the address pool.
    pub fn generate_transactions(
        &mut self,
        addresses: &AddressPool,
        accounts: &mut Vec<SigningAccount>,
        transactions_per_account: usize,
    ) -> (result: Vec<SignedTransaction>)
        requires
            addresses@.len() > 0,
        ensures
            accounts_advanced(old(accounts)@, final(accounts)@, transactions_per_account as nat),
            batch_well_formed(
                result@,
                old(accounts)@,
                old(self).txn_factory,
                transactions_per_account as nat,
            ),
            forall|m: int|
                0 <= m < result@.len() ==> p2p_payload_ok(
                    (#[trigger] result@[m]).payload,
                    addresses@,
                    old(self).send_amount,
                    old(self).invalid_transaction_ratio as nat,
                ),
            result@.len() <= old(accounts)@.len() * transactions_per_account,
            final(self).txn_factory == old(self).txn_factory,
            final(self).send_amount == old(self).send_amount,
            final(self).invalid_transaction_ratio == old(self).invalid_transaction_ratio,
    {
        let ghost accs0 = accounts@;
        let tpa = transactions_per_account;
        let n = accounts.len();
        let mut rows: Vec<Vec<TransactionPayload>> = Vec::new();
        let mut i: usize = 0;
        while i < n
            invariant
                0 <= i <= n,
                rows@.len() == i,
                addresses@.len() > 0,
                self.txn_factory == old(self).txn_factory,
                self.send_amount == old(self).send_amount,
                self.invalid_transaction_ratio == old(self).invalid_transaction_ratio,
                forall|m: int| 0 <= m < i ==> #[trigger] rows@[m]@.len() == tpa,
                forall|m: int, j: int|
                    0 <= m < i && 0 <= j < tpa ==> p2p_payload_ok(
                        #[trigger] rows@[m]@[j],
                        addresses@,
                        self.send_amount,
                        self.invalid_transaction_ratio as nat,
                    ),
            decreases n - i,
        {
            let row = self.build_row(addresses, tpa);
            rows.push(row);
            i = i + 1;
        }
        let factory = self.txn_factory;
        let result = sign_all(&factory, accounts, &rows);
        proof {
            lemma_total_uniform_rows(accs0, rows@, tpa as nat);
            lemma_total_uniform_bounded(accs0, tpa as nat);
            assert forall|ii: int, j: int|
                0 <= ii < accs0.len() && 0 <= j < cap_count(
                    accs0[ii].sequence_number,
                    tpa as nat,
                ) implies #[trigger] batch_txn(result@, accs0, tpa as nat, ii, j)
                == crate::transaction::spec_signed(
                factory,
                accs0[ii],
                j as nat,
                batch_txn(result@, accs0, tpa as nat, ii, j).payload,
            ) && p2p_payload_ok(
                batch_txn(result@, accs0, tpa as nat, ii, j).payload,
                addresses@,
                self.send_amount,
                self.invalid_transaction_ratio as nat,
            ) by {
                lemma_offset_uniform_rows(accs0, rows@, tpa as nat, ii);
                assert(rows@[ii]@.len() == tpa);
                assert(result@[crate::transaction::block_offset(accs0, rows@, ii) + j]
                    == crate::transaction::spec_signed(factory, accs0[ii], j as nat, rows@[ii]@[j]));
            }
            assert forall|m: int| 0 <= m < result@.len() implies p2p_payload_ok(
                (#[trigger] result@[m]).payload,
                addresses@,
                self.send_amount,
                self.invalid_transaction_ratio as nat,
            ) by {
                let (bi, bj) = lemma_batch_index(accs0, tpa as nat, m);
                assert(batch_txn(result@, accs0, tpa as nat, bi, bj) == result@[m]);
            }
        }
        result
    }

    /// One account's worth of transfer payloads.
    fn build_row(&mut self, addresses: &AddressPool, tpa: usize) -> (row: Vec<TransactionPayload>)
        requires
            addresses@.len() > 0,
        ensures
            row@.len() == tpa,
            forall|j: int|
                0 <= j < tpa ==> p2p_payload_ok(
                    #[trigger] row@[j],
                    addresses@,
                    old(self).send_amount,
                    old(self).invalid_transaction_ratio as nat,
                ),
            final(self).txn_factory == old(self).txn_factory,
            final(self).send_amount == old(self).send_amount,
            final(self).invalid_transaction_ratio == old(self).invalid_transaction_ratio,
    {
        let mut row: Vec<TransactionPayload> = Vec::new();
        let mut j: usize = 0;
        while j < tpa
            invariant
                0 <= j <= tpa,
                row@.len() == j,
                addresses@.len() > 0,
                self.txn_factory == old(self).txn_factory,
                self.send_amount == old(self).send_amount,
                self.invalid_transaction_ratio == old(self).invalid_transaction_ratio,
                forall|jj: int|
                    0 <= jj < j ==> p2p_payload_ok(
                        #[trigger] row@[jj],
                        addresses@,
                        self.send_amount,
                        self.invalid_transaction_ratio as nat,
                    ),
            decreases tpa - j,
        {
            let invalid = if self.invalid_transaction_ratio > 0 {
                let roll = rand_below(&mut self.rng, 100);
                roll < (if self.invalid_transaction_ratio > 100 {
                    100u64
                } else {
                    self.invalid_transaction_ratio as u64
                })
            } else {
                false
            };
            let payload = if invalid {
                TransactionPayload::CoinTransfer { to: 0, amount: 0 }
            } else {
                let to = addresses.sample(&mut self.rng);
                TransactionPayload::CoinTransfer { to, amount: self.send_amount }
            };
            row.push(payload);
            j = j + 1;
        }
        row
    }
}

} // verus!
