//! The package-publish strategy: structurally one-shot, it builds exactly
//! one package-publish transaction per account, whatever batch size the
//! caller asked for.

use vstd::prelude::*;

use crate::account::SigningAccount;
use crate::transaction::{
    accounts_advanced, batch_txn, batch_well_formed, cap_count, lemma_offset_uniform_rows,
    lemma_total_uniform_rows, sign_all, spec_signed, total_uniform, SignedTransaction,
    TransactionFactory, TransactionPayload,
};

verus! {

pub struct PublishPackageCreator {
    pub txn_factory: TransactionFactory,
}

impl PublishPackageCreator {
    pub fn new(txn_factory: TransactionFactory) -> (c: Self)
        ensures
            c == (PublishPackageCreator { txn_factory }),
    {
        PublishPackageCreator { txn_factory }
    }

    pub fn create_transaction_generator(&self) -> (g: PublishPackageGenerator)
        ensures
            g.txn_factory == self.txn_factory,
    {
        PublishPackageGenerator { txn_factory: self.txn_factory }
    }
}

pub struct PublishPackageGenerator {
    pub txn_factory: TransactionFactory,
}

impl PublishPackageGenerator {
    /// One publish transaction per account, regardless of
    /// `transactions_per_account`; each consumes one sequence number.
    pub fn generate_transactions(
        &mut self,
        accounts: &mut Vec<SigningAccount>,
        transactions_per_account: usize,
    ) -> (result: Vec<SignedTransaction>)
        ensures
            accounts_advanced(old(accounts)@, final(accounts)@, 1),
            batch_well_formed(result@, old(accounts)@, old(self).txn_factory, 1),
            forall|m: int|
                0 <= m < result@.len() ==> (#[trigger] result@[m]).payload
                    == (TransactionPayload::PublishPackage { package: 0 }),
            result@.len() <= old(accounts)@.len(),
            *final(self) == *old(self),
    {
        let ghost accs0 = accounts@;
        let n = accounts.len();
        let mut rows: Vec<Vec<TransactionPayload>> = Vec::new();
        let mut i: usize = 0;
        while i < n
            invariant
                0 <= i <= n,
                rows@.len() == i,
                forall|m: int| 0 <= m < i ==> #[trigger] rows@[m]@.len() == 1,
                forall|m: int, j: int|
                    0 <= m < i && 0 <= j < 1 ==> #[trigger] rows@[m]@[j]
                        == (TransactionPayload::PublishPackage { package: 0 }),
            decreases n - i,
        {
            let mut row: Vec<TransactionPayload> = Vec::new();
            row.push(TransactionPayload::PublishPackage { package: 0 });
            rows.push(row);
            i = i + 1;
        }
        let factory = self.txn_factory;
        let result = sign_all(&factory, accounts, &rows);
        proof {
            lemma_total_uniform_rows(accs0, rows@, 1);
            crate::transaction::lemma_total_uniform_bounded(accs0, 1);
            assert forall|ii: int, j: int|
                0 <= ii < accs0.len() && 0 <= j < cap_count(
                    accs0[ii].sequence_number,
                    1,
                ) implies #[trigger] batch_txn(result@, accs0, 1, ii, j) == spec_signed(
                factory,
                accs0[ii],
                j as nat,
                batch_txn(result@, accs0, 1, ii, j).payload,
            ) && batch_txn(result@, accs0, 1, ii, j).payload == (TransactionPayload::PublishPackage {
                package: 0,
            }) by {
                lemma_offset_uniform_rows(accs0, rows@, 1, ii);
                assert(result@[crate::transaction::block_offset(accs0, rows@, ii) + j]
                    == spec_signed(factory, accs0[ii], j as nat, rows@[ii]@[j]));
            }
            assert forall|m: int| 0 <= m < result@.len() implies (#[trigger] result@[m]).payload
                == (TransactionPayload::PublishPackage { package: 0 }) by {
                let (bi, bj) = crate::transaction::lemma_batch_index(accs0, 1, m);
                assert(batch_txn(result@, accs0, 1, bi, bj) == result@[m]);
            }
        }
        result
    }
}

/// A batch of one requested transaction per account holds exactly one
/// transaction for every account whose counter has room left — so, whenever
/// no counter stands at its maximum, exactly `accounts.len()` transactions
/// come back, whatever `transactions_per_account` was.
pub proof fn lemma_publish_returns_one_per_account(accs: Seq<SigningAccount>)
    requires
        forall|i: int| 0 <= i < accs.len() ==> (#[trigger] accs[i]).sequence_number < u64::MAX,
    ensures
        total_uniform(accs, 1) == accs.len(),
    decreases accs.len(),
{
    if accs.len() != 0 {
        lemma_publish_returns_one_per_account(accs.drop_last());
    }
}

} // verus!
