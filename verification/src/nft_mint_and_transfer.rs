//! The NFT strategy: one-time setup mints a collection through the
//! initialization transaction factory and blocks — through the execution
//! capability's submission barrier — until it is confirmed; each generation
//! call then builds mint and transfer transactions in alternating slots.

use vstd::prelude::*;

use crate::account::SigningAccount;
use crate::executor::{ExecutionError, TransactionExecutor};
use crate::transaction::{
    accounts_advanced, batch_txn, batch_well_formed, cap_count, lemma_offset_uniform_rows,
    lemma_total_uniform_bounded, lemma_total_uniform_rows, sign_all, sign_for_account,
    spec_signed, SignedTransaction, TransactionFactory, TransactionPayload,
};

verus! {

/// The payload of slot `j` of every account's block: even slots mint a
/// token in the minter's collection, odd slots transfer the token back to
/// the collection owner.
pub open spec fn nft_slot_payload(minter: u64, j: int) -> TransactionPayload {
    if j % 2 == 0 {
        TransactionPayload::NftMint { creator: minter }
    } else {
        TransactionPayload::NftTransfer { creator: minter, to: minter }
    }
}

pub struct NFTMintAndTransferGeneratorCreator {
    pub txn_factory: TransactionFactory,
    pub minter: u64,
    pub num_workers: usize,
}

impl NFTMintAndTransferGeneratorCreator {
    /// Mints the collection from the given source account through the
    /// initialization factory and submits it through the execution
    /// capability, whose submission call blocks until the mint is confirmed
    /// on-chain. A failure of the backend is fatal and propagates.
    pub fn new<E: TransactionExecutor>(
        txn_factory: TransactionFactory,
        init_txn_factory: TransactionFactory,
        source_account: &mut SigningAccount,
        txn_executor: &E,
        num_workers: usize,
    ) -> (r: Result<Self, ExecutionError>)
        ensures
            final(source_account).address == old(source_account).address,
            final(source_account).key == old(source_account).key,
            final(source_account).sequence_number == old(source_account).sequence_number
                + cap_count(old(source_account).sequence_number, 1),
            r matches Ok(c) ==> c == (NFTMintAndTransferGeneratorCreator {
                txn_factory,
                minter: old(source_account).address,
                num_workers,
            }),
    {
        let mut payloads: Vec<TransactionPayload> = Vec::new();
        payloads.push(TransactionPayload::NftMint { creator: source_account.address });
        let mut setup: Vec<SignedTransaction> = Vec::new();
        sign_for_account(&init_txn_factory, source_account, &payloads, &mut setup);
        let minter = source_account.address;
        match txn_executor.execute_transactions(&setup) {
            Ok(_) => Ok(
                NFTMintAndTransferGeneratorCreator { txn_factory, minter, num_workers },
            ),
            Err(e) => Err(e),
        }
    }

    pub fn create_transaction_generator(&self) -> (g: NFTMintAndTransferGenerator)
        ensures
            g.txn_factory == self.txn_factory,
            g.minter == self.minter,
    {
        NFTMintAndTransferGenerator { txn_factory: self.txn_factory, minter: self.minter }
    }
}

pub struct NFTMintAndTransferGenerator {
    pub txn_factory: TransactionFactory,
    pub minter: u64,
}

impl NFTMintAndTransferGenerator {
    /// Mint and transfer transactions in alternating slots, up to
    /// `transactions_per_account` per account.
    pub fn generate_transactions(
        &mut self,
        accounts: &mut Vec<SigningAccount>,
        transactions_per_account: usize,
    ) -> (result: Vec<SignedTransaction>)
        ensures
            accounts_advanced(old(accounts)@, final(accounts)@, transactions_per_account as nat),
            batch_well_formed(
                result@,
                old(accounts)@,
                old(self).txn_factory,
                transactions_per_account as nat,
            ),
            forall|i: int, j: int|
                0 <= i < old(accounts)@.len() && 0 <= j < cap_count(
                    old(accounts)@[i].sequence_number,
                    transactions_per_account as nat,
                ) ==> (#[trigger] batch_txn(
                    result@,
                    old(accounts)@,
                    transactions_per_account as nat,
                    i,
                    j,
                )).payload == nft_slot_payload(old(self).minter, j),
            result@.len() <= old(accounts)@.len() * transactions_per_account,
            *final(self) == *old(self),
    {
        let ghost accs0 = accounts@;
        let tpa = transactions_per_account;
        let n = accounts.len();
        let mut rows: Vec<Vec<TransactionPayload>> = Vec::new();
        let mut i: usize = 0;
        while i < n
            invariant
                0 <= i <= n,
                rows@.len() == i,
                forall|m: int| 0 <= m < i ==> #[trigger] rows@[m]@.len() == tpa,
                forall|m: int, j: int|
                    0 <= m < i && 0 <= j < tpa ==> #[trigger] rows@[m]@[j] == nft_slot_payload(
                        self.minter,
                        j,
                    ),
            decreases n - i,
        {
            let mut row: Vec<TransactionPayload> = Vec::new();
            let mut j: usize = 0;
            while j < tpa
                invariant
                    0 <= j <= tpa,
                    row@.len() == j,
                    forall|jj: int|
                        0 <= jj < j ==> #[trigger] row@[jj] == nft_slot_payload(self.minter, jj),
                decreases tpa - j,
            {
                let payload = if j % 2 == 0 {
                    TransactionPayload::NftMint { creator: self.minter }
                } else {
                    TransactionPayload::NftTransfer { creator: self.minter, to: self.minter }
                };
                row.push(payload);
                j = j + 1;
            }
            rows.push(row);
            i = i + 1;
        }
        let factory = self.txn_factory;
        let result = sign_all(&factory, accounts, &rows);
        proof {
            lemma_total_uniform_rows(accs0, rows@, tpa as nat);
            lemma_total_uniform_bounded(accs0, tpa as nat);
            assert forall|ii: int, j: int|
                0 <= ii < accs0.len() && 0 <= j < cap_count(
                    accs0[ii].sequence_number,
                    tpa as nat,
                ) implies #[trigger] batch_txn(result@, accs0, tpa as nat, ii, j) == spec_signed(
                factory,
                accs0[ii],
                j as nat,
                batch_txn(result@, accs0, tpa as nat, ii, j).payload,
            ) && batch_txn(result@, accs0, tpa as nat, ii, j).payload == nft_slot_payload(
                self.minter,
                j,
            ) by {
                lemma_offset_uniform_rows(accs0, rows@, tpa as nat, ii);
                assert(rows@[ii]@.len() == tpa);
                assert(result@[crate::transaction::block_offset(accs0, rows@, ii) + j]
                    == spec_signed(factory, accs0[ii], j as nat, rows@[ii]@[j]));
            }
        }
        result
    }
}

} // verus!
