//! The account-generation strategy: account-creation transactions from the
//! acting sender, every created address appended to the address pool, and —
//! optionally — the created accounts deposited into the account pool, capped
//! at a configured maximum working-set size.

use vstd::prelude::*;

use crate::account::SigningAccount;
use crate::pools::{AccountPool, AddressPool};
use crate::rng::rand_below;
use crate::transaction::{
    accounts_advanced, batch_txn, batch_well_formed, cap_count, lemma_batch_index,
    lemma_offset_uniform_rows, lemma_total_uniform_bounded, lemma_total_uniform_rows, sign_all,
    spec_signed, SignedTransaction, TransactionFactory, TransactionPayload,
};

verus! {

/// The address created by an account-creation transaction.
pub open spec fn created_address(t: SignedTransaction) -> u64 {
    match t.payload {
        TransactionPayload::CreateAccount { new_address, .. } => new_address,
        _ => 0,
    }
}

/// The signing account a created account enters the pool as: fresh counter,
/// the authentication key the creation transaction installed.
pub open spec fn created_account(t: SignedTransaction) -> SigningAccount {
    match t.payload {
        TransactionPayload::CreateAccount { new_address, auth_key, .. } => SigningAccount {
            address: new_address,
            key: auth_key,
            sequence_number: 0,
        },
        _ => (SigningAccount { address: 0, key: 0, sequence_number: 0 }),
    }
}

/// How many of `k` created accounts a pool holding `base` accounts absorbs
/// under a working-set cap.
pub open spec fn absorbed_count(k: nat, base: nat, cap: nat) -> nat {
    if base >= cap {
        0
    } else if k <= cap - base {
        k
    } else {
        (cap - base) as nat
    }
}

pub struct AccountGeneratorCreator {
    pub txn_factory: TransactionFactory,
    pub add_created_accounts_to_pool: bool,
    pub max_account_working_set: usize,
    pub creation_balance: u64,
}

impl AccountGeneratorCreator {
    pub fn new(
        txn_factory: TransactionFactory,
        add_created_accounts_to_pool: bool,
        max_account_working_set: usize,
        creation_balance: u64,
    ) -> (c: Self)
        ensures
            c == (AccountGeneratorCreator {
                txn_factory,
                add_created_accounts_to_pool,
                max_account_working_set,
                creation_balance,
            }),
    {
        AccountGeneratorCreator {
            txn_factory,
            add_created_accounts_to_pool,
            max_account_working_set,
            creation_balance,
        }
    }

    pub fn create_transaction_generator(&self, rng: rand::rngs::StdRng) -> (g: AccountGenerator)
        ensures
            g.txn_factory == self.txn_factory,
            g.add_created_accounts_to_pool == self.add_created_accounts_to_pool,
            g.max_account_working_set == self.max_account_working_set,
            g.creation_balance == self.creation_balance,
    {
        AccountGenerator {
            rng,
            txn_factory: self.txn_factory,
            add_created_accounts_to_pool: self.add_created_accounts_to_pool,
            max_account_working_set: self.max_account_working_set,
            creation_balance: self.creation_balance,
        }
    }
}

pub struct AccountGenerator {
    pub rng: rand::rngs::StdRng,
    pub txn_factory: TransactionFactory,
    pub add_created_accounts_to_pool: bool,
    pub max_account_working_set: usize,
    pub creation_balance: u64,
}

impl AccountGenerator {
    /// Account-creation transactions with the configured initial balance.
    /// Every created address is appended to the address pool; created
    /// accounts are pooled only while the pool is below the working-set cap,
    /// so the pool never grows beyond `max(its old size, the cap)`.
    pub fn generate_transactions(
        &mut self,
        addresses: &mut AddressPool,
        account_pool: &mut AccountPool,
        accounts: &mut Vec<SigningAccount>,
        transactions_per_account: usize,
    ) -> (result: Vec<SignedTransaction>)
        ensures
            accounts_advanced(old(accounts)@, final(accounts)@, transactions_per_account as nat),
            batch_well_formed(
                result@,
                old(accounts)@,
                old(self).txn_factory,
                transactions_per_account as nat,
            ),
            forall|m: int|
                0 <= m < result@.len() ==> match (#[trigger] result@[m]).payload {
                    TransactionPayload::CreateAccount { new_address, initial_balance, .. } => {
                        new_address != 0 && initial_balance == old(self).creation_balance
                    },
                    _ => false,
                },
            result@.len() <= old(accounts)@.len() * transactions_per_account,
            final(addresses)@ == old(addresses)@ + result@.map_values(
                |t: SignedTransaction| created_address(t),
            ),
            old(self).add_created_accounts_to_pool ==> final(account_pool)@ == old(account_pool)@
                + Seq::new(
                absorbed_count(
                    result@.len(),
                    old(account_pool)@.len(),
                    old(self).max_account_working_set as nat,
                ),
                |m: int| created_account(result@[m]),
            ),
            !old(self).add_created_accounts_to_pool ==> final(account_pool)@ == old(
                account_pool,
            )@,
            final(account_pool)@.len() <= if old(account_pool)@.len()
                >= old(self).max_account_working_set as nat {
                old(account_pool)@.len()
            } else {
                old(self).max_account_working_set as nat
            },
            final(self).txn_factory == old(self).txn_factory,
            final(self).add_created_accounts_to_pool == old(self).add_created_accounts_to_pool,
            final(self).max_account_working_set == old(self).max_account_working_set,
            final(self).creation_balance == old(self).creation_balance,
    {
        let ghost accs0 = accounts@;
        let tpa = transactions_per_account;
        let n = accounts.len();
        let mut rows: Vec<Vec<TransactionPayload>> = Vec::new();
        let mut i: usize = 0;
        while i < n
            invariant
                0 <= i <= n,
                rows@.len() == i,
                self.txn_factory == old(self).txn_factory,
                self.add_created_accounts_to_pool == old(self).add_created_accounts_to_pool,
                self.max_account_working_set == old(self).max_account_working_set,
                self.creation_balance == old(self).creation_balance,
                forall|m: int| 0 <= m < i ==> #[trigger] rows@[m]@.len() == tpa,
                forall|m: int, j: int|
                    0 <= m < i && 0 <= j < tpa ==> match #[trigger] rows@[m]@[j] {
                        TransactionPayload::CreateAccount { new_address, initial_balance, .. } => {
                            new_address != 0 && initial_balance == self.creation_balance
                        },
                        _ => false,
                    },
            decreases n - i,
        {
            let mut row: Vec<TransactionPayload> = Vec::new();
            let mut j: usize = 0;
            while j < tpa
                invariant
                    0 <= j <= tpa,
                    row@.len() == j,
                    self.txn_factory == old(self).txn_factory,
                    self.add_created_accounts_to_pool == old(self).add_created_accounts_to_pool,
                    self.max_account_working_set == old(self).max_account_working_set,
                    self.creation_balance == old(self).creation_balance,
                    forall|jj: int|
                        0 <= jj < j ==> match #[trigger] row@[jj] {
                            TransactionPayload::CreateAccount {
                                new_address,
                                initial_balance,
                                ..
                            } => { new_address != 0 && initial_balance == self.creation_balance },
                            _ => false,
                        },
                decreases tpa - j,
            {
                let new_address = rand_below(&mut self.rng, u64::MAX) + 1;
                let auth_key = rand_below(&mut self.rng, u64::MAX);
                row.push(
                    TransactionPayload::CreateAccount {
                        new_address,
                        auth_key,
                        initial_balance: self.creation_balance,
                    },
                );
                j = j + 1;
            }
            rows.push(row);
            i = i + 1;
        }
        let factory = self.txn_factory;
        let result = sign_all(&factory, accounts, &rows);
        proof {
            lemma_total_uniform_rows(accs0, rows@, tpa as nat);
            lemma_total_uniform_bounded(accs0, tpa as nat);
            assert forall|ii: int, j: int|
                0 <= ii < accs0.len() && 0 <= j < cap_count(
                    accs0[ii].sequence_number,
                    tpa as nat,
                ) implies #[trigger] batch_txn(result@, accs0, tpa as nat, ii, j) == spec_signed(
                factory,
                accs0[ii],
                j as nat,
                batch_txn(result@, accs0, tpa as nat, ii, j).payload,
            ) && match batch_txn(result@, accs0, tpa as nat, ii, j).payload {
                TransactionPayload::CreateAccount { new_address, initial_balance, .. } => {
                    new_address != 0 && initial_balance == self.creation_balance
                },
                _ => false,
            } by {
                lemma_offset_uniform_rows(accs0, rows@, tpa as nat, ii);
                assert(rows@[ii]@.len() == tpa);
                assert(result@[crate::transaction::block_offset(accs0, rows@, ii) + j]
                    == spec_signed(factory, accs0[ii], j as nat, rows@[ii]@[j]));
            }
            assert forall|m: int| 0 <= m < result@.len() implies match (#[trigger] result@[m]).payload {
                TransactionPayload::CreateAccount { new_address, initial_balance, .. } => {
                    new_address != 0 && initial_balance == self.creation_balance
                },
                _ => false,
            } by {
                let (bi, bj) = lemma_batch_index(accs0, tpa as nat, m);
                assert(batch_txn(result@, accs0, tpa as nat, bi, bj) == result@[m]);
            }
        }
        self.deposit_created(addresses, account_pool, &result);
        result
    }

    /// Appends every created address to the address pool and deposits the
    /// created accounts into the account pool while it is below the cap.
    fn deposit_created(
        &self,
        addresses: &mut AddressPool,
        account_pool: &mut AccountPool,
        result: &Vec<SignedTransaction>,
    )
        requires
            forall|m: int|
                0 <= m < result@.len() ==> (#[trigger] result@[m]).payload matches TransactionPayload::CreateAccount { .. },
        ensures
            final(addresses)@ == old(addresses)@ + result@.map_values(
                |t: SignedTransaction| created_address(t),
            ),
            self.add_created_accounts_to_pool ==> final(account_pool)@ == old(account_pool)@
                + Seq::new(
                absorbed_count(
                    result@.len(),
                    old(account_pool)@.len(),
                    self.max_account_working_set as nat,
                ),
                |m: int| created_account(result@[m]),
            ),
            !self.add_created_accounts_to_pool ==> final(account_pool)@ == old(account_pool)@,
            final(account_pool)@.len() <= if old(account_pool)@.len()
                >= self.max_account_working_set as nat {
                old(account_pool)@.len()
            } else {
                self.max_account_working_set as nat
            },
    {
        let ghost base = account_pool@.len();
        let ghost addr0 = addresses@;
        let k = result.len();
        let mut m: usize = 0;
        while m < k
            invariant
                0 <= m <= k,
                k == result@.len(),
                forall|mm: int|
                    0 <= mm < result@.len() ==> (#[trigger] result@[mm]).payload matches TransactionPayload::CreateAccount { .. },
                addresses@ =~= addr0 + result@.take(m as int).map_values(
                    |t: SignedTransaction| created_address(t),
                ),
                self.add_created_accounts_to_pool ==> account_pool@ =~= old(account_pool)@
                    + Seq::new(
                    absorbed_count(m as nat, base, self.max_account_working_set as nat),
                    |mm: int| created_account(result@[mm]),
                ),
                !self.add_created_accounts_to_pool ==> account_pool@ == old(account_pool)@,
                base == old(account_pool)@.len(),
            decreases k - m,
        {
            let txn = result[m];
            match txn.payload {
                TransactionPayload::CreateAccount { new_address, auth_key, initial_balance: _ } => {
                    addresses.push(new_address);
                    if self.add_created_accounts_to_pool && account_pool.len()
                        < self.max_account_working_set {
                        account_pool.push(
                            SigningAccount { address: new_address, key: auth_key, sequence_number: 0 },
                        );
                    }
                },
                _ => {},
            }
            m = m + 1;
            proof {
                assert(result@.take(m as int).map_values(
                    |t: SignedTransaction| created_address(t),
                ) =~= result@.take(m - 1).map_values(|t: SignedTransaction| created_address(t)).push(
                    created_address(result@[m - 1]),
                ));
            }
        }
        proof {
            assert(result@.take(k as int) =~= result@);
        }
    }
}

} // verus!
