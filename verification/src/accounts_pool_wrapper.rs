//! The pool-backed decorator: wraps any strategy so that sender accounts
//! are drawn from the shared account pool instead of the caller-supplied
//! set, and returned afterwards — except for accounts a structurally
//! consuming strategy (package publication) used up.

use vstd::prelude::*;

use crate::account::SigningAccount;
use crate::account_generator::{absorbed_count, created_account};
use crate::generator::{
    generate_ensures, generate_requires, TransactionGenerator, TransactionGeneratorCreator,
};
use crate::pools::{popped_of, rest_of, AccountPool, AddressPool};
use crate::transaction::{advanced_accounts, lemma_accounts_advanced_unique, SignedTransaction};

verus! {

/// Whether the wrapped strategy hands its accounts back to the pool.
pub open spec fn returns_accounts(g: TransactionGenerator) -> bool {
    !(g matches TransactionGenerator::PublishPackage(_))
}

/// What the granted accounts look like when the wrapped strategy is done
/// with them.
pub open spec fn wrapper_granted_post(
    inner: TransactionGenerator,
    granted: Seq<SigningAccount>,
    tpa: nat,
) -> Seq<SigningAccount> {
    match inner {
        TransactionGenerator::PublishPackage(_) => advanced_accounts(granted, 1),
        TransactionGenerator::CallCustomModules(g) => if g.modules@.len() == 0 {
            granted
        } else {
            advanced_accounts(granted, tpa)
        },
        _ => advanced_accounts(granted, tpa),
    }
}

/// What the account pool looks like after the wrapped strategy ran but
/// before the granted accounts are returned: only the account-generation
/// strategy deposits into it.
pub open spec fn wrapper_pool_mid(
    inner: TransactionGenerator,
    rest: Seq<SigningAccount>,
    result: Seq<SignedTransaction>,
) -> Seq<SigningAccount> {
    match inner {
        TransactionGenerator::AccountGeneration(g) => if g.add_created_accounts_to_pool {
            rest + Seq::new(
                absorbed_count(result.len(), rest.len(), g.max_account_working_set as nat),
                |m: int| created_account(result[m]),
            )
        } else {
            rest
        },
        _ => rest,
    }
}

pub struct AccountsPoolWrapperCreator {
    pub inner: TransactionGeneratorCreator,
}

impl AccountsPoolWrapperCreator {
    pub fn new(inner: TransactionGeneratorCreator) -> (c: Self)
        ensures
            c.inner == inner,
    {
        AccountsPoolWrapperCreator { inner }
    }

    pub fn create_transaction_generator(&self, rng: rand::rngs::StdRng) -> (g: AccountsPoolWrapperGenerator)
        ensures
            crate::generator::creator_matches(self.inner, g.inner),
    {
        AccountsPoolWrapperGenerator { inner: self.inner.create_transaction_generator(rng) }
    }
}

pub struct AccountsPoolWrapperGenerator {
    pub inner: TransactionGenerator,
}

impl AccountsPoolWrapperGenerator {
    /// Pops up to `accounts.len()` accounts from the pool under the
    /// caller's exclusive lock, runs the wrapped strategy on them in place
    /// of the caller-supplied accounts, and pushes them back — unless the
    /// strategy consumed them. If fewer accounts than requested are pooled
    /// the call proceeds with the smaller set; the caller's own accounts
    /// are never touched.
    pub fn generate_transactions(
        &mut self,
        addresses: &mut AddressPool,
        account_pool: &mut AccountPool,
        accounts: &mut Vec<SigningAccount>,
        transactions_per_account: usize,
    ) -> (result: Vec<SignedTransaction>)
        requires
            generate_requires(old(self).inner, old(addresses)@),
        ensures
            final(accounts)@ == old(accounts)@,
            generate_ensures(
                old(self).inner,
                final(self).inner,
                old(addresses)@,
                final(addresses)@,
                rest_of(old(account_pool)@, old(accounts)@.len() as nat),
                wrapper_pool_mid(
                    old(self).inner,
                    rest_of(old(account_pool)@, old(accounts)@.len() as nat),
                    result@,
                ),
                popped_of(old(account_pool)@, old(accounts)@.len() as nat),
                wrapper_granted_post(
                    old(self).inner,
                    popped_of(old(account_pool)@, old(accounts)@.len() as nat),
                    transactions_per_account as nat,
                ),
                transactions_per_account as nat,
                result@,
            ),
            final(account_pool)@ == if returns_accounts(old(self).inner) {
                wrapper_pool_mid(
                    old(self).inner,
                    rest_of(old(account_pool)@, old(accounts)@.len() as nat),
                    result@,
                ) + wrapper_granted_post(
                    old(self).inner,
                    popped_of(old(account_pool)@, old(accounts)@.len() as nat),
                    transactions_per_account as nat,
                )
            } else {
                wrapper_pool_mid(
                    old(self).inner,
                    rest_of(old(account_pool)@, old(accounts)@.len() as nat),
                    result@,
                )
            },
            transactions_per_account >= 1 ==> result@.len() <= old(accounts)@.len()
                * transactions_per_account,
    {
        let ghost pre_inner = self.inner;
        let n = accounts.len();
        let ghost pool0 = account_pool@;
        let mut granted: Vec<SigningAccount> = account_pool.pop_upto(n);
        let ghost granted0 = granted@;
        let ghost rest = account_pool@;
        let result = self.inner.generate_transactions(
            addresses,
            account_pool,
            &mut granted,
            transactions_per_account,
        );
        let ghost tpa = transactions_per_account as nat;
        proof {
            match pre_inner {
                TransactionGenerator::PublishPackage(_) => {
                    lemma_accounts_advanced_unique(granted0, granted@, 1);
                },
                TransactionGenerator::CallCustomModules(g) => {
                    if g.modules@.len() > 0 {
                        lemma_accounts_advanced_unique(granted0, granted@, tpa);
                    }
                },
                _ => {
                    lemma_accounts_advanced_unique(granted0, granted@, tpa);
                },
            }
            assert(granted@ =~= wrapper_granted_post(pre_inner, granted0, tpa));
            assert(account_pool@ == wrapper_pool_mid(pre_inner, rest, result@));
            if transactions_per_account >= 1 {
                assert(granted0.len() * transactions_per_account <= accounts@.len()
                    * transactions_per_account) by (nonlinear_arith)
                    requires granted0.len() <= accounts@.len(), transactions_per_account >= 0;
            }
        }
        let keep = match &self.inner {
            TransactionGenerator::PublishPackage(_) => false,
            _ => true,
        };
        if keep {
            let ghost mid = account_pool@;
            let k = granted.len();
            let mut m: usize = 0;
            while m < k
                invariant
                    0 <= m <= k,
                    k == granted@.len(),
                    account_pool@ == mid + granted@.take(m as int),
                decreases k - m,
            {
                account_pool.push(granted[m]);
                proof {
                    assert(mid + granted@.take(m + 1) =~= (mid + granted@.take(m as int)).push(
                        granted@[m as int],
                    ));
                }
                m = m + 1;
            }
            proof {
                assert(granted@.take(k as int) =~= granted@);
            }
        }
        result
    }
}

} // verus!
