//! Uniform dispatch over the concrete strategies: a tagged-variant
//! generator and its creator, keyed by workload configuration.

use vstd::prelude::*;

use crate::account::SigningAccount;
use crate::account_generator::{
    absorbed_count, created_account, created_address, AccountGenerator, AccountGeneratorCreator,
};
use crate::call_custom_modules::{
    call_payload_ok, CallCustomModulesCreator, CallCustomModulesGenerator,
};
use crate::nft_mint_and_transfer::{
    nft_slot_payload, NFTMintAndTransferGenerator, NFTMintAndTransferGeneratorCreator,
};
use crate::p2p_transaction_generator::{
    p2p_payload_ok, P2PTransactionGenerator, P2PTransactionGeneratorCreator,
};
use crate::pools::{AccountPool, AddressPool};
use crate::publish_modules::{PublishPackageCreator, PublishPackageGenerator};
use crate::transaction::{
    accounts_advanced, batch_txn, batch_well_formed, cap_count, SignedTransaction,
    TransactionPayload,
};

verus! {

/// A stateful, per-worker strategy instance: turns a batch of exclusively
/// held accounts into signed transactions.
pub enum TransactionGenerator {
    CoinTransfer(P2PTransactionGenerator),
    AccountGeneration(AccountGenerator),
    NftMintAndTransfer(NFTMintAndTransferGenerator),
    PublishPackage(PublishPackageGenerator),
    CallCustomModules(CallCustomModulesGenerator),
}

/// What a strategy needs of the shared state before it can generate: only
/// the coin-transfer strategy samples the address pool, so only it needs
/// the pool non-empty.
pub open spec fn generate_requires(g: TransactionGenerator, addresses: Seq<u64>) -> bool {
    match g {
        TransactionGenerator::CoinTransfer(_) => addresses.len() > 0,
        _ => true,
    }
}

/// The full relational contract of one generation call, by strategy. The
/// `pre`/`post` pairs are the generator, the address pool, the account pool
/// and the held accounts before and after the call.
pub open spec fn generate_ensures(
    pre: TransactionGenerator,
    post: TransactionGenerator,
    addr_pre: Seq<u64>,
    addr_post: Seq<u64>,
    pool_pre: Seq<SigningAccount>,
    pool_post: Seq<SigningAccount>,
    accs_pre: Seq<SigningAccount>,
    accs_post: Seq<SigningAccount>,
    tpa: nat,
    result: Seq<SignedTransaction>,
) -> bool {
    match pre {
        TransactionGenerator::CoinTransfer(g) => {
            &&& post matches TransactionGenerator::CoinTransfer(g2) && g2.txn_factory
                == g.txn_factory && g2.send_amount == g.send_amount
                && g2.invalid_transaction_ratio == g.invalid_transaction_ratio
            &&& addr_post == addr_pre
            &&& pool_post == pool_pre
            &&& accounts_advanced(accs_pre, accs_post, tpa)
            &&& batch_well_formed(result, accs_pre, g.txn_factory, tpa)
            &&& forall|m: int|
                0 <= m < result.len() ==> p2p_payload_ok(
                    (#[trigger] result[m]).payload,
                    addr_pre,
                    g.send_amount,
                    g.invalid_transaction_ratio as nat,
                )
        },
        TransactionGenerator::AccountGeneration(g) => {
            &&& post matches TransactionGenerator::AccountGeneration(g2) && g2.txn_factory
                == g.txn_factory && g2.add_created_accounts_to_pool
                == g.add_created_accounts_to_pool && g2.max_account_working_set
                == g.max_account_working_set && g2.creation_balance == g.creation_balance
            &&& accounts_advanced(accs_pre, accs_post, tpa)
            &&& batch_well_formed(result, accs_pre, g.txn_factory, tpa)
            &&& forall|m: int|
                0 <= m < result.len() ==> match (#[trigger] result[m]).payload {
                    TransactionPayload::CreateAccount { new_address, initial_balance, .. } => {
                        new_address != 0 && initial_balance == g.creation_balance
                    },
                    _ => false,
                }
            &&& addr_post == addr_pre + result.map_values(
                |t: SignedTransaction| created_address(t),
            )
            &&& g.add_created_accounts_to_pool ==> pool_post == pool_pre + Seq::new(
                absorbed_count(result.len(), pool_pre.len(), g.max_account_working_set as nat),
                |m: int| created_account(result[m]),
            )
            &&& !g.add_created_accounts_to_pool ==> pool_post == pool_pre
            &&& pool_post.len() <= if pool_pre.len() >= g.max_account_working_set as nat {
                pool_pre.len()
            } else {
                g.max_account_working_set as nat
            }
        },
        TransactionGenerator::NftMintAndTransfer(g) => {
            &&& post matches TransactionGenerator::NftMintAndTransfer(g2) && g2 == g
            &&& addr_post == addr_pre
            &&& pool_post == pool_pre
            &&& accounts_advanced(accs_pre, accs_post, tpa)
            &&& batch_well_formed(result, accs_pre, g.txn_factory, tpa)
            &&& forall|i: int, j: int|
                0 <= i < accs_pre.len() && 0 <= j < cap_count(accs_pre[i].sequence_number, tpa)
                    ==> (#[trigger] batch_txn(result, accs_pre, tpa, i, j)).payload
                    == nft_slot_payload(g.minter, j)
        },
        TransactionGenerator::PublishPackage(g) => {
            &&& post matches TransactionGenerator::PublishPackage(g2) && g2 == g
            &&& addr_post == addr_pre
            &&& pool_post == pool_pre
            &&& accounts_advanced(accs_pre, accs_post, 1)
            &&& batch_well_formed(result, accs_pre, g.txn_factory, 1)
            &&& forall|m: int|
                0 <= m < result.len() ==> (#[trigger] result[m]).payload
                    == (TransactionPayload::PublishPackage { package: 0 })
            &&& result.len() <= accs_pre.len()
        },
        TransactionGenerator::CallCustomModules(g) => {
            &&& post matches TransactionGenerator::CallCustomModules(g2) && g2.txn_factory
                == g.txn_factory && g2.modules@ == g.modules@ && g2.entry_point == g.entry_point
            &&& addr_post == addr_pre
            &&& pool_post == pool_pre
            &&& g.modules@.len() == 0 ==> result.len() == 0 && accs_post == accs_pre
            &&& g.modules@.len() > 0 ==> {
                &&& accounts_advanced(accs_pre, accs_post, tpa)
                &&& batch_well_formed(result, accs_pre, g.txn_factory, tpa)
                &&& forall|m: int|
                    0 <= m < result.len() ==> call_payload_ok(
                        (#[trigger] result[m]).payload,
                        g.modules@,
                        g.entry_point,
                    )
            }
        },
    }
}

impl TransactionGenerator {
    /// Routes one generation call to the strategy this generator embodies.
    /// Synchronous and non-suspending; never more than
    /// `transactions_per_account × accounts.len()` transactions come back.
    pub fn generate_transactions(
        &mut self,
        addresses: &mut AddressPool,
        account_pool: &mut AccountPool,
        accounts: &mut Vec<SigningAccount>,
        transactions_per_account: usize,
    ) -> (result: Vec<SignedTransaction>)
        requires
            generate_requires(*old(self), old(addresses)@),
        ensures
            generate_ensures(
                *old(self),
                *final(self),
                old(addresses)@,
                final(addresses)@,
                old(account_pool)@,
                final(account_pool)@,
                old(accounts)@,
                final(accounts)@,
                transactions_per_account as nat,
                result@,
            ),
            transactions_per_account >= 1 ==> result@.len() <= old(accounts)@.len()
                * transactions_per_account,
    {
        let ghost n0 = accounts@.len();
        let ghost tpa = transactions_per_account as nat;
        let result = match self {
            TransactionGenerator::CoinTransfer(g) => g.generate_transactions(
                addresses,
                accounts,
                transactions_per_account,
            ),
            TransactionGenerator::AccountGeneration(g) => g.generate_transactions(
                addresses,
                account_pool,
                accounts,
                transactions_per_account,
            ),
            TransactionGenerator::NftMintAndTransfer(g) => g.generate_transactions(
                accounts,
                transactions_per_account,
            ),
            TransactionGenerator::PublishPackage(g) => g.generate_transactions(
                accounts,
                transactions_per_account,
            ),
            TransactionGenerator::CallCustomModules(g) => g.generate_transactions(
                accounts,
                transactions_per_account,
            ),
        };
        proof {
            if transactions_per_account >= 1 {
                assert(n0 * 1 <= n0 * transactions_per_account) by (nonlinear_arith)
                    requires transactions_per_account >= 1, n0 >= 0;
            }
        }
        result
    }
}

/// The creator of one strategy instance: an asynchronous factory in the
/// surrounding harness; any one-time on-chain setup it needed has already
/// happened when the creator value exists.
pub enum TransactionGeneratorCreator {
    CoinTransfer(P2PTransactionGeneratorCreator),
    AccountGeneration(AccountGeneratorCreator),
    NftMintAndTransfer(NFTMintAndTransferGeneratorCreator),
    PublishPackage(PublishPackageCreator),
    CallCustomModules(CallCustomModulesCreator),
}

/// A generator carries exactly the configuration of the creator that built
/// it.
pub open spec fn creator_matches(c: TransactionGeneratorCreator, g: TransactionGenerator) -> bool {
    match (c, g) {
        (
            TransactionGeneratorCreator::CoinTransfer(c),
            TransactionGenerator::CoinTransfer(g),
        ) => g.txn_factory == c.txn_factory && g.send_amount == c.amount
            && g.invalid_transaction_ratio == c.invalid_transaction_ratio,
        (
            TransactionGeneratorCreator::AccountGeneration(c),
            TransactionGenerator::AccountGeneration(g),
        ) => g.txn_factory == c.txn_factory && g.add_created_accounts_to_pool
            == c.add_created_accounts_to_pool && g.max_account_working_set
            == c.max_account_working_set && g.creation_balance == c.creation_balance,
        (
            TransactionGeneratorCreator::NftMintAndTransfer(c),
            TransactionGenerator::NftMintAndTransfer(g),
        ) => g.txn_factory == c.txn_factory && g.minter == c.minter,
        (
            TransactionGeneratorCreator::PublishPackage(c),
            TransactionGenerator::PublishPackage(g),
        ) => g.txn_factory == c.txn_factory,
        (
            TransactionGeneratorCreator::CallCustomModules(c),
            TransactionGenerator::CallCustomModules(g),
        ) => g.txn_factory == c.txn_factory && g.modules@ == c.modules@ && g.entry_point
            == c.entry_point,
        _ => false,
    }
}

impl TransactionGeneratorCreator {
    /// Builds one generator for a worker; the given generator owns its own
    /// source of randomness.
    pub fn create_transaction_generator(&self, rng: rand::rngs::StdRng) -> (g: TransactionGenerator)
        ensures
            creator_matches(*self, g),
    {
        match self {
            TransactionGeneratorCreator::CoinTransfer(c) => TransactionGenerator::CoinTransfer(
                c.create_transaction_generator(rng),
            ),
            TransactionGeneratorCreator::AccountGeneration(
                c,
            ) => TransactionGenerator::AccountGeneration(c.create_transaction_generator(rng)),
            TransactionGeneratorCreator::NftMintAndTransfer(
                c,
            ) => TransactionGenerator::NftMintAndTransfer(c.create_transaction_generator()),
            TransactionGeneratorCreator::PublishPackage(c) => TransactionGenerator::PublishPackage(
                c.create_transaction_generator(),
            ),
            TransactionGeneratorCreator::CallCustomModules(
                c,
            ) => TransactionGenerator::CallCustomModules(c.create_transaction_generator(rng)),
        }
    }
}

} // verus!
