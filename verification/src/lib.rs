//! Synthetic-workload generation for benchmarking a ledger's execution
//! pipeline: pluggable transaction-production strategies behind a uniform
//! interface, shared pools of signing accounts, a probabilistic phase-aware
//! scheduling policy over the strategies, and a minimal consistency protocol
//! that lets on-chain setup complete before dependent traffic is generated.

pub mod account;
pub mod account_generator;
pub mod accounts_pool_wrapper;
pub mod call_custom_modules;
pub mod executor;
pub mod generator;
pub mod module_simple;
pub mod nft_mint_and_transfer;
pub mod node_config;
pub mod p2p_transaction_generator;
pub mod pools;
pub mod publish_modules;
pub mod rng;
pub mod transaction;
pub mod transaction_context;
pub mod transaction_mix_generator;
pub mod type_accessor;

pub use module_simple::EntryPoints;

use vstd::prelude::*;

use crate::account::SigningAccount;
use crate::account_generator::AccountGeneratorCreator;
use crate::accounts_pool_wrapper::AccountsPoolWrapperCreator;
use crate::call_custom_modules::CallCustomModulesCreator;
use crate::executor::{ExecutionError, TransactionExecutor};
use crate::generator::TransactionGeneratorCreator;
use crate::nft_mint_and_transfer::NFTMintAndTransferGeneratorCreator;
use crate::p2p_transaction_generator::P2PTransactionGeneratorCreator;
use crate::pools::{AccountPool, AddressPool};
use crate::publish_modules::PublishPackageCreator;
use crate::transaction::TransactionFactory;
use crate::transaction_mix_generator::{
    PhasedTxnMixGeneratorCreator, WorkloadGeneratorCreator,
};

verus! {

/// Amount moved by every peer-to-peer transfer.
pub const SEND_AMOUNT: u64 = 1;

/// Workload configuration: one variant per transaction-production strategy.
#[derive(Debug, Copy, Clone)]
pub enum TransactionType {
    CoinTransfer { invalid_transaction_ratio: usize, sender_use_account_pool: bool },
    AccountGeneration {
        add_created_accounts_to_pool: bool,
        max_account_working_set: usize,
        creation_balance: u64,
    },
    NftMintAndTransfer,
    PublishPackage { use_account_pool: bool },
    CallCustomModules { entry_point: EntryPoints, num_modules: usize, use_account_pool: bool },
}

impl TransactionType {
    pub fn default_coin_transfer() -> (t: Self)
        ensures
            t == (TransactionType::CoinTransfer {
                invalid_transaction_ratio: 0,
                sender_use_account_pool: false,
            }),
    {
        Self::CoinTransfer { invalid_transaction_ratio: 0, sender_use_account_pool: false }
    }

    pub fn default_account_generation() -> (t: Self)
        ensures
            t == (TransactionType::AccountGeneration {
                add_created_accounts_to_pool: true,
                max_account_working_set: 1_000_000,
                creation_balance: 0,
            }),
    {
        Self::AccountGeneration {
            add_created_accounts_to_pool: true,
            max_account_working_set: 1_000_000,
            creation_balance: 0,
        }
    }

    pub fn default_call_custom_module() -> (t: Self)
        ensures
            t == (TransactionType::CallCustomModules {
                entry_point: EntryPoints::Nop,
                num_modules: 1,
                use_account_pool: false,
            }),
    {
        Self::CallCustomModules {
            entry_point: EntryPoints::Nop,
            num_modules: 1,
            use_account_pool: false,
        }
    }

    pub fn default_call_different_modules() -> (t: Self)
        ensures
            t == (TransactionType::CallCustomModules {
                entry_point: EntryPoints::Nop,
                num_modules: 100,
                use_account_pool: false,
            }),
    {
        Self::CallCustomModules {
            entry_point: EntryPoints::Nop,
            num_modules: 100,
            use_account_pool: false,
        }
    }
}

impl Default for TransactionType {
    fn default() -> (t: Self)
        ensures
            t == (TransactionType::CoinTransfer {
                invalid_transaction_ratio: 0,
                sender_use_account_pool: false,
            }),
    {
        Self::default_coin_transfer()
    }
}

/// Whether this workload draws its sender accounts from the account pool.
pub open spec fn uses_pool(t: TransactionType) -> bool {
    match t {
        TransactionType::CoinTransfer { sender_use_account_pool, .. } => sender_use_account_pool,
        TransactionType::PublishPackage { use_account_pool } => use_account_pool,
        TransactionType::CallCustomModules { use_account_pool, .. } => use_account_pool,
        _ => false,
    }
}

/// The strategy creator a workload configuration is assembled into.
pub open spec fn inner_creator_for_config(
    t: TransactionType,
    c: TransactionGeneratorCreator,
    txn_factory: TransactionFactory,
    sources: Seq<SigningAccount>,
    num_workers: usize,
) -> bool {
    match t {
        TransactionType::CoinTransfer { invalid_transaction_ratio, .. } => c
            matches TransactionGeneratorCreator::CoinTransfer(p) && p.txn_factory == txn_factory
            && p.amount == SEND_AMOUNT && p.invalid_transaction_ratio
            == invalid_transaction_ratio,
        TransactionType::AccountGeneration {
            add_created_accounts_to_pool,
            max_account_working_set,
            creation_balance,
        } => c matches TransactionGeneratorCreator::AccountGeneration(a) && a.txn_factory
            == txn_factory && a.add_created_accounts_to_pool == add_created_accounts_to_pool
            && a.max_account_working_set == max_account_working_set && a.creation_balance
            == creation_balance,
        TransactionType::NftMintAndTransfer => c
            matches TransactionGeneratorCreator::NftMintAndTransfer(n) && n.txn_factory
            == txn_factory && n.minter == sources[0].address && n.num_workers == num_workers,
        TransactionType::PublishPackage { .. } => c
            matches TransactionGeneratorCreator::PublishPackage(p) && p.txn_factory == txn_factory,
        TransactionType::CallCustomModules { entry_point, num_modules, .. } => c
            matches TransactionGeneratorCreator::CallCustomModules(m) && m.txn_factory
            == txn_factory && m.entry_point == entry_point && forall|i: int|
            0 <= i < m.modules@.len() ==> (#[trigger] m.modules@[i]).1 < num_modules
                && sources.map_values(|a: SigningAccount| a.address).contains(m.modules@[i].0),
    }
}

/// Whether assembling this workload performs one-time on-chain setup
/// through the execution capability. Only such a workload can make the
/// assembly fail.
pub open spec fn config_performs_setup(t: TransactionType) -> bool {
    match t {
        TransactionType::NftMintAndTransfer => true,
        TransactionType::CallCustomModules { .. } => true,
        _ => false,
    }
}

/// Whether any entry of any phase performs one-time on-chain setup.
pub open spec fn mix_performs_setup(mix: Seq<Vec<(TransactionType, usize)>>) -> bool {
    exists|p: int, e: int|
        0 <= p < mix.len() && 0 <= e < mix[p]@.len() && config_performs_setup(
            (#[trigger] mix[p]@[e]).0,
        )
}

/// The mix entry a workload configuration is assembled into: the strategy's
/// creator, pool-wrapped exactly when the configuration asks for it.
pub open spec fn creator_for_config(
    t: TransactionType,
    c: WorkloadGeneratorCreator,
    txn_factory: TransactionFactory,
    sources: Seq<SigningAccount>,
    num_workers: usize,
) -> bool {
    if uses_pool(t) {
        c matches WorkloadGeneratorCreator::PoolBacked(w) && inner_creator_for_config(
            t,
            w.inner,
            txn_factory,
            sources,
            num_workers,
        )
    } else {
        c matches WorkloadGeneratorCreator::Direct(i) && inner_creator_for_config(
            t,
            i,
            txn_factory,
            sources,
            num_workers,
        )
    }
}

/// Top-level assembly: builds, per phase, the weighted list of strategy
/// creators the configuration asks for — performing each strategy's
/// one-time on-chain setup through the execution capability, whose
/// submission call blocks until the setup is confirmed — wraps each in the
/// pool-backed decorator where configured, and composes them into one
/// phased mix creator. Also hands back the address pool, seeded with the
/// source accounts' addresses, and the (initially empty) account pool, for
/// external inspection and seeding. A setup failure of the execution
/// backend is fatal and propagates.
pub fn create_txn_generator_creator<E: TransactionExecutor>(
    transaction_mix_per_phase: &Vec<Vec<(TransactionType, usize)>>,
    num_workers: usize,
    source_accounts: &mut Vec<SigningAccount>,
    txn_executor: &E,
    txn_factory: &TransactionFactory,
    init_txn_factory: &TransactionFactory,
    rng: rand::rngs::StdRng,
) -> (r: Result<(PhasedTxnMixGeneratorCreator, AddressPool, AccountPool), ExecutionError>)
    requires
        forall|p: int, e: int|
            (0 <= p < transaction_mix_per_phase@.len() && 0 <= e
                < transaction_mix_per_phase@[p]@.len() && (#[trigger] transaction_mix_per_phase@[p]@[e]).0
                matches TransactionType::NftMintAndTransfer) ==> old(source_accounts)@.len() > 0,
    ensures
        final(source_accounts)@.len() == old(source_accounts)@.len(),
        forall|i: int|
            0 <= i < old(source_accounts)@.len() ==> (#[trigger] final(source_accounts)@[i]).address
                == old(source_accounts)@[i].address && final(source_accounts)@[i].key == old(
                source_accounts,
            )@[i].key,
        !mix_performs_setup(transaction_mix_per_phase@) ==> r is Ok,
        r matches Ok(v) ==> {
            &&& v.1@ == old(source_accounts)@.map_values(|a: SigningAccount| a.address)
            &&& v.2@ == Seq::<SigningAccount>::empty()
            &&& v.0.txn_generator_creator_mix_per_phase@.len()
                == transaction_mix_per_phase@.len()
            &&& forall|p: int|
                0 <= p < transaction_mix_per_phase@.len() ==> (
                #[trigger] v.0.txn_generator_creator_mix_per_phase@[p])@.len()
                    == transaction_mix_per_phase@[p]@.len()
            &&& forall|p: int, e: int|
                0 <= p < transaction_mix_per_phase@.len() && 0 <= e
                    < transaction_mix_per_phase@[p]@.len() ==> {
                    &&& (#[trigger] v.0.txn_generator_creator_mix_per_phase@[p]@[e]).1
                        == transaction_mix_per_phase@[p]@[e].1
                    &&& creator_for_config(
                        transaction_mix_per_phase@[p]@[e].0,
                        v.0.txn_generator_creator_mix_per_phase@[p]@[e].0,
                        *txn_factory,
                        old(source_accounts)@,
                        num_workers,
                    )
                }
        },
{
    let ghost sources0 = source_accounts@;
    let mut addresses: Vec<u64> = Vec::new();
    let n_sources = source_accounts.len();
    let mut s: usize = 0;
    while s < n_sources
        invariant
            0 <= s <= n_sources,
            n_sources == source_accounts@.len(),
            source_accounts@ == sources0,
            addresses@.len() == s,
            forall|i: int| 0 <= i < s ==> addresses@[i] == sources0[i].address,
        decreases n_sources - s,
    {
        addresses.push(source_accounts[s].address);
        s = s + 1;
    }
    proof {
        assert(addresses@ =~= sources0.map_values(|a: SigningAccount| a.address));
    }
    let addresses_pool = AddressPool::new(addresses);
    let accounts_pool = AccountPool::new();

    let num_phases = transaction_mix_per_phase.len();
    let mut creator_mix_per_phase: Vec<Vec<(WorkloadGeneratorCreator, usize)>> = Vec::new();
    let mut p: usize = 0;
    while p < num_phases
        invariant
            0 <= p <= num_phases,
            num_phases == transaction_mix_per_phase@.len(),
            sources0 == old(source_accounts)@,
            source_accounts@.len() == sources0.len(),
            forall|i: int|
                0 <= i < sources0.len() ==> (#[trigger] source_accounts@[i]).address
                    == sources0[i].address && source_accounts@[i].key == sources0[i].key,
            forall|pp: int, e: int|
                (0 <= pp < transaction_mix_per_phase@.len() && 0 <= e
                    < transaction_mix_per_phase@[pp]@.len() && (
                #[trigger] transaction_mix_per_phase@[pp]@[e]).0
                    matches TransactionType::NftMintAndTransfer) ==> sources0.len() > 0,
            creator_mix_per_phase@.len() == p,
            forall|pp: int|
                0 <= pp < p ==> (#[trigger] creator_mix_per_phase@[pp])@.len()
                    == transaction_mix_per_phase@[pp]@.len(),
            forall|pp: int, e: int|
                0 <= pp < p && 0 <= e < transaction_mix_per_phase@[pp]@.len() ==> {
                    &&& (#[trigger] creator_mix_per_phase@[pp]@[e]).1
                        == transaction_mix_per_phase@[pp]@[e].1
                    &&& creator_for_config(
                        transaction_mix_per_phase@[pp]@[e].0,
                        creator_mix_per_phase@[pp]@[e].0,
                        *txn_factory,
                        sources0,
                        num_workers,
                    )
                },
        decreases num_phases - p,
    {
        let phase_len = transaction_mix_per_phase[p].len();
        let mut phase_creators: Vec<(WorkloadGeneratorCreator, usize)> = Vec::new();
        let mut e: usize = 0;
        while e < phase_len
            invariant
                0 <= e <= phase_len,
                p < transaction_mix_per_phase@.len(),
                phase_len == transaction_mix_per_phase@[p as int]@.len(),
                sources0 == old(source_accounts)@,
                source_accounts@.len() == sources0.len(),
                forall|i: int|
                    0 <= i < sources0.len() ==> (#[trigger] source_accounts@[i]).address
                        == sources0[i].address && source_accounts@[i].key == sources0[i].key,
                forall|pp: int, ee: int|
                    (0 <= pp < transaction_mix_per_phase@.len() && 0 <= ee
                        < transaction_mix_per_phase@[pp]@.len() && (
                    #[trigger] transaction_mix_per_phase@[pp]@[ee]).0
                        matches TransactionType::NftMintAndTransfer) ==> sources0.len() > 0,
                phase_creators@.len() == e,
                forall|ee: int|
                    0 <= ee < e ==> {
                        &&& (#[trigger] phase_creators@[ee]).1
                            == transaction_mix_per_phase@[p as int]@[ee].1
                        &&& creator_for_config(
                            transaction_mix_per_phase@[p as int]@[ee].0,
                            phase_creators@[ee].0,
                            *txn_factory,
                            sources0,
                            num_workers,
                        )
                    },
            decreases phase_len - e,
        {
            let entry = transaction_mix_per_phase[p][e];
            let transaction_type = entry.0;
            let weight = entry.1;
            let creator: WorkloadGeneratorCreator = match transaction_type {
                TransactionType::CoinTransfer {
                    invalid_transaction_ratio,
                    sender_use_account_pool,
                } => {
                    let inner = TransactionGeneratorCreator::CoinTransfer(
                        P2PTransactionGeneratorCreator::new(
                            *txn_factory,
                            SEND_AMOUNT,
                            invalid_transaction_ratio,
                        ),
                    );
                    if sender_use_account_pool {
                        WorkloadGeneratorCreator::PoolBacked(AccountsPoolWrapperCreator::new(inner))
                    } else {
                        WorkloadGeneratorCreator::Direct(inner)
                    }
                },
                TransactionType::AccountGeneration {
                    add_created_accounts_to_pool,
                    max_account_working_set,
                    creation_balance,
                } => WorkloadGeneratorCreator::Direct(
                    TransactionGeneratorCreator::AccountGeneration(
                        AccountGeneratorCreator::new(
                            *txn_factory,
                            add_created_accounts_to_pool,
                            max_account_working_set,
                            creation_balance,
                        ),
                    ),
                ),
                TransactionType::NftMintAndTransfer => {
                    let mut first = source_accounts[0];
                    let created = NFTMintAndTransferGeneratorCreator::new(
                        *txn_factory,
                        *init_txn_factory,
                        &mut first,
                        txn_executor,
                        num_workers,
                    );
                    let slot = vstd::std_specs::vec::vec_index_mut(source_accounts, 0);
                    *slot = first;
                    match created {
                        Ok(c) => WorkloadGeneratorCreator::Direct(
                            TransactionGeneratorCreator::NftMintAndTransfer(c),
                        ),
                        Err(err) => {
                            proof {
                                assert(config_performs_setup(
                                    transaction_mix_per_phase@[p as int]@[e as int].0,
                                ));
                            }
                            return Err(err);
                        },
                    }
                },
                TransactionType::PublishPackage { use_account_pool } => {
                    let inner = TransactionGeneratorCreator::PublishPackage(
                        PublishPackageCreator::new(*txn_factory),
                    );
                    if use_account_pool {
                        WorkloadGeneratorCreator::PoolBacked(AccountsPoolWrapperCreator::new(inner))
                    } else {
                        WorkloadGeneratorCreator::Direct(inner)
                    }
                },
                TransactionType::CallCustomModules {
                    entry_point,
                    num_modules,
                    use_account_pool,
                } => {
                    let ghost sources_pre = source_accounts@;
                    let created = CallCustomModulesCreator::new(
                        *txn_factory,
                        *init_txn_factory,
                        source_accounts,
                        txn_executor,
                        entry_point,
                        num_modules,
                    );
                    proof {
                        assert(sources_pre.map_values(|a: SigningAccount| a.address)
                            =~= sources0.map_values(|a: SigningAccount| a.address));
                    }
                    match created {
                        Ok(c) => {
                            let inner = TransactionGeneratorCreator::CallCustomModules(c);
                            if use_account_pool {
                                WorkloadGeneratorCreator::PoolBacked(
                                    AccountsPoolWrapperCreator::new(inner),
                                )
                            } else {
                                WorkloadGeneratorCreator::Direct(inner)
                            }
                        },
                        Err(err) => {
                            proof {
                                assert(config_performs_setup(
                                    transaction_mix_per_phase@[p as int]@[e as int].0,
                                ));
                            }
                            return Err(err);
                        },
                    }
                },
            };
            phase_creators.push((creator, weight));
            e = e + 1;
        }
        creator_mix_per_phase.push(phase_creators);
        p = p + 1;
    }
    Ok(
        (
            PhasedTxnMixGeneratorCreator::new(creator_mix_per_phase, rng),
            addresses_pool,
            accounts_pool,
        ),
    )
}

} // verus!
