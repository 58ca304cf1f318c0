use transaction_generator::account::SigningAccount;
use transaction_generator::call_custom_modules::CallCustomModulesCreator;
use transaction_generator::executor::{ExecutionError, TransactionExecutor};
use transaction_generator::module_simple::EntryPoints;
use transaction_generator::pools::{AccountPool, AddressPool};
use transaction_generator::rng::rng_from_seed;
use transaction_generator::transaction::{
    SignedTransaction, TransactionFactory, TransactionPayload,
};
use transaction_generator::{create_txn_generator_creator, TransactionType};

struct OkExecutor;

impl TransactionExecutor for OkExecutor {
    fn get_account_balance(&self, _account_address: u64) -> Result<u64, ExecutionError> {
        Ok(0)
    }

    fn query_sequence_number(&self, _account_address: u64) -> Result<u64, ExecutionError> {
        Ok(u64::MAX)
    }

    fn execute_transactions_with_counter(
        &self,
        _txns: &Vec<SignedTransaction>,
        _failure_counter: &mut Vec<u64>,
    ) -> Result<(), ExecutionError> {
        Ok(())
    }
}

struct FailingExecutor;

impl TransactionExecutor for FailingExecutor {
    fn get_account_balance(&self, _account_address: u64) -> Result<u64, ExecutionError> {
        Err(ExecutionError::Transport("backend down".to_string()))
    }

    fn query_sequence_number(&self, _account_address: u64) -> Result<u64, ExecutionError> {
        Err(ExecutionError::Transport("backend down".to_string()))
    }

    fn execute_transactions_with_counter(
        &self,
        _txns: &Vec<SignedTransaction>,
        _failure_counter: &mut Vec<u64>,
    ) -> Result<(), ExecutionError> {
        Err(ExecutionError::Transport("backend down".to_string()))
    }
}

fn accounts(n: u64, start_seq: u64) -> Vec<SigningAccount> {
    (0..n)
        .map(|i| SigningAccount::new(100 + i, 900 + i, start_seq))
        .collect()
}

/// Only workloads with one-time on-chain setup can make the assembly fail:
/// without such an entry the assembly succeeds whatever the backend does,
/// and with one a backend failure propagates and is fatal.
#[test]
fn assembly_fails_only_through_setup() {
    let factory = TransactionFactory::new(4);
    let no_setup = vec![vec![
        (TransactionType::default_coin_transfer(), 1usize),
        (TransactionType::PublishPackage { use_account_pool: true }, 1usize),
        (TransactionType::default_account_generation(), 1usize),
    ]];
    let mut sources = accounts(2, 0);
    assert!(create_txn_generator_creator(
        &no_setup,
        1,
        &mut sources,
        &FailingExecutor,
        &factory,
        &factory,
        rng_from_seed(3),
    )
    .is_ok());

    let with_setup = vec![vec![(TransactionType::default_call_custom_module(), 1usize)]];
    let mut sources = accounts(2, 0);
    assert!(matches!(
        create_txn_generator_creator(
            &with_setup,
            1,
            &mut sources,
            &FailingExecutor,
            &factory,
            &factory,
            rng_from_seed(3),
        ),
        Err(ExecutionError::Transport(_))
    ));
}

/// The recorded module table is exactly the publish batch: one entry per
/// setup transaction, in batch order, pairing each source account with the
/// indexes of the modules it published.
#[test]
fn call_custom_modules_table_matches_setup_batch() {
    let factory = TransactionFactory::new(4);
    let mut sources = accounts(2, 0);
    let creator = CallCustomModulesCreator::new(
        factory,
        factory,
        &mut sources,
        &OkExecutor,
        EntryPoints::Nop,
        3,
    )
    .unwrap();
    assert_eq!(
        creator.modules,
        vec![(100, 0), (100, 1), (100, 2), (101, 0), (101, 1), (101, 2)]
    );
}

/// The full assembly: two phases, pooled and plain entries, phase routing.
#[test]
fn assemble_and_generate_per_phase() {
    let mix = vec![
        vec![
            (TransactionType::default_coin_transfer(), 3usize),
            (
                TransactionType::AccountGeneration {
                    add_created_accounts_to_pool: true,
                    max_account_working_set: 10,
                    creation_balance: 0,
                },
                1usize,
            ),
        ],
        vec![(TransactionType::PublishPackage { use_account_pool: false }, 1usize)],
    ];
    let mut sources = accounts(2, 0);
    let factory = TransactionFactory::new(4);
    let (mut creator, mut addresses, mut pool) = create_txn_generator_creator(
        &mix,
        2,
        &mut sources,
        &OkExecutor,
        &factory,
        &factory,
        rng_from_seed(1),
    )
    .unwrap();
    assert_eq!(addresses.len(), 2);
    assert_eq!(pool.len(), 0);
    let mut generator = creator.create_transaction_generator();

    let mut workers = accounts(3, 0);
    for _ in 0..20 {
        let txns = generator.generate_transactions(&mut addresses, &mut pool, &mut workers, 2, 0);
        assert!(txns.len() <= 6);
        for t in &txns {
            assert!(matches!(
                t.payload,
                TransactionPayload::CoinTransfer { .. } | TransactionPayload::CreateAccount { .. }
            ));
        }
    }
    // The second phase only publishes.
    let mut workers = accounts(3, 0);
    let txns = generator.generate_transactions(&mut addresses, &mut pool, &mut workers, 2, 1);
    assert_eq!(txns.len(), 3);
    assert!(txns
        .iter()
        .all(|t| matches!(t.payload, TransactionPayload::PublishPackage { .. })));
}

/// A zero-weight entry stays instantiated but is never selected.
#[test]
fn zero_weight_entry_never_selected() {
    let mix = vec![vec![
        (TransactionType::default_coin_transfer(), 1usize),
        (TransactionType::PublishPackage { use_account_pool: false }, 0usize),
    ]];
    let mut sources = accounts(1, 0);
    let factory = TransactionFactory::new(4);
    let (mut creator, mut addresses, mut pool) = create_txn_generator_creator(
        &mix,
        1,
        &mut sources,
        &OkExecutor,
        &factory,
        &factory,
        rng_from_seed(2),
    )
    .unwrap();
    let mut generator = creator.create_transaction_generator();
    for _ in 0..100 {
        let mut workers = accounts(1, 0);
        let txns = generator.generate_transactions(&mut addresses, &mut pool, &mut workers, 1, 0);
        assert_eq!(txns.len(), 1);
        assert!(matches!(txns[0].payload, TransactionPayload::CoinTransfer { .. }));
    }
}

/// Selection frequencies converge to the normalized weights: with weights
/// 3:1 over many calls, roughly three quarters of the calls route to the
/// first strategy.
#[test]
fn selection_frequency_follows_weights() {
    let mix = vec![vec![
        (TransactionType::default_coin_transfer(), 3usize),
        (TransactionType::PublishPackage { use_account_pool: false }, 1usize),
    ]];
    let mut sources = accounts(1, 0);
    let factory = TransactionFactory::new(4);
    let (mut creator, mut addresses, mut pool) = create_txn_generator_creator(
        &mix,
        1,
        &mut sources,
        &OkExecutor,
        &factory,
        &factory,
        rng_from_seed(11),
    )
    .unwrap();
    let mut generator = creator.create_transaction_generator();
    let n = 400;
    let mut coin_calls = 0;
    for _ in 0..n {
        let mut workers = accounts(1, 0);
        let txns = generator.generate_transactions(&mut addresses, &mut pool, &mut workers, 1, 0);
        assert_eq!(txns.len(), 1);
        if matches!(txns[0].payload, TransactionPayload::CoinTransfer { .. }) {
            coin_calls += 1;
        }
    }
    // Expected 300 of 400; allow a generous band around it.
    assert!(coin_calls > 240, "coin transfer selected {coin_calls} of {n}");
    assert!(coin_calls < 360, "coin transfer selected {coin_calls} of {n}");
}

/// The call-custom-modules strategy publishes its modules during setup and
/// then only invokes published modules at the configured entry point.
#[test]
fn call_custom_modules_invokes_published() {
    let factory = TransactionFactory::new(4);
    let mut sources = accounts(2, 0);
    let creator = CallCustomModulesCreator::new(
        factory,
        factory,
        &mut sources,
        &OkExecutor,
        EntryPoints::Nop,
        3,
    )
    .unwrap();
    assert_eq!(sources[0].sequence_number, 3);
    assert_eq!(sources[1].sequence_number, 3);
    let mut generator = creator.create_transaction_generator(rng_from_seed(8));
    let mut workers = accounts(2, 5);
    let txns = generator.generate_transactions(&mut workers, 4);
    assert_eq!(txns.len(), 8);
    for t in &txns {
        match t.payload {
            TransactionPayload::EntryCall {
                module_publisher,
                module_index,
                entry_point,
            } => {
                assert!(module_publisher == 100 || module_publisher == 101);
                assert!(module_index < 3);
                assert_eq!(entry_point, EntryPoints::Nop);
            }
            _ => panic!("expected an entry call"),
        }
    }
}

/// With nothing published the strategy degrades to an empty batch.
#[test]
fn call_custom_modules_empty_degrades() {
    let factory = TransactionFactory::new(4);
    let mut sources: Vec<SigningAccount> = Vec::new();
    let creator = CallCustomModulesCreator::new(
        factory,
        factory,
        &mut sources,
        &OkExecutor,
        EntryPoints::Nop,
        3,
    )
    .unwrap();
    let mut generator = creator.create_transaction_generator(rng_from_seed(8));
    let mut workers = accounts(2, 5);
    let txns = generator.generate_transactions(&mut workers, 4);
    assert_eq!(txns.len(), 0);
    assert_eq!(workers[0].sequence_number, 5);
}

/// The workload defaults carry the documented configurations.
#[test]
fn transaction_type_defaults() {
    assert!(matches!(
        TransactionType::default_coin_transfer(),
        TransactionType::CoinTransfer {
            invalid_transaction_ratio: 0,
            sender_use_account_pool: false,
        }
    ));
    assert!(matches!(
        TransactionType::default_account_generation(),
        TransactionType::AccountGeneration {
            add_created_accounts_to_pool: true,
            max_account_working_set: 1_000_000,
            creation_balance: 0,
        }
    ));
    assert!(matches!(
        TransactionType::default_call_custom_module(),
        TransactionType::CallCustomModules {
            entry_point: EntryPoints::Nop,
            num_modules: 1,
            use_account_pool: false,
        }
    ));
    assert!(matches!(
        TransactionType::default_call_different_modules(),
        TransactionType::CallCustomModules {
            entry_point: EntryPoints::Nop,
            num_modules: 100,
            use_account_pool: false,
        }
    ));
    assert!(matches!(
        TransactionType::default(),
        TransactionType::CoinTransfer {
            invalid_transaction_ratio: 0,
            sender_use_account_pool: false,
        }
    ));
}
