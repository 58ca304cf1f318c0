use transaction_generator::account::SigningAccount;
use transaction_generator::account_generator::AccountGeneratorCreator;
use transaction_generator::accounts_pool_wrapper::AccountsPoolWrapperCreator;
use transaction_generator::executor::{ExecutionError, TransactionExecutor};
use transaction_generator::generator::TransactionGeneratorCreator;
use transaction_generator::nft_mint_and_transfer::NFTMintAndTransferGeneratorCreator;
use transaction_generator::p2p_transaction_generator::P2PTransactionGeneratorCreator;
use transaction_generator::pools::{AccountPool, AddressPool};
use transaction_generator::publish_modules::PublishPackageCreator;
use transaction_generator::rng::rng_from_seed;
use transaction_generator::transaction::{
    SignedTransaction, TransactionFactory, TransactionPayload,
};
use transaction_generator::SEND_AMOUNT;

struct OkExecutor;

impl TransactionExecutor for OkExecutor {
    fn get_account_balance(&self, _account_address: u64) -> Result<u64, ExecutionError> {
        Ok(0)
    }

    fn query_sequence_number(&self, _account_address: u64) -> Result<u64, ExecutionError> {
        Ok(u64::MAX)
    }

    fn execute_transactions_with_counter(
        &self,
        _txns: &Vec<SignedTransaction>,
        _failure_counter: &mut Vec<u64>,
    ) -> Result<(), ExecutionError> {
        Ok(())
    }
}

fn accounts(n: u64, start_seq: u64) -> Vec<SigningAccount> {
    (0..n)
        .map(|i| SigningAccount::new(100 + i, 900 + i, start_seq))
        .collect()
}

/// CoinTransfer with a zero invalid ratio: three accounts, two transactions
/// each, every transfer valid, targets drawn from the address pool,
/// sequence numbers gap-free per account.
#[test]
fn coin_transfer_scenario() {
    let factory = TransactionFactory::new(4);
    let creator = P2PTransactionGeneratorCreator::new(factory, SEND_AMOUNT, 0);
    let mut generator = creator.create_transaction_generator(rng_from_seed(7));
    let addresses = AddressPool::new(vec![11, 22]);
    let mut accs = accounts(3, 5);
    let txns = generator.generate_transactions(&addresses, &mut accs, 2);
    assert_eq!(txns.len(), 6);
    for (i, acc) in accs.iter().enumerate() {
        assert_eq!(acc.sequence_number, 7);
        for j in 0..2usize {
            let t = &txns[i * 2 + j];
            assert_eq!(t.sender, 100 + i as u64);
            assert_eq!(t.sequence_number, 5 + j as u64);
            assert_eq!(t.chain_id, 4);
            match t.payload {
                TransactionPayload::CoinTransfer { to, amount } => {
                    assert!(to == 11 || to == 22);
                    assert_eq!(amount, SEND_AMOUNT);
                }
                _ => panic!("expected a coin transfer"),
            }
        }
    }
}

/// Never more than `transactions_per_account * accounts.len()` come back.
#[test]
fn generation_volume_is_bounded() {
    let factory = TransactionFactory::new(4);
    let creator = P2PTransactionGeneratorCreator::new(factory, SEND_AMOUNT, 50);
    let mut generator = creator.create_transaction_generator(rng_from_seed(3));
    let addresses = AddressPool::new(vec![1]);
    let mut accs = accounts(4, 0);
    let txns = generator.generate_transactions(&addresses, &mut accs, 9);
    assert!(txns.len() <= 36);
    assert_eq!(txns.len(), 36);
}

/// A saturated sequence counter reduces volume instead of failing.
#[test]
fn saturated_counter_degrades_volume() {
    let factory = TransactionFactory::new(4);
    let creator = P2PTransactionGeneratorCreator::new(factory, SEND_AMOUNT, 0);
    let mut generator = creator.create_transaction_generator(rng_from_seed(3));
    let addresses = AddressPool::new(vec![1]);
    let mut accs = vec![SigningAccount::new(1, 1, u64::MAX - 1)];
    let txns = generator.generate_transactions(&addresses, &mut accs, 5);
    assert_eq!(txns.len(), 1);
    assert_eq!(accs[0].sequence_number, u64::MAX);
}

/// PublishPackage: exactly one transaction per account, whatever the batch
/// size.
#[test]
fn publish_package_one_per_account() {
    let factory = TransactionFactory::new(4);
    let creator = PublishPackageCreator::new(factory);
    let mut generator = creator.create_transaction_generator();
    let mut accs = accounts(3, 2);
    let txns = generator.generate_transactions(&mut accs, 7);
    assert_eq!(txns.len(), 3);
    for (i, t) in txns.iter().enumerate() {
        assert_eq!(t.sender, 100 + i as u64);
        assert_eq!(t.sequence_number, 2);
        assert!(matches!(t.payload, TransactionPayload::PublishPackage { .. }));
    }
    for acc in &accs {
        assert_eq!(acc.sequence_number, 3);
    }

    let mut generator = creator.create_transaction_generator();
    let mut accs = accounts(3, 2);
    let txns = generator.generate_transactions(&mut accs, 0);
    assert_eq!(txns.len(), 3);
}

/// AccountGeneration never grows the account pool beyond the working-set
/// cap, and appends every created address to the address pool.
#[test]
fn account_generation_pool_cap() {
    let factory = TransactionFactory::new(4);
    let creator = AccountGeneratorCreator::new(factory, true, 2, 77);
    let mut generator = creator.create_transaction_generator(rng_from_seed(9));
    let mut addresses = AddressPool::new(vec![1]);
    let mut pool = AccountPool::new();
    let mut accs = accounts(1, 0);
    let txns = generator.generate_transactions(&mut addresses, &mut pool, &mut accs, 5);
    assert_eq!(txns.len(), 5);
    assert_eq!(addresses.len(), 6);
    assert_eq!(pool.len(), 2);
    for (m, t) in txns.iter().enumerate() {
        match t.payload {
            TransactionPayload::CreateAccount {
                new_address,
                initial_balance,
                ..
            } => {
                assert_ne!(new_address, 0);
                assert_eq!(initial_balance, 77);
                assert_eq!(addresses.get(1 + m), new_address);
                if m < 2 {
                    assert_eq!(pool.get(m).address, new_address);
                    assert_eq!(pool.get(m).sequence_number, 0);
                }
            }
            _ => panic!("expected an account creation"),
        }
    }
}

#[test]
fn account_generation_without_pooling() {
    let factory = TransactionFactory::new(4);
    let creator = AccountGeneratorCreator::new(factory, false, 1000, 0);
    let mut generator = creator.create_transaction_generator(rng_from_seed(9));
    let mut addresses = AddressPool::new(vec![1]);
    let mut pool = AccountPool::new();
    let mut accs = accounts(2, 0);
    let txns = generator.generate_transactions(&mut addresses, &mut pool, &mut accs, 3);
    assert_eq!(txns.len(), 6);
    assert_eq!(pool.len(), 0);
    assert_eq!(addresses.len(), 7);
}

/// Overlapping grants from the account pool are disjoint: what the second
/// pop hands out shares no account with the first, still-outstanding one.
#[test]
fn pool_grants_are_disjoint() {
    let mut pool = AccountPool::new();
    for i in 0..5u64 {
        pool.push(SigningAccount::new(i, i, 0));
    }
    let first = pool.pop_upto(2);
    let second = pool.pop_upto(2);
    assert_eq!(first.len(), 2);
    assert_eq!(second.len(), 2);
    assert_eq!(pool.len(), 1);
    // Most recently pooled first.
    assert_eq!(first[0].address, 4);
    assert_eq!(first[1].address, 3);
    assert_eq!(second[0].address, 2);
    assert_eq!(second[1].address, 1);
    for a in &first {
        assert!(!second.iter().any(|b| b.address == a.address));
    }
    // A pop on an underfilled pool grants what is left.
    let rest = pool.pop_upto(10);
    assert_eq!(rest.len(), 1);
    assert_eq!(rest[0].address, 0);
    assert_eq!(pool.len(), 0);
}

/// The pool-backed decorator draws senders from the pool, leaves the
/// caller's accounts untouched and returns the drawn accounts afterwards.
#[test]
fn pool_backed_coin_transfer() {
    let factory = TransactionFactory::new(4);
    let inner = TransactionGeneratorCreator::CoinTransfer(P2PTransactionGeneratorCreator::new(
        factory,
        SEND_AMOUNT,
        0,
    ));
    let creator = AccountsPoolWrapperCreator::new(inner);
    let mut generator = creator.create_transaction_generator(rng_from_seed(5));
    let mut addresses = AddressPool::new(vec![11]);
    let mut pool = AccountPool::new();
    pool.push(SigningAccount::new(50, 1, 0));
    pool.push(SigningAccount::new(51, 2, 0));
    let mut caller_accounts = accounts(3, 9);
    let txns =
        generator.generate_transactions(&mut addresses, &mut pool, &mut caller_accounts, 2);
    // Only two accounts were pooled: the call degrades to the smaller set.
    assert_eq!(txns.len(), 4);
    for t in &txns {
        assert!(t.sender == 50 || t.sender == 51);
    }
    for acc in &caller_accounts {
        assert_eq!(acc.sequence_number, 9);
    }
    // The drawn accounts are back, with their counters advanced.
    assert_eq!(pool.len(), 2);
    assert_eq!(pool.get(0).sequence_number, 2);
    assert_eq!(pool.get(1).sequence_number, 2);
}

/// Accounts consumed by a pool-backed PublishPackage are not returned.
#[test]
fn pool_backed_publish_consumes_accounts() {
    let factory = TransactionFactory::new(4);
    let inner = TransactionGeneratorCreator::PublishPackage(PublishPackageCreator::new(factory));
    let creator = AccountsPoolWrapperCreator::new(inner);
    let mut generator = creator.create_transaction_generator(rng_from_seed(5));
    let mut addresses = AddressPool::new(vec![11]);
    let mut pool = AccountPool::new();
    for i in 0..4u64 {
        pool.push(SigningAccount::new(60 + i, i, 0));
    }
    let mut caller_accounts = accounts(3, 0);
    let txns =
        generator.generate_transactions(&mut addresses, &mut pool, &mut caller_accounts, 1);
    assert_eq!(txns.len(), 3);
    assert_eq!(pool.len(), 1);
    assert_eq!(pool.get(0).address, 60);
}

/// NFT generation alternates mint and transfer slots after the setup mint
/// went through the consistency barrier.
#[test]
fn nft_mint_and_transfer_pairs() {
    let factory = TransactionFactory::new(4);
    let init_factory = TransactionFactory::new(4);
    let mut source = SigningAccount::new(7, 70, 0);
    let creator =
        NFTMintAndTransferGeneratorCreator::new(factory, init_factory, &mut source, &OkExecutor, 2)
            .unwrap();
    assert_eq!(source.sequence_number, 1);
    let mut generator = creator.create_transaction_generator();
    let mut accs = accounts(2, 0);
    let txns = generator.generate_transactions(&mut accs, 4);
    assert_eq!(txns.len(), 8);
    for (i, _) in accs.iter().enumerate() {
        for j in 0..4usize {
            let t = &txns[i * 4 + j];
            if j % 2 == 0 {
                assert!(matches!(t.payload, TransactionPayload::NftMint { creator: 7 }));
            } else {
                assert!(matches!(
                    t.payload,
                    TransactionPayload::NftTransfer { creator: 7, to: 7 }
                ));
            }
        }
    }
}
