use transaction_generator::account::SigningAccount;
use transaction_generator::executor::{ConsistencyBarrier, POLL_INTERVAL_MS};
use transaction_generator::publish_modules::PublishPackageCreator;
use transaction_generator::transaction::TransactionFactory;

/// A fake execution backend whose on-chain sequence number for an account
/// advances by itself after a number of polls.
struct AdvancingFake {
    target: u64,
    reached_after_polls: u64,
    polls: u64,
}

impl AdvancingFake {
    fn query(&mut self, _address: u64) -> u64 {
        self.polls += 1;
        if self.polls >= self.reached_after_polls {
            self.target
        } else {
            self.target - 1
        }
    }
}

/// The barrier for a transaction with sequence number S completes only
/// once the backend reports at least S + 1, and not before.
#[test]
fn barrier_completes_only_after_confirmation() {
    let factory = TransactionFactory::new(4);
    let creator = PublishPackageCreator::new(factory);
    let mut generator = creator.create_transaction_generator();
    let mut accs = vec![SigningAccount::new(7, 70, 4)];
    let txns = generator.generate_transactions(&mut accs, 1);
    assert_eq!(txns[0].sequence_number, 4);

    let mut barrier = ConsistencyBarrier::new(&txns);
    assert!(!barrier.is_complete());
    assert_eq!(barrier.poll_target(), Some(7));

    // Reports of 3, 4 — below S + 1 = 5 — do not release the barrier.
    barrier.observe(3);
    assert!(!barrier.is_complete());
    barrier.observe(4);
    assert!(!barrier.is_complete());
    assert_eq!(barrier.poll_target(), Some(7));

    // The first report of at least S + 1 does.
    barrier.observe(5);
    assert!(barrier.is_complete());
    assert_eq!(barrier.poll_target(), None);
}

/// Driving the barrier against a backend that confirms asynchronously: the
/// poll loop returns exactly when the fake first reports S + 1.
#[test]
fn barrier_poll_loop_waits_for_fake() {
    let factory = TransactionFactory::new(4);
    let creator = PublishPackageCreator::new(factory);
    let mut generator = creator.create_transaction_generator();
    let mut accs = vec![SigningAccount::new(9, 90, 10)];
    let txns = generator.generate_transactions(&mut accs, 1);

    let mut fake = AdvancingFake { target: 11, reached_after_polls: 6, polls: 0 };
    let mut barrier = ConsistencyBarrier::new(&txns);
    let mut rounds = 0u64;
    while !barrier.is_complete() {
        let target = barrier.poll_target().unwrap();
        let observed = fake.query(target);
        barrier.observe(observed);
        rounds += 1;
        assert!(rounds <= 100, "barrier failed to release");
        // The real driver sleeps POLL_INTERVAL_MS between polls.
    }
    assert_eq!(rounds, fake.reached_after_polls);
    assert_eq!(POLL_INTERVAL_MS, 10);
}

/// A batch is confirmed transaction by transaction, in submission order.
#[test]
fn barrier_tracks_whole_batch() {
    let factory = TransactionFactory::new(4);
    let creator = PublishPackageCreator::new(factory);
    let mut generator = creator.create_transaction_generator();
    let mut accs = vec![SigningAccount::new(1, 10, 0), SigningAccount::new(2, 20, 3)];
    let txns = generator.generate_transactions(&mut accs, 1);
    assert_eq!(txns.len(), 2);

    let mut barrier = ConsistencyBarrier::new(&txns);
    assert_eq!(barrier.poll_target(), Some(1));
    barrier.observe(1);
    assert!(!barrier.is_complete());
    assert_eq!(barrier.poll_target(), Some(2));
    barrier.observe(3);
    assert!(!barrier.is_complete());
    barrier.observe(4);
    assert!(barrier.is_complete());
}
