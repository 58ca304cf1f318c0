//! The call-custom-modules strategy: one-time setup publishes a number of
//! distinct modules from every source account and blocks until they are
//! confirmed; each generation call then invokes the configured entry point
//! of a randomly selected published module.

use vstd::prelude::*;

use crate::account::SigningAccount;
use crate::executor::{ExecutionError, TransactionExecutor};
use crate::module_simple::EntryPoints;
use crate::rng::rand_below;
use crate::transaction::{
    accounts_advanced, batch_txn, batch_well_formed, cap_count, lemma_batch_index,
    lemma_offset_uniform_in_range, lemma_offset_uniform_rows, lemma_total_uniform_bounded,
    lemma_total_uniform_rows, offset_uniform, sign_all, spec_signed, total_uniform,
    SignedTransaction, TransactionFactory, TransactionPayload,
};

verus! {

/// An invocation payload calls the configured entry point of one of the
/// published modules, identified by its publisher and its index.
pub open spec fn call_payload_ok(
    p: TransactionPayload,
    modules: Seq<(u64, u64)>,
    entry: EntryPoints,
) -> bool {
    match p {
        TransactionPayload::EntryCall { module_publisher, module_index, entry_point } => {
            &&& modules.contains((module_publisher, module_index))
            &&& entry_point == entry
        },
        _ => false,
    }
}

/// The package index a publish transaction installed.
pub open spec fn published_package(t: SignedTransaction) -> u64 {
    match t.payload {
        TransactionPayload::PublishPackage { package } => package,
        _ => 0,
    }
}

/// The module entry standing at slot `j` of source account `i`'s block of
/// the setup batch.
pub open spec fn module_at(
    modules: Seq<(u64, u64)>,
    pre: Seq<SigningAccount>,
    k: nat,
    i: int,
    j: int,
) -> (u64, u64) {
    modules[offset_uniform(pre, k, i) + j]
}

pub struct CallCustomModulesCreator {
    pub txn_factory: TransactionFactory,
    pub modules: Vec<(u64, u64)>,
    pub entry_point: EntryPoints,
}

impl CallCustomModulesCreator {
    /// Publishes `num_modules` distinct modules from every source account
    /// through the initialization factory and submits them through the
    /// execution capability, whose submission call blocks until every
    /// publish is confirmed on-chain. A failure of the backend is fatal and
    /// propagates.
    pub fn new<E: TransactionExecutor>(
        txn_factory: TransactionFactory,
        init_txn_factory: TransactionFactory,
        source_accounts: &mut Vec<SigningAccount>,
        txn_executor: &E,
        entry_point: EntryPoints,
        num_modules: usize,
    ) -> (r: Result<Self, ExecutionError>)
        ensures
            accounts_advanced(
                old(source_accounts)@,
                final(source_accounts)@,
                num_modules as nat,
            ),
            r matches Ok(c) ==> {
                &&& c.txn_factory == txn_factory
                &&& c.entry_point == entry_point
                &&& c.modules@.len() == total_uniform(old(source_accounts)@, num_modules as nat)
                &&& forall|i: int, j: int|
                    0 <= i < old(source_accounts)@.len() && 0 <= j < cap_count(
                        old(source_accounts)@[i].sequence_number,
                        num_modules as nat,
                    ) ==> #[trigger] module_at(
                        c.modules@,
                        old(source_accounts)@,
                        num_modules as nat,
                        i,
                        j,
                    ) == (old(source_accounts)@[i].address, j as u64)
                &&& forall|m: int|
                    0 <= m < c.modules@.len() ==> (#[trigger] c.modules@[m]).1 < num_modules
                        && old(source_accounts)@.map_values(
                        |a: SigningAccount| a.address,
                    ).contains(c.modules@[m].0)
            },
    {
        let ghost accs0 = source_accounts@;
        let n = source_accounts.len();
        let mut rows: Vec<Vec<TransactionPayload>> = Vec::new();
        let mut i: usize = 0;
        while i < n
            invariant
                0 <= i <= n,
                rows@.len() == i,
                forall|m: int| 0 <= m < i ==> #[trigger] rows@[m]@.len() == num_modules,
                forall|m: int, j: int|
                    0 <= m < i && 0 <= j < num_modules ==> #[trigger] rows@[m]@[j]
                        == (TransactionPayload::PublishPackage { package: j as u64 }),
            decreases n - i,
        {
            let mut row: Vec<TransactionPayload> = Vec::new();
            let mut j: usize = 0;
            while j < num_modules
                invariant
                    0 <= j <= num_modules,
                    row@.len() == j,
                    forall|jj: int|
                        0 <= jj < j ==> #[trigger] row@[jj] == (TransactionPayload::PublishPackage {
                            package: jj as u64,
                        }),
                decreases num_modules - j,
            {
                row.push(TransactionPayload::PublishPackage { package: j as u64 });
                j = j + 1;
            }
            rows.push(row);
            i = i + 1;
        }
        let setup = sign_all(&init_txn_factory, source_accounts, &rows);
        proof {
            lemma_total_uniform_rows(accs0, rows@, num_modules as nat);
            assert forall|ii: int, j: int|
                0 <= ii < accs0.len() && 0 <= j < cap_count(
                    accs0[ii].sequence_number,
                    num_modules as nat,
                ) implies #[trigger] batch_txn(setup@, accs0, num_modules as nat, ii, j)
                == spec_signed(
                init_txn_factory,
                accs0[ii],
                j as nat,
                batch_txn(setup@, accs0, num_modules as nat, ii, j).payload,
            ) && batch_txn(setup@, accs0, num_modules as nat, ii, j).payload
                == (TransactionPayload::PublishPackage { package: j as u64 }) by {
                lemma_offset_uniform_rows(accs0, rows@, num_modules as nat, ii);
                assert(rows@[ii]@.len() == num_modules);
                assert(setup@[crate::transaction::block_offset(accs0, rows@, ii) + j]
                    == spec_signed(init_txn_factory, accs0[ii], j as nat, rows@[ii]@[j]));
            }
        }
        let mut modules: Vec<(u64, u64)> = Vec::new();
        let k = setup.len();
        let mut m: usize = 0;
        while m < k
            invariant
                0 <= m <= k,
                k == setup@.len(),
                setup@.len() == crate::transaction::total_uniform(accs0, num_modules as nat),
                batch_well_formed(setup@, accs0, init_txn_factory, num_modules as nat),
                forall|mm: int, j: int|
                    0 <= mm < accs0.len() && 0 <= j < cap_count(
                        accs0[mm].sequence_number,
                        num_modules as nat,
                    ) ==> #[trigger] batch_txn(
                        setup@,
                        accs0,
                        num_modules as nat,
                        mm,
                        j,
                    ).payload == (TransactionPayload::PublishPackage { package: j as u64 }),
                modules@.len() == m,
                forall|mm: int|
                    0 <= mm < m ==> #[trigger] modules@[mm] == (
                        setup@[mm].sender,
                        published_package(setup@[mm]),
                    ),
                forall|mm: int|
                    0 <= mm < m ==> (#[trigger] modules@[mm]).1 < num_modules
                        && accs0.map_values(|a: SigningAccount| a.address).contains(
                        modules@[mm].0,
                    ),
            decreases k - m,
        {
            let txn = setup[m];
            proof {
                let (bi, bj) = lemma_batch_index(accs0, num_modules as nat, m as int);
                assert(batch_txn(setup@, accs0, num_modules as nat, bi, bj) == setup@[m as int]);
                assert(setup@[m as int] == spec_signed(
                    init_txn_factory,
                    accs0[bi],
                    bj as nat,
                    setup@[m as int].payload,
                ));
                assert(accs0.map_values(|a: SigningAccount| a.address)[bi] == accs0[bi].address);
            }
            match txn.payload {
                TransactionPayload::PublishPackage { package } => {
                    modules.push((txn.sender, package));
                },
                _ => {
                    proof {
                        assert(false);
                    }
                },
            }
            m = m + 1;
        }
        proof {
            assert forall|i: int, j: int|
                0 <= i < accs0.len() && 0 <= j < cap_count(
                    accs0[i].sequence_number,
                    num_modules as nat,
                ) implies #[trigger] module_at(
                modules@,
                accs0,
                num_modules as nat,
                i,
                j,
            ) == (accs0[i].address, j as u64) by {
                lemma_offset_uniform_in_range(accs0, num_modules as nat, i, j);
                let pos = offset_uniform(accs0, num_modules as nat, i) + j;
                assert(batch_txn(setup@, accs0, num_modules as nat, i, j) == setup@[pos as int]);
                assert(modules@[pos as int] == (
                    setup@[pos as int].sender,
                    published_package(setup@[pos as int]),
                ));
            }
        }
        match txn_executor.execute_transactions(&setup) {
            Ok(_) => Ok(CallCustomModulesCreator { txn_factory, modules, entry_point }),
            Err(e) => Err(e),
        }
    }

    pub fn create_transaction_generator(&self, rng: rand::rngs::StdRng) -> (g: CallCustomModulesGenerator)
        ensures
            g.txn_factory == self.txn_factory,
            g.modules@ == self.modules@,
            g.entry_point == self.entry_point,
    {
        let mut modules: Vec<(u64, u64)> = Vec::new();
        let n = self.modules.len();
        let mut i: usize = 0;
        while i < n
            invariant
                0 <= i <= n,
                n == self.modules@.len(),
                modules@ == self.modules@.take(i as int),
            decreases n - i,
        {
            modules.push(self.modules[i]);
            proof {
                assert(self.modules@.take(i + 1) =~= self.modules@.take(i as int).push(
                    self.modules@[i as int],
                ));
            }
            i = i + 1;
        }
        proof {
            assert(self.modules@.take(n as int) =~= self.modules@);
        }
        CallCustomModulesGenerator {
            rng,
            txn_factory: self.txn_factory,
            modules,
            entry_point: self.entry_point,
        }
    }
}

pub struct CallCustomModulesGenerator {
    pub rng: rand::rngs::StdRng,
    pub txn_factory: TransactionFactory,
    pub modules: Vec<(u64, u64)>,
    pub entry_point: EntryPoints,
}

impl CallCustomModulesGenerator {
    /// Invocations of the configured entry point on randomly selected
    /// published modules. With nothing published the call degrades to an
    /// empty batch instead of failing.
    pub fn generate_transactions(
        &mut self,
        accounts: &mut Vec<SigningAccount>,
        transactions_per_account: usize,
    ) -> (result: Vec<SignedTransaction>)
        ensures
            old(self).modules@.len() == 0 ==> result@.len() == 0 && final(accounts)@ == old(
                accounts,
            )@,
            old(self).modules@.len() > 0 ==> {
                &&& accounts_advanced(
                    old(accounts)@,
                    final(accounts)@,
                    transactions_per_account as nat,
                )
                &&& batch_well_formed(
                    result@,
                    old(accounts)@,
                    old(self).txn_factory,
                    transactions_per_account as nat,
                )
                &&& forall|m: int|
                    0 <= m < result@.len() ==> call_payload_ok(
                        (#[trigger] result@[m]).payload,
                        old(self).modules@,
                        old(self).entry_point,
                    )
            },
            result@.len() <= old(accounts)@.len() * transactions_per_account,
            final(self).txn_factory == old(self).txn_factory,
            final(self).modules@ == old(self).modules@,
            final(self).entry_point == old(self).entry_point,
    {
        let ghost accs0 = accounts@;
        let tpa = transactions_per_account;
        if self.modules.len() == 0 {
            let result: Vec<SignedTransaction> = Vec::new();
            return result;
        }
        let n = accounts.len();
        let mut rows: Vec<Vec<TransactionPayload>> = Vec::new();
        let mut i: usize = 0;
        while i < n
            invariant
                0 <= i <= n,
                rows@.len() == i,
                self.modules@.len() > 0,
                self.txn_factory == old(self).txn_factory,
                self.modules@ == old(self).modules@,
                self.entry_point == old(self).entry_point,
                forall|m: int| 0 <= m < i ==> #[trigger] rows@[m]@.len() == tpa,
                forall|m: int, j: int|
                    0 <= m < i && 0 <= j < tpa ==> call_payload_ok(
                        #[trigger] rows@[m]@[j],
                        self.modules@,
                        self.entry_point,
                    ),
            decreases n - i,
        {
            let row = self.build_row(tpa);
            rows.push(row);
            i = i + 1;
        }
        let factory = self.txn_factory;
        let result = sign_all(&factory, accounts, &rows);
        proof {
            lemma_total_uniform_rows(accs0, rows@, tpa as nat);
            lemma_total_uniform_bounded(accs0, tpa as nat);
            assert forall|ii: int, j: int|
                0 <= ii < accs0.len() && 0 <= j < cap_count(
                    accs0[ii].sequence_number,
                    tpa as nat,
                ) implies #[trigger] batch_txn(result@, accs0, tpa as nat, ii, j) == spec_signed(
                factory,
                accs0[ii],
                j as nat,
                batch_txn(result@, accs0, tpa as nat, ii, j).payload,
            ) && call_payload_ok(
                batch_txn(result@, accs0, tpa as nat, ii, j).payload,
                self.modules@,
                self.entry_point,
            ) by {
                lemma_offset_uniform_rows(accs0, rows@, tpa as nat, ii);
                assert(rows@[ii]@.len() == tpa);
                assert(result@[crate::transaction::block_offset(accs0, rows@, ii) + j]
                    == spec_signed(factory, accs0[ii], j as nat, rows@[ii]@[j]));
            }
            assert forall|m: int| 0 <= m < result@.len() implies call_payload_ok(
                (#[trigger] result@[m]).payload,
                self.modules@,
                self.entry_point,
            ) by {
                let (bi, bj) = lemma_batch_index(accs0, tpa as nat, m);
                assert(batch_txn(result@, accs0, tpa as nat, bi, bj) == result@[m]);
            }
        }
        result
    }

    /// One account's worth of invocation payloads.
    fn build_row(&mut self, tpa: usize) -> (row: Vec<TransactionPayload>)
        requires
            old(self).modules@.len() > 0,
        ensures
            row@.len() == tpa,
            forall|j: int|
                0 <= j < tpa ==> call_payload_ok(
                    #[trigger] row@[j],
                    old(self).modules@,
                    old(self).entry_point,
                ),
            final(self).txn_factory == old(self).txn_factory,
            final(self).modules@ == old(self).modules@,
            final(self).entry_point == old(self).entry_point,
    {
        let mut row: Vec<TransactionPayload> = Vec::new();
        let mut j: usize = 0;
        while j < tpa
            invariant
                0 <= j <= tpa,
                row@.len() == j,
                self.modules@.len() > 0,
                self.txn_factory == old(self).txn_factory,
                self.modules@ == old(self).modules@,
                self.entry_point == old(self).entry_point,
                forall|jj: int|
                    0 <= jj < j ==> call_payload_ok(
                        #[trigger] row@[jj],
                        self.modules@,
                        self.entry_point,
                    ),
            decreases tpa - j,
        {
            let idx = rand_below(&mut self.rng, self.modules.len() as u64) as usize;
            let chosen = self.modules[idx];
            proof {
                assert(self.modules@[idx as int] == chosen);
            }
            row.push(
                TransactionPayload::EntryCall {
                    module_publisher: chosen.0,
                    module_index: chosen.1,
                    entry_point: self.entry_point,
                },
            );
            j = j + 1;
        }
        row
    }
}

} // verus!
