//! The phased mix composer: per phase, a weighted list of strategy
//! instances; every generation call reads the externally driven phase
//! index, draws a categorical sample over that phase's weights and routes
//! the call to the selected strategy.

use vstd::prelude::*;

use crate::account::SigningAccount;
use crate::accounts_pool_wrapper::{
    returns_accounts, wrapper_granted_post, wrapper_pool_mid, AccountsPoolWrapperCreator,
    AccountsPoolWrapperGenerator,
};
use crate::generator::{
    creator_matches, generate_ensures, generate_requires, TransactionGenerator,
    TransactionGeneratorCreator,
};
use crate::pools::{popped_of, rest_of, AccountPool, AddressPool};
use crate::rng::{rand_below, rng_from_seed};
use crate::transaction::SignedTransaction;
use vstd::set_lib::set_int_range;

verus! {

/// One entry of a phase's mix: a strategy, either plain or pool-backed.
pub enum WorkloadGenerator {
    Direct(TransactionGenerator),
    PoolBacked(AccountsPoolWrapperGenerator),
}

/// The creator counterpart of one mix entry.
pub enum WorkloadGeneratorCreator {
    Direct(TransactionGeneratorCreator),
    PoolBacked(AccountsPoolWrapperCreator),
}

pub open spec fn workload_generate_requires(w: WorkloadGenerator, addresses: Seq<u64>) -> bool {
    match w {
        WorkloadGenerator::Direct(g) => generate_requires(g, addresses),
        WorkloadGenerator::PoolBacked(p) => generate_requires(p.inner, addresses),
    }
}

/// The relational contract of one generation call through a mix entry.
pub open spec fn workload_generate_ensures(
    pre: WorkloadGenerator,
    post: WorkloadGenerator,
    addr_pre: Seq<u64>,
    addr_post: Seq<u64>,
    pool_pre: Seq<SigningAccount>,
    pool_post: Seq<SigningAccount>,
    accs_pre: Seq<SigningAccount>,
    accs_post: Seq<SigningAccount>,
    tpa: nat,
    result: Seq<SignedTransaction>,
) -> bool {
    &&& (tpa >= 1 ==> result.len() <= accs_pre.len() * tpa)
    &&& match pre {
        WorkloadGenerator::Direct(g) => {
            &&& post matches WorkloadGenerator::Direct(g2) && generate_ensures(
                g,
                g2,
                addr_pre,
                addr_post,
                pool_pre,
                pool_post,
                accs_pre,
                accs_post,
                tpa,
                result,
            )
        },
        WorkloadGenerator::PoolBacked(p) => {
            &&& accs_post == accs_pre
            &&& post matches WorkloadGenerator::PoolBacked(p2) && generate_ensures(
                p.inner,
                p2.inner,
                addr_pre,
                addr_post,
                rest_of(pool_pre, accs_pre.len()),
                wrapper_pool_mid(p.inner, rest_of(pool_pre, accs_pre.len()), result),
                popped_of(pool_pre, accs_pre.len()),
                wrapper_granted_post(p.inner, popped_of(pool_pre, accs_pre.len()), tpa),
                tpa,
                result,
            ) && pool_post == if returns_accounts(p.inner) {
                wrapper_pool_mid(p.inner, rest_of(pool_pre, accs_pre.len()), result)
                    + wrapper_granted_post(p.inner, popped_of(pool_pre, accs_pre.len()), tpa)
            } else {
                wrapper_pool_mid(p.inner, rest_of(pool_pre, accs_pre.len()), result)
            }
        },
    }
}

pub open spec fn workload_creator_matches(
    c: WorkloadGeneratorCreator,
    g: WorkloadGenerator,
) -> bool {
    match (c, g) {
        (WorkloadGeneratorCreator::Direct(c), WorkloadGenerator::Direct(g)) => creator_matches(
            c,
            g,
        ),
        (
            WorkloadGeneratorCreator::PoolBacked(c),
            WorkloadGenerator::PoolBacked(g),
        ) => creator_matches(c.inner, g.inner),
        _ => false,
    }
}

impl WorkloadGenerator {
    pub fn generate_transactions(
        &mut self,
        addresses: &mut AddressPool,
        account_pool: &mut AccountPool,
        accounts: &mut Vec<SigningAccount>,
        transactions_per_account: usize,
    ) -> (result: Vec<SignedTransaction>)
        requires
            workload_generate_requires(*old(self), old(addresses)@),
        ensures
            workload_generate_ensures(
                *old(self),
                *final(self),
                old(addresses)@,
                final(addresses)@,
                old(account_pool)@,
                final(account_pool)@,
                old(accounts)@,
                final(accounts)@,
                transactions_per_account as nat,
                result@,
            ),
    {
        match self {
            WorkloadGenerator::Direct(g) => g.generate_transactions(
                addresses,
                account_pool,
                accounts,
                transactions_per_account,
            ),
            WorkloadGenerator::PoolBacked(p) => p.generate_transactions(
                addresses,
                account_pool,
                accounts,
                transactions_per_account,
            ),
        }
    }
}

impl WorkloadGeneratorCreator {
    pub fn create_transaction_generator(&self, rng: rand::rngs::StdRng) -> (g: WorkloadGenerator)
        ensures
            workload_creator_matches(*self, g),
    {
        match self {
            WorkloadGeneratorCreator::Direct(c) => WorkloadGenerator::Direct(
                c.create_transaction_generator(rng),
            ),
            WorkloadGeneratorCreator::PoolBacked(c) => WorkloadGenerator::PoolBacked(
                c.create_transaction_generator(rng),
            ),
        }
    }
}

/// Total weight of a phase's mix.
pub open spec fn weight_sum(entries: Seq<(WorkloadGenerator, usize)>) -> int
    decreases entries.len(),
{
    if entries.len() == 0 {
        0
    } else {
        weight_sum(entries.drop_last()) + entries.last().1
    }
}

/// Combined weight of the entries before entry `i`.
pub open spec fn prefix_weight(entries: Seq<(WorkloadGenerator, usize)>, i: int) -> int {
    weight_sum(entries.take(i))
}

/// Entry `i` is selected exactly by the rolls of its half-open window,
/// whose width is its weight.
pub open spec fn selects(entries: Seq<(WorkloadGenerator, usize)>, roll: int, i: int) -> bool {
    prefix_weight(entries, i) <= roll < prefix_weight(entries, i) + entries[i].1
}

pub proof fn lemma_weight_sum_nonneg(entries: Seq<(WorkloadGenerator, usize)>)
    ensures
        weight_sum(entries) >= 0,
    decreases entries.len(),
{
    if entries.len() != 0 {
        lemma_weight_sum_nonneg(entries.drop_last());
    }
}

pub proof fn lemma_prefix_weight_step(entries: Seq<(WorkloadGenerator, usize)>, i: int)
    requires
        0 <= i < entries.len(),
    ensures
        prefix_weight(entries, i + 1) == prefix_weight(entries, i) + entries[i].1,
{
    assert(entries.take(i + 1).drop_last() =~= entries.take(i));
    assert(entries.take(i + 1).last() == entries[i]);
}

pub proof fn lemma_prefix_weight_monotonic(entries: Seq<(WorkloadGenerator, usize)>, a: int, b: int)
    requires
        0 <= a <= b <= entries.len(),
    ensures
        prefix_weight(entries, a) <= prefix_weight(entries, b),
    decreases b - a,
{
    if a < b {
        lemma_prefix_weight_step(entries, a);
        lemma_prefix_weight_monotonic(entries, a + 1, b);
    }
}

pub proof fn lemma_prefix_weight_total(entries: Seq<(WorkloadGenerator, usize)>)
    ensures
        prefix_weight(entries, entries.len() as int) == weight_sum(entries),
{
    assert(entries.take(entries.len() as int) =~= entries);
}

/// No roll selects two entries: the selection windows are disjoint.
pub proof fn lemma_selection_unique(
    entries: Seq<(WorkloadGenerator, usize)>,
    roll: int,
    i1: int,
    i2: int,
)
    requires
        0 <= i1 < entries.len(),
        0 <= i2 < entries.len(),
        selects(entries, roll, i1),
        selects(entries, roll, i2),
    ensures
        i1 == i2,
{
    if i1 < i2 {
        lemma_prefix_weight_step(entries, i1);
        lemma_prefix_weight_monotonic(entries, i1 + 1, i2);
    }
    if i2 < i1 {
        lemma_prefix_weight_step(entries, i2);
        lemma_prefix_weight_monotonic(entries, i2 + 1, i1);
    }
}

/// Selection frequency law: among the `weight_sum` equally likely rolls,
/// exactly `entries[i].1` select entry `i` — so, under the uniform roll the
/// generator draws, each entry is selected with probability equal to its
/// normalized weight, and over many calls its empirical frequency converges
/// to that weight. In particular a zero-weight entry is never selected.
pub proof fn lemma_selection_frequency(entries: Seq<(WorkloadGenerator, usize)>, i: int)
    requires
        0 <= i < entries.len(),
    ensures
        Set::new(|roll: int| 0 <= roll < weight_sum(entries) && selects(entries, roll, i))
            =~= set_int_range(
            prefix_weight(entries, i),
            prefix_weight(entries, i) + entries[i].1,
        ),
        Set::new(
            |roll: int| 0 <= roll < weight_sum(entries) && selects(entries, roll, i),
        ).len() == entries[i].1,
{
    lemma_weight_sum_nonneg(entries.take(i));
    lemma_prefix_weight_step(entries, i);
    lemma_prefix_weight_monotonic(entries, i + 1, entries.len() as int);
    lemma_prefix_weight_total(entries);
    assert(Set::new(|roll: int| 0 <= roll < weight_sum(entries) && selects(entries, roll, i))
        =~= set_int_range(prefix_weight(entries, i), prefix_weight(entries, i) + entries[i].1));
    vstd::set_lib::lemma_int_range(
        prefix_weight(entries, i),
        prefix_weight(entries, i) + entries[i].1,
    );
}

/// Categorical sample over the configured weights: returns the entry whose
/// selection window holds the roll; such an entry always has positive
/// weight.
fn pick_weighted(entries: &Vec<(WorkloadGenerator, usize)>, roll: u64) -> (idx: usize)
    requires
        0 <= roll < weight_sum(entries@),
        weight_sum(entries@) <= u64::MAX,
    ensures
        idx < entries@.len(),
        selects(entries@, roll as int, idx as int),
        entries@[idx as int].1 > 0,
{
    let n = entries.len();
    let mut e: usize = 0;
    let mut cum: u64 = 0;
    proof {
        assert(entries@.take(0) =~= Seq::<(WorkloadGenerator, usize)>::empty());
        lemma_weight_sum_nonneg(entries@);
    }
    while e < n
        invariant
            0 <= e <= n,
            n == entries@.len(),
            cum == prefix_weight(entries@, e as int),
            cum <= roll,
            roll < weight_sum(entries@),
            weight_sum(entries@) <= u64::MAX,
        decreases n - e,
    {
        proof {
            lemma_prefix_weight_step(entries@, e as int);
            lemma_prefix_weight_monotonic(entries@, e + 1, entries@.len() as int);
            lemma_prefix_weight_total(entries@);
        }
        let w = entries[e].1 as u64;
        if roll < cum + w {
            return e;
        }
        cum = cum + w;
        e = e + 1;
    }
    proof {
        lemma_prefix_weight_total(entries@);
        assert(false);
    }
    0
}

/// Holds the per-phase mixes; a generator is materialized eagerly for every
/// entry of every phase when a worker asks for its generator, so phase
/// transitions cost nothing on the hot path.
pub struct PhasedTxnMixGeneratorCreator {
    pub txn_generator_creator_mix_per_phase: Vec<Vec<(WorkloadGeneratorCreator, usize)>>,
    pub rng: rand::rngs::StdRng,
}

impl PhasedTxnMixGeneratorCreator {
    pub fn new(
        txn_generator_creator_mix_per_phase: Vec<Vec<(WorkloadGeneratorCreator, usize)>>,
        rng: rand::rngs::StdRng,
    ) -> (c: Self)
        ensures
            c.txn_generator_creator_mix_per_phase@ == txn_generator_creator_mix_per_phase@,
    {
        PhasedTxnMixGeneratorCreator { txn_generator_creator_mix_per_phase, rng }
    }

    /// Materializes one generator per (creator, weight) entry across every
    /// phase, each with its own derived source of randomness.
    pub fn create_transaction_generator(&mut self) -> (g: PhasedTxnMixGenerator)
        ensures
            g.txn_mix_per_phase@.len() == old(
                self,
            ).txn_generator_creator_mix_per_phase@.len(),
            forall|p: int|
                0 <= p < g.txn_mix_per_phase@.len() ==> (#[trigger] g.txn_mix_per_phase@[p])@.len()
                    == old(self).txn_generator_creator_mix_per_phase@[p]@.len(),
            forall|p: int, e: int|
                0 <= p < g.txn_mix_per_phase@.len() && 0 <= e
                    < g.txn_mix_per_phase@[p]@.len() ==> {
                    &&& (#[trigger] g.txn_mix_per_phase@[p]@[e]).1 == old(
                        self,
                    ).txn_generator_creator_mix_per_phase@[p]@[e].1
                    &&& workload_creator_matches(
                        old(self).txn_generator_creator_mix_per_phase@[p]@[e].0,
                        g.txn_mix_per_phase@[p]@[e].0,
                    )
                },
            final(self).txn_generator_creator_mix_per_phase@ == old(
                self,
            ).txn_generator_creator_mix_per_phase@,
    {
        let num_phases = self.txn_generator_creator_mix_per_phase.len();
        let mut mix: Vec<Vec<(WorkloadGenerator, usize)>> = Vec::new();
        let mut p: usize = 0;
        while p < num_phases
            invariant
                0 <= p <= num_phases,
                num_phases == self.txn_generator_creator_mix_per_phase@.len(),
                self.txn_generator_creator_mix_per_phase@ == old(
                    self,
                ).txn_generator_creator_mix_per_phase@,
                mix@.len() == p,
                forall|pp: int|
                    0 <= pp < p ==> (#[trigger] mix@[pp])@.len()
                        == self.txn_generator_creator_mix_per_phase@[pp]@.len(),
                forall|pp: int, e: int|
                    0 <= pp < p && 0 <= e < mix@[pp]@.len() ==> {
                        &&& (#[trigger] mix@[pp]@[e]).1
                            == self.txn_generator_creator_mix_per_phase@[pp]@[e].1
                        &&& workload_creator_matches(
                            self.txn_generator_creator_mix_per_phase@[pp]@[e].0,
                            mix@[pp]@[e].0,
                        )
                    },
            decreases num_phases - p,
        {
            let phase_len = self.txn_generator_creator_mix_per_phase[p].len();
            let mut phase_mix: Vec<(WorkloadGenerator, usize)> = Vec::new();
            let mut e: usize = 0;
            while e < phase_len
                invariant
                    0 <= e <= phase_len,
                    p < self.txn_generator_creator_mix_per_phase@.len(),
                    phase_len == self.txn_generator_creator_mix_per_phase@[p as int]@.len(),
                    self.txn_generator_creator_mix_per_phase@ == old(
                        self,
                    ).txn_generator_creator_mix_per_phase@,
                    phase_mix@.len() == e,
                    forall|ee: int|
                        0 <= ee < e ==> {
                            &&& (#[trigger] phase_mix@[ee]).1
                                == self.txn_generator_creator_mix_per_phase@[p as int]@[ee].1
                            &&& workload_creator_matches(
                                self.txn_generator_creator_mix_per_phase@[p as int]@[ee].0,
                                phase_mix@[ee].0,
                            )
                        },
                decreases phase_len - e,
            {
                let seed = rand_below(&mut self.rng, u64::MAX);
                let child_rng = rng_from_seed(seed);
                let entry_ref = &self.txn_generator_creator_mix_per_phase[p][e];
                let generator = entry_ref.0.create_transaction_generator(child_rng);
                let weight = entry_ref.1;
                phase_mix.push((generator, weight));
                e = e + 1;
            }
            mix.push(phase_mix);
            p = p + 1;
        }
        PhasedTxnMixGenerator { txn_mix_per_phase: mix, rng: rng_from_seed(
            rand_below(&mut self.rng, u64::MAX),
        ) }
    }
}

/// Per-worker composite generator: holds one materialized generator per mix
/// entry per phase and routes each call by weighted random selection over
/// the phase the external driver currently points at.
pub struct PhasedTxnMixGenerator {
    pub txn_mix_per_phase: Vec<Vec<(WorkloadGenerator, usize)>>,
    pub rng: rand::rngs::StdRng,
}

impl PhasedTxnMixGenerator {
    /// A mix the composer can select from: every phase non-empty, with a
    /// positive, representable total weight.
    pub open spec fn well_formed(&self) -> bool {
        forall|p: int|
            0 <= p < self.txn_mix_per_phase@.len() ==> 0 < weight_sum(
                (#[trigger] self.txn_mix_per_phase@[p])@,
            ) <= u64::MAX
    }

    /// All mix entries untouched but the selected one.
    pub open spec fn mix_updated_at(
        pre: Seq<Vec<(WorkloadGenerator, usize)>>,
        post: Seq<Vec<(WorkloadGenerator, usize)>>,
        phase: int,
        idx: int,
    ) -> bool {
        &&& post.len() == pre.len()
        &&& forall|p: int| 0 <= p < pre.len() && p != phase ==> #[trigger] post[p]@ == pre[p]@
        &&& post[phase]@.len() == pre[phase]@.len()
        &&& forall|e: int|
            0 <= e < pre[phase]@.len() && e != idx ==> #[trigger] post[phase]@[e]
                == pre[phase]@[e]
        &&& post[phase]@[idx].1 == pre[phase]@[idx].1
    }

    /// Routes one generation call: reads the externally chosen phase, draws
    /// a categorical sample over that phase's weights — a zero-weight entry
    /// is never selected — and delegates to the selected strategy.
    pub fn generate_transactions(
        &mut self,
        addresses: &mut AddressPool,
        account_pool: &mut AccountPool,
        accounts: &mut Vec<SigningAccount>,
        transactions_per_account: usize,
        cur_phase: usize,
    ) -> (result: Vec<SignedTransaction>)
        requires
            old(self).well_formed(),
            cur_phase < old(self).txn_mix_per_phase@.len(),
            forall|e: int|
                0 <= e < old(self).txn_mix_per_phase@[cur_phase as int]@.len()
                    ==> workload_generate_requires(
                    (#[trigger] old(self).txn_mix_per_phase@[cur_phase as int]@[e]).0,
                    old(addresses)@,
                ),
        ensures
            transactions_per_account >= 1 ==> result@.len() <= old(accounts)@.len()
                * transactions_per_account,
            exists|idx: int|
                {
                    &&& 0 <= idx < old(self).txn_mix_per_phase@[cur_phase as int]@.len()
                    &&& (#[trigger] old(self).txn_mix_per_phase@[cur_phase as int]@[idx]).1 > 0
                    &&& Self::mix_updated_at(
                        old(self).txn_mix_per_phase@,
                        final(self).txn_mix_per_phase@,
                        cur_phase as int,
                        idx,
                    )
                    &&& workload_generate_ensures(
                        old(self).txn_mix_per_phase@[cur_phase as int]@[idx].0,
                        final(self).txn_mix_per_phase@[cur_phase as int]@[idx].0,
                        old(addresses)@,
                        final(addresses)@,
                        old(account_pool)@,
                        final(account_pool)@,
                        old(accounts)@,
                        final(accounts)@,
                        transactions_per_account as nat,
                        result@,
                    )
                },
    {
        let ghost mix0 = self.txn_mix_per_phase@;
        let ghost addr0 = addresses@;
        let ghost pool0 = account_pool@;
        let ghost accs0 = accounts@;
        let total_weight = {
            let entries = &self.txn_mix_per_phase[cur_phase];
            let n = entries.len();
            let mut total: u64 = 0;
            let mut e: usize = 0;
            proof {
                assert(entries@.take(0) =~= Seq::<(WorkloadGenerator, usize)>::empty());
            }
            while e < n
                invariant
                    0 <= e <= n,
                    n == entries@.len(),
                    total == prefix_weight(entries@, e as int),
                    weight_sum(entries@) <= u64::MAX,
                decreases n - e,
            {
                proof {
                    lemma_prefix_weight_step(entries@, e as int);
                    lemma_prefix_weight_monotonic(entries@, e + 1, entries@.len() as int);
                    lemma_prefix_weight_total(entries@);
                    lemma_weight_sum_nonneg(entries@.take(e as int));
                }
                total = total + (entries[e].1 as u64);
                e = e + 1;
            }
            proof {
                lemma_prefix_weight_total(entries@);
            }
            total
        };
        let roll = rand_below(&mut self.rng, total_weight);
        let idx = pick_weighted(&self.txn_mix_per_phase[cur_phase], roll);
        let phase_entries = vstd::std_specs::vec::vec_index_mut(
            &mut self.txn_mix_per_phase,
            cur_phase,
        );
        let entry = vstd::std_specs::vec::vec_index_mut(phase_entries, idx);
        let result = entry.0.generate_transactions(
            addresses,
            account_pool,
            accounts,
            transactions_per_account,
        );
        proof {
            assert(Self::mix_updated_at(
                mix0,
                self.txn_mix_per_phase@,
                cur_phase as int,
                idx as int,
            ));
            assert({
                &&& 0 <= idx < mix0[cur_phase as int]@.len()
                &&& mix0[cur_phase as int]@[idx as int].1 > 0
                &&& Self::mix_updated_at(
                    mix0,
                    self.txn_mix_per_phase@,
                    cur_phase as int,
                    idx as int,
                )
                &&& workload_generate_ensures(
                    mix0[cur_phase as int]@[idx as int].0,
                    self.txn_mix_per_phase@[cur_phase as int]@[idx as int].0,
                    addr0,
                    addresses@,
                    pool0,
                    account_pool@,
                    accs0,
                    accounts@,
                    transactions_per_account as nat,
                    result@,
                )
            });
        }
        result
    }
}

} // verus!
