//! The shared pools: an ordered pool of addresses read by uniform random
//! sampling, and an ordered pool of signing accounts drawn from and returned
//! to by the pool-backed strategies.
//!
//! The caller (the surrounding harness) shares each pool behind a
//! reader/writer lock and holds the lock for the duration of a call into the
//! pool, never across a suspension point; the contracts here describe what a
//! single such call does.

use vstd::prelude::*;

use crate::account::SigningAccount;
use crate::rng::rand_below;

verus! {

/// Ordered collection of addresses, grown at runtime and sampled uniformly.
pub struct AddressPool {
    items: Vec<u64>,
}

impl View for AddressPool {
    type V = Seq<u64>;

    closed spec fn view(&self) -> Seq<u64> {
        self.items@
    }
}

impl AddressPool {
    pub fn new(seed_addresses: Vec<u64>) -> (p: Self)
        ensures
            p@ == seed_addresses@,
    {
        AddressPool { items: seed_addresses }
    }

    pub fn len(&self) -> (n: usize)
        ensures
            n == self@.len(),
    {
        self.items.len()
    }

    pub fn get(&self, i: usize) -> (a: u64)
        requires
            i < self@.len(),
        ensures
            a == self@[i as int],
    {
        self.items[i]
    }

    pub fn push(&mut self, address: u64)
        ensures
            final(self)@ == old(self)@.push(address),
    {
        self.items.push(address);
    }

    /// Uniform random sample of one pooled address.
    pub fn sample(&self, rng: &mut rand::rngs::StdRng) -> (a: u64)
        requires
            self@.len() > 0,
        ensures
            self@.contains(a),
    {
        let n = self.items.len();
        let i = rand_below(rng, n as u64);
        let a = self.items[i as usize];
        proof {
            assert(self@[i as int] == a);
        }
        a
    }
}

/// What a pool of `s` accounts hands out when up to `n` are requested: the
/// last `min(n, s.len())` accounts, most recently pooled first.
pub open spec fn popped_of(s: Seq<SigningAccount>, n: nat) -> Seq<SigningAccount> {
    Seq::new(if n <= s.len() { n } else { s.len() }, |j: int| s[s.len() - 1 - j])
}

/// What remains pooled after that grant.
pub open spec fn rest_of(s: Seq<SigningAccount>, n: nat) -> Seq<SigningAccount> {
    s.take(s.len() - (if n <= s.len() { n } else { s.len() }))
}

/// Ordered collection of signing accounts. An account handed out by
/// `pop_upto` leaves the pool and has exactly one holder until it is pushed
/// back, so no two in-flight calls ever hold the same pooled account.
pub struct AccountPool {
    items: Vec<SigningAccount>,
}

impl View for AccountPool {
    type V = Seq<SigningAccount>;

    closed spec fn view(&self) -> Seq<SigningAccount> {
        self.items@
    }
}

impl AccountPool {
    pub fn new() -> (p: Self)
        ensures
            p@ == Seq::<SigningAccount>::empty(),
    {
        AccountPool { items: Vec::new() }
    }

    pub fn len(&self) -> (n: usize)
        ensures
            n == self@.len(),
    {
        self.items.len()
    }

    pub fn get(&self, i: usize) -> (a: SigningAccount)
        requires
            i < self@.len(),
        ensures
            a == self@[i as int],
    {
        self.items[i]
    }

    pub fn push(&mut self, account: SigningAccount)
        ensures
            final(self)@ == old(self)@.push(account),
    {
        self.items.push(account);
    }

    /// Takes up to `n` accounts out of the pool for exclusive use. If fewer
    /// are pooled, the whole pool is granted; the call never fails.
    pub fn pop_upto(&mut self, n: usize) -> (out: Vec<SigningAccount>)
        ensures
            out@ == popped_of(old(self)@, n as nat),
            final(self)@ == rest_of(old(self)@, n as nat),
    {
        let mut out: Vec<SigningAccount> = Vec::new();
        let mut taken: usize = 0;
        while taken < n && self.items.len() > 0
            invariant
                0 <= taken <= n,
                out@.len() == taken,
                taken <= old(self)@.len(),
                self.items@ == old(self)@.take(old(self)@.len() - taken),
                forall|j: int| 0 <= j < taken ==> out@[j] == old(self)@[old(self)@.len() - 1 - j],
            decreases n - taken,
        {
            let a = self.items.pop().unwrap();
            proof {
                assert(old(self)@.take(old(self)@.len() - taken).last() == old(self)@[old(
                    self,
                )@.len() - 1 - taken]);
                assert(old(self)@.take(old(self)@.len() - taken).drop_last() =~= old(
                    self,
                )@.take(old(self)@.len() - (taken + 1)));
            }
            out.push(a);
            taken = taken + 1;
        }
        proof {
            assert(out@ =~= popped_of(old(self)@, n as nat));
            assert(self.items@ =~= rest_of(old(self)@, n as nat));
        }
        out
    }
}

/// Mutual exclusion of grants: when the pooled accounts are pairwise
/// distinct, the accounts granted by one `pop_upto` and those granted by the
/// next — with the first grant still outstanding — share no account. The
/// pool's pop/push protocol therefore never lets two overlapping in-flight
/// calls hold the same pooled account.
pub proof fn lemma_overlapping_grants_disjoint(s: Seq<SigningAccount>, n1: nat, n2: nat)
    requires
        forall|a: int, b: int| 0 <= a < b < s.len() ==> s[a] != s[b],
    ensures
        forall|j1: int, j2: int|
            0 <= j1 < popped_of(s, n1).len() && 0 <= j2 < popped_of(rest_of(s, n1), n2).len()
                ==> popped_of(s, n1)[j1] != popped_of(rest_of(s, n1), n2)[j2],
{
    assert forall|j1: int, j2: int|
        0 <= j1 < popped_of(s, n1).len() && 0 <= j2 < popped_of(rest_of(s, n1), n2).len()
            implies popped_of(s, n1)[j1] != popped_of(rest_of(s, n1), n2)[j2] by {
        let r = rest_of(s, n1);
        let i1 = s.len() - 1 - j1;
        let i2 = r.len() - 1 - j2;
        assert(popped_of(s, n1)[j1] == s[i1]);
        assert(popped_of(r, n2)[j2] == r[i2]);
        assert(r[i2] == s[i2]);
        assert(i2 < r.len() <= i1);
    }
}

} // verus!
