//! Signed transactions, the transaction-building capability, and the shared
//! signing engine that every strategy uses.
//!
//! The engine consumes, per account, successive local sequence numbers
//! starting at the account's counter and advances the counter by the number
//! of transactions actually produced. Production saturates instead of
//! overflowing: once an account's counter reaches the largest representable
//! sequence number, no further transaction is produced for it, so generation
//! is infallible and structural limits only reduce output volume.

use vstd::prelude::*;

use crate::account::SigningAccount;
use crate::module_simple::EntryPoints;

verus! {

/// What a generated transaction does. Each variant is self-contained: the
/// value has no on-chain effect until it is submitted externally.
#[derive(Debug, Copy, Clone, PartialEq, Eq, Structural)]
pub enum TransactionPayload {
    /// Peer-to-peer transfer of `amount` coins to `to`.
    CoinTransfer { to: u64, amount: u64 },
    /// Creation of a fresh account with the given authentication key and
    /// initial balance.
    CreateAccount { new_address: u64, auth_key: u64, initial_balance: u64 },
    /// Minting of a token in the collection owned by `creator`.
    NftMint { creator: u64 },
    /// Transfer of a previously minted token of `creator`'s collection.
    NftTransfer { creator: u64, to: u64 },
    /// Publication of a package; `package` numbers the sender's packages.
    PublishPackage { package: u64 },
    /// Invocation of an entry point of a previously published module.
    EntryCall { module_publisher: u64, module_index: u64, entry_point: EntryPoints },
}

/// A fully signed, self-contained transaction.
#[derive(Debug, Copy, Clone, PartialEq, Eq, Structural)]
pub struct SignedTransaction {
    pub sender: u64,
    pub sequence_number: u64,
    pub payload: TransactionPayload,
    pub chain_id: u8,
    pub max_gas_amount: u64,
    pub gas_unit_price: u64,
    pub expiration_timestamp_secs: u64,
    /// Stands for the sender's signature over the rest of the fields; it is
    /// a function of the sender's signing capability.
    pub authenticator: u64,
}

impl SignedTransaction {
    pub fn sender(&self) -> (r: u64)
        ensures
            r == self.sender,
    {
        self.sender
    }

    pub fn sequence_number(&self) -> (r: u64)
        ensures
            r == self.sequence_number,
    {
        self.sequence_number
    }
}

/// The transaction-building capability: everything a signed transaction
/// carries besides its sender, sequence number and payload.
#[derive(Debug, Copy, Clone, PartialEq, Eq, Structural)]
pub struct TransactionFactory {
    pub chain_id: u8,
    pub max_gas_amount: u64,
    pub gas_unit_price: u64,
    pub transaction_expiration_time: u64,
}

impl TransactionFactory {
    pub fn new(chain_id: u8) -> (f: Self)
        ensures
            f == (TransactionFactory {
                chain_id,
                max_gas_amount: 100_000,
                gas_unit_price: 100,
                transaction_expiration_time: 60,
            }),
    {
        TransactionFactory {
            chain_id,
            max_gas_amount: 100_000,
            gas_unit_price: 100,
            transaction_expiration_time: 60,
        }
    }
}

/// The transaction that `factory` builds for `account`'s `j`-th slot of a
/// call, carrying the given payload.
pub open spec fn spec_signed(
    factory: TransactionFactory,
    account: SigningAccount,
    j: nat,
    payload: TransactionPayload,
) -> SignedTransaction {
    SignedTransaction {
        sender: account.address,
        sequence_number: (account.sequence_number + j) as u64,
        payload,
        chain_id: factory.chain_id,
        max_gas_amount: factory.max_gas_amount,
        gas_unit_price: factory.gas_unit_price,
        expiration_timestamp_secs: factory.transaction_expiration_time,
        authenticator: account.key,
    }
}

/// How many of `n` requested transactions an account whose counter stands at
/// `s` actually produces: all of them, unless the counter would overflow.
pub open spec fn cap_count(s: u64, n: nat) -> nat {
    if s + n <= u64::MAX {
        n
    } else {
        (u64::MAX - s) as nat
    }
}

/// Total number of transactions produced for `accs` when account `i` is
/// asked for `rows[i].len()` transactions.
pub open spec fn total_count(accs: Seq<SigningAccount>, rows: Seq<Vec<TransactionPayload>>) -> nat
    decreases accs.len(),
{
    if accs.len() == 0 || accs.len() != rows.len() {
        0
    } else {
        total_count(accs.drop_last(), rows.drop_last()) + cap_count(
            accs.last().sequence_number,
            rows.last()@.len(),
        )
    }
}

/// Where account `i`'s block of transactions starts in the produced batch.
pub open spec fn block_offset(
    accs: Seq<SigningAccount>,
    rows: Seq<Vec<TransactionPayload>>,
    i: int,
) -> nat {
    total_count(accs.take(i), rows.take(i))
}

pub proof fn lemma_total_count_step(
    accs: Seq<SigningAccount>,
    rows: Seq<Vec<TransactionPayload>>,
    i: int,
)
    requires
        accs.len() == rows.len(),
        0 <= i < accs.len(),
    ensures
        total_count(accs.take(i + 1), rows.take(i + 1)) == total_count(
            accs.take(i),
            rows.take(i),
        ) + cap_count(accs[i].sequence_number, rows[i]@.len()),
{
    assert(accs.take(i + 1).drop_last() =~= accs.take(i));
    assert(rows.take(i + 1).drop_last() =~= rows.take(i));
    assert(accs.take(i + 1).last() == accs[i]);
    assert(rows.take(i + 1).last() == rows[i]);
}

pub proof fn lemma_block_offset_monotonic(
    accs: Seq<SigningAccount>,
    rows: Seq<Vec<TransactionPayload>>,
    a: int,
    b: int,
)
    requires
        accs.len() == rows.len(),
        0 <= a <= b <= accs.len(),
    ensures
        total_count(accs.take(a), rows.take(a)) <= total_count(accs.take(b), rows.take(b)),
    decreases b - a,
{
    if a < b {
        lemma_total_count_step(accs, rows, a);
        lemma_block_offset_monotonic(accs, rows, a + 1, b);
    }
}

/// The batch never holds more than `tpa` transactions per account.
pub proof fn lemma_total_count_bounded(
    accs: Seq<SigningAccount>,
    rows: Seq<Vec<TransactionPayload>>,
    tpa: nat,
)
    requires
        accs.len() == rows.len(),
        forall|i: int| 0 <= i < rows.len() ==> #[trigger] rows[i]@.len() <= tpa,
    ensures
        total_count(accs, rows) <= accs.len() * tpa,
    decreases accs.len(),
{
    if accs.len() != 0 {
        lemma_total_count_bounded(accs.drop_last(), rows.drop_last(), tpa);
        assert(cap_count(accs.last().sequence_number, rows.last()@.len()) <= tpa);
        assert((accs.len() - 1) * tpa + tpa == accs.len() * tpa) by (nonlinear_arith);
    }
}

/// Total number of transactions produced when every account is asked for
/// `k` transactions.
pub open spec fn total_uniform(accs: Seq<SigningAccount>, k: nat) -> nat
    decreases accs.len(),
{
    if accs.len() == 0 {
        0
    } else {
        total_uniform(accs.drop_last(), k) + cap_count(accs.last().sequence_number, k)
    }
}

/// Where account `i`'s block starts when every account is asked for `k`
/// transactions.
pub open spec fn offset_uniform(accs: Seq<SigningAccount>, k: nat, i: int) -> nat {
    total_uniform(accs.take(i), k)
}

/// The accounts after a call that asked each for `k` transactions: address
/// and signing capability untouched, counter advanced by the number
/// produced.
pub open spec fn accounts_advanced(
    pre: Seq<SigningAccount>,
    post: Seq<SigningAccount>,
    k: nat,
) -> bool {
    &&& post.len() == pre.len()
    &&& forall|i: int|
        0 <= i < pre.len() ==> {
            &&& (#[trigger] post[i]).address == pre[i].address
            &&& post[i].key == pre[i].key
            &&& post[i].sequence_number == pre[i].sequence_number + cap_count(
                pre[i].sequence_number,
                k,
            )
        }
}

/// The accounts as they stand after a call that asked each for `k`
/// transactions: the unique sequence `accounts_advanced` admits.
pub open spec fn advanced_accounts(pre: Seq<SigningAccount>, k: nat) -> Seq<SigningAccount> {
    Seq::new(
        pre.len(),
        |i: int|
            SigningAccount {
                address: pre[i].address,
                key: pre[i].key,
                sequence_number: (pre[i].sequence_number + cap_count(
                    pre[i].sequence_number,
                    k,
                )) as u64,
            },
    )
}

pub proof fn lemma_accounts_advanced_unique(pre: Seq<SigningAccount>, post: Seq<SigningAccount>, k: nat)
    requires
        accounts_advanced(pre, post, k),
    ensures
        post =~= advanced_accounts(pre, k),
{
}

/// The transaction standing at slot `j` of account `i`'s block.
pub open spec fn batch_txn(
    result: Seq<SignedTransaction>,
    pre: Seq<SigningAccount>,
    k: nat,
    i: int,
    j: int,
) -> SignedTransaction {
    result[offset_uniform(pre, k, i) + j]
}

/// The produced batch, laid out account block by account block, each block
/// built by the factory over successive sequence numbers starting at the
/// account's pre-call counter. Everything but each transaction's payload is
/// pinned down.
pub open spec fn batch_well_formed(
    result: Seq<SignedTransaction>,
    pre: Seq<SigningAccount>,
    factory: TransactionFactory,
    k: nat,
) -> bool {
    &&& result.len() == total_uniform(pre, k)
    &&& forall|i: int, j: int|
        0 <= i < pre.len() && 0 <= j < cap_count(pre[i].sequence_number, k)
            ==> #[trigger] batch_txn(result, pre, k, i, j) == spec_signed(
            factory,
            pre[i],
            j as nat,
            batch_txn(result, pre, k, i, j).payload,
        )
}

pub proof fn lemma_total_uniform_step(accs: Seq<SigningAccount>, k: nat, i: int)
    requires
        0 <= i < accs.len(),
    ensures
        total_uniform(accs.take(i + 1), k) == total_uniform(accs.take(i), k) + cap_count(
            accs[i].sequence_number,
            k,
        ),
{
    assert(accs.take(i + 1).drop_last() =~= accs.take(i));
    assert(accs.take(i + 1).last() == accs[i]);
}

/// Every slot of an account's block lies inside the batch.
pub proof fn lemma_offset_uniform_in_range(accs: Seq<SigningAccount>, k: nat, i: int, j: int)
    requires
        0 <= i < accs.len(),
        0 <= j < cap_count(accs[i].sequence_number, k),
    ensures
        offset_uniform(accs, k, i) + j < total_uniform(accs, k),
{
    lemma_total_uniform_step(accs, k, i);
    lemma_offset_uniform_monotonic(accs, k, i + 1, accs.len() as int);
    assert(accs.take(accs.len() as int) =~= accs);
}

pub proof fn lemma_offset_uniform_monotonic(accs: Seq<SigningAccount>, k: nat, a: int, b: int)
    requires
        0 <= a <= b <= accs.len(),
    ensures
        total_uniform(accs.take(a), k) <= total_uniform(accs.take(b), k),
    decreases b - a,
{
    if a < b {
        lemma_total_uniform_step(accs, k, a);
        lemma_offset_uniform_monotonic(accs, k, a + 1, b);
    }
}

pub proof fn lemma_total_uniform_bounded(accs: Seq<SigningAccount>, k: nat)
    ensures
        total_uniform(accs, k) <= accs.len() * k,
    decreases accs.len(),
{
    if accs.len() != 0 {
        lemma_total_uniform_bounded(accs.drop_last(), k);
        assert((accs.len() - 1) * k + k == accs.len() * k) by (nonlinear_arith);
    }
}

/// When every row has length `k`, the row-by-row total equals the uniform
/// total.
pub proof fn lemma_total_uniform_rows(
    accs: Seq<SigningAccount>,
    rows: Seq<Vec<TransactionPayload>>,
    k: nat,
)
    requires
        accs.len() == rows.len(),
        forall|i: int| 0 <= i < rows.len() ==> #[trigger] rows[i]@.len() == k,
    ensures
        total_count(accs, rows) == total_uniform(accs, k),
    decreases accs.len(),
{
    if accs.len() != 0 {
        assert(rows[accs.len() - 1]@.len() == k);
        lemma_total_uniform_rows(accs.drop_last(), rows.drop_last(), k);
    }
}

/// And the block offsets agree as well.
pub proof fn lemma_offset_uniform_rows(
    accs: Seq<SigningAccount>,
    rows: Seq<Vec<TransactionPayload>>,
    k: nat,
    i: int,
)
    requires
        accs.len() == rows.len(),
        forall|m: int| 0 <= m < rows.len() ==> #[trigger] rows[m]@.len() == k,
        0 <= i <= accs.len(),
    ensures
        block_offset(accs, rows, i) == offset_uniform(accs, k, i),
{
    assert(forall|m: int|
        0 <= m < rows.take(i).len() ==> #[trigger] rows.take(i)[m]@.len() == k);
    lemma_total_uniform_rows(accs.take(i), rows.take(i), k);
}

/// Every position of a uniform batch lies in the block of some account:
/// hands back that account's index and the slot within its block.
pub proof fn lemma_batch_index(accs: Seq<SigningAccount>, k: nat, m: int) -> (r: (int, int))
    requires
        0 <= m < total_uniform(accs, k),
    ensures
        0 <= r.0 < accs.len(),
        0 <= r.1 < cap_count(accs[r.0].sequence_number, k),
        m == offset_uniform(accs, k, r.0) + r.1,
    decreases accs.len(),
{
    let last = accs.len() - 1;
    if m < total_uniform(accs.drop_last(), k) {
        let (i, j) = lemma_batch_index(accs.drop_last(), k, m);
        assert(accs.drop_last().take(i) =~= accs.take(i));
        (i, j)
    } else {
        let j = m - total_uniform(accs.drop_last(), k);
        assert(accs.take(last) =~= accs.drop_last());
        (last, j)
    }
}

/// Signs one account's block: one transaction per payload, consuming
/// successive sequence numbers, stopping early only at counter saturation.
pub fn sign_for_account(
    factory: &TransactionFactory,
    account: &mut SigningAccount,
    payloads: &Vec<TransactionPayload>,
    out: &mut Vec<SignedTransaction>,
)
    ensures
        final(account).address == old(account).address,
        final(account).key == old(account).key,
        final(account).sequence_number == old(account).sequence_number + cap_count(
            old(account).sequence_number,
            payloads@.len(),
        ),
        final(out)@.len() == old(out)@.len() + cap_count(
            old(account).sequence_number,
            payloads@.len(),
        ),
        forall|m: int| 0 <= m < old(out)@.len() ==> final(out)@[m] == old(out)@[m],
        forall|j: int|
            0 <= j < cap_count(old(account).sequence_number, payloads@.len())
                ==> final(out)@[old(out)@.len() + j] == spec_signed(
                *factory,
                *old(account),
                j as nat,
                payloads@[j],
            ),
{
    let ghost pre = *account;
    let ghost base = out@.len();
    let n = payloads.len();
    let mut j: usize = 0;
    while j < n && account.sequence_number < u64::MAX
        invariant
            0 <= j <= n,
            n == payloads@.len(),
            account.address == pre.address,
            account.key == pre.key,
            account.sequence_number == pre.sequence_number + j,
            out@.len() == base + j,
            forall|m: int| 0 <= m < base ==> out@[m] == old(out)@[m],
            forall|jj: int|
                0 <= jj < j ==> out@[base + jj] == spec_signed(
                    *factory,
                    pre,
                    jj as nat,
                    payloads@[jj],
                ),
        decreases n - j,
    {
        let txn = SignedTransaction {
            sender: account.address,
            sequence_number: account.sequence_number,
            payload: payloads[j],
            chain_id: factory.chain_id,
            max_gas_amount: factory.max_gas_amount,
            gas_unit_price: factory.gas_unit_price,
            expiration_timestamp_secs: factory.transaction_expiration_time,
            authenticator: account.key,
        };
        out.push(txn);
        account.sequence_number = account.sequence_number + 1;
        j = j + 1;
    }
}

/// Signs a whole batch: `payloads[i]` is what account `i` is asked to sign.
/// The result is laid out account block by account block; each block starts
/// at `block_offset` and carries strictly increasing, gap-free sequence
/// numbers starting at its account's pre-call counter, and each counter is
/// advanced by exactly the number of transactions produced for it.
pub fn sign_all(
    factory: &TransactionFactory,
    accounts: &mut Vec<SigningAccount>,
    payloads: &Vec<Vec<TransactionPayload>>,
) -> (result: Vec<SignedTransaction>)
    requires
        old(accounts)@.len() == payloads@.len(),
    ensures
        final(accounts)@.len() == old(accounts)@.len(),
        forall|i: int|
            0 <= i < old(accounts)@.len() ==> {
                &&& (#[trigger] final(accounts)@[i]).address == old(accounts)@[i].address
                &&& final(accounts)@[i].key == old(accounts)@[i].key
                &&& final(accounts)@[i].sequence_number == old(accounts)@[i].sequence_number
                    + cap_count(old(accounts)@[i].sequence_number, payloads@[i]@.len())
            },
        result@.len() == total_count(old(accounts)@, payloads@),
        forall|i: int, j: int|
            0 <= i < old(accounts)@.len() && 0 <= j < cap_count(
                old(accounts)@[i].sequence_number,
                payloads@[i]@.len(),
            ) ==> result@[block_offset(old(accounts)@, payloads@, i) + j] == spec_signed(
                *factory,
                old(accounts)@[i],
                j as nat,
                payloads@[i]@[j],
            ),
{
    let ghost accs0 = accounts@;
    let mut result: Vec<SignedTransaction> = Vec::new();
    let n = accounts.len();
    let mut i: usize = 0;
    proof {
        assert(accs0.take(0) =~= Seq::<SigningAccount>::empty());
        assert(payloads@.take(0) =~= Seq::<Vec<TransactionPayload>>::empty());
    }
    while i < n
        invariant
            0 <= i <= n,
            n == accs0.len(),
            accounts@.len() == n,
            payloads@.len() == n,
            forall|m: int| i <= m < n ==> accounts@[m] == accs0[m],
            forall|m: int|
                0 <= m < i ==> {
                    &&& (#[trigger] accounts@[m]).address == accs0[m].address
                    &&& accounts@[m].key == accs0[m].key
                    &&& accounts@[m].sequence_number == accs0[m].sequence_number + cap_count(
                        accs0[m].sequence_number,
                        payloads@[m]@.len(),
                    )
                },
            result@.len() == total_count(accs0.take(i as int), payloads@.take(i as int)),
            forall|m: int, j: int|
                0 <= m < i && 0 <= j < cap_count(accs0[m].sequence_number, payloads@[m]@.len())
                    ==> result@[block_offset(accs0, payloads@, m) + j] == spec_signed(
                    *factory,
                    accs0[m],
                    j as nat,
                    payloads@[m]@[j],
                ),
        decreases n - i,
    {
        proof {
            lemma_total_count_step(accs0, payloads@, i as int);
        }
        let mut acc = accounts[i];
        sign_for_account(factory, &mut acc, &payloads[i], &mut result);
        let slot = vstd::std_specs::vec::vec_index_mut(accounts, i);
        *slot = acc;
        proof {
            assert forall|m: int, j: int|
                0 <= m <= i && 0 <= j < cap_count(
                    accs0[m].sequence_number,
                    payloads@[m]@.len(),
                ) implies result@[block_offset(accs0, payloads@, m) + j] == spec_signed(
                *factory,
                accs0[m],
                j as nat,
                payloads@[m]@[j],
            ) by {
                lemma_total_count_step(accs0, payloads@, m);
                if m < i {
                    lemma_block_offset_monotonic(accs0, payloads@, m + 1, i as int);
                }
            }
        }
        i = i + 1;
    }
    proof {
        assert(accs0.take(n as int) =~= accs0);
        assert(payloads@.take(n as int) =~= payloads@);
    }
    result
}

} // verus!
