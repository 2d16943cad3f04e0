use vstd::prelude::*;

use crate::transaction::Transaction;

verus! {

broadcast use vstd::seq_lib::group_seq_properties;

/// The ordered holding area for submitted, not-yet-executed transactions.
/// Its abstract value is the queue of pending transactions in submission
/// order, oldest first.
pub struct Mempool {
    queue: Vec<Transaction>,
}

impl View for Mempool {
    type V = Seq<Transaction>;

    closed spec fn view(&self) -> Seq<Transaction> {
        self.queue@
    }
}

/// The number of oldest transactions one drain removes: the requested
/// maximum, or the whole pool if it holds fewer.
pub open spec fn drain_count(pool: Seq<Transaction>, max_count: usize) -> int {
    if max_count as int <= pool.len() {
        max_count as int
    } else {
        pool.len() as int
    }
}

impl Mempool {
    pub fn new() -> (m: Mempool)
        ensures
            m@ == Seq::<Transaction>::empty(),
    {
        Mempool { queue: Vec::new() }
    }

    pub fn len(&self) -> (n: usize)
        ensures
            n == self@.len(),
    {
        self.queue.len()
    }

    /// Append a transaction at the tail. Never rejects a transaction.
    pub fn enqueue(&mut self, t: Transaction)
        ensures
            final(self)@ == old(self)@.push(t),
    {
        self.queue.push(t);
    }

    /// Atomically remove and return the up-to-`max_count` oldest
    /// transactions, in submission order; what remains is exactly the
    /// rest of the pool, so a drained transaction is never returned by a
    /// later drain.
    pub fn drain(&mut self, max_count: usize) -> (batch: Vec<Transaction>)
        ensures
            batch@ == old(self)@.take(drain_count(old(self)@, max_count)),
            final(self)@ == old(self)@.skip(drain_count(old(self)@, max_count)),
    {
        let ghost orig = self.queue@;
        let mut batch: Vec<Transaction> = Vec::new();
        proof {
            assert(orig.skip(0) =~= orig);
            assert(orig.take(0) =~= Seq::<Transaction>::empty());
        }
        while batch.len() < max_count && self.queue.len() > 0
            invariant
                batch@.len() <= max_count,
                batch@.len() + self.queue@.len() == orig.len(),
                batch@ == orig.take(batch@.len() as int),
                self.queue@ == orig.skip(batch@.len() as int),
            decreases self.queue@.len(),
        {
            let ghost j = batch@.len() as int;
            let t = self.queue.remove(0);
            proof {
                assert(orig.skip(j)[0] == orig[j]);
                assert(orig.skip(j).remove(0) =~= orig.skip(j + 1));
                assert(orig.take(j).push(orig[j]) =~= orig.take(j + 1));
            }
            batch.push(t);
        }
        proof {
            assert(batch@.len() as int == drain_count(orig, max_count));
        }
        batch
    }
}

/// Law: immediately after an enqueue and before any drain, the enqueued
/// transaction is present in the pool exactly once more than before; in
/// particular, one not previously present is present exactly once.
pub proof fn lemma_enqueue_present_once(pool: Seq<Transaction>, t: Transaction)
    ensures
        pool.push(t).to_multiset().count(t) == pool.to_multiset().count(t) + 1,
        !pool.contains(t) ==> pool.push(t).to_multiset().count(t) == 1,
{
    pool.to_multiset_ensures();
    assert(pool.push(t).to_multiset() =~= pool.to_multiset().insert(t));
    if !pool.contains(t) {
        assert(pool.to_multiset().count(t) == 0);
    }
}

/// Law: a drain partitions the pool. The batch it returns, followed by
/// what remains, is exactly the pool before the drain: no transaction is
/// duplicated and none is omitted.
pub proof fn lemma_drain_partition(pool: Seq<Transaction>, k: int)
    requires
        0 <= k <= pool.len(),
    ensures
        pool.take(k) + pool.skip(k) == pool,
{
    assert(pool.take(k) + pool.skip(k) =~= pool);
}

/// Law: consecutive drains compose. The first batch followed by the
/// second equals the oldest `k1 + k2` transactions of the starting pool
/// in submission order, so the union of all drained batches is the
/// submission order itself.
pub proof fn lemma_drains_compose(pool: Seq<Transaction>, k1: int, k2: int)
    requires
        0 <= k1,
        0 <= k2,
        k1 + k2 <= pool.len(),
    ensures
        pool.take(k1) + pool.skip(k1).take(k2) == pool.take(k1 + k2),
{
    assert(pool.take(k1) + pool.skip(k1).take(k2) =~= pool.take(k1 + k2));
}

/// How many transactions a sequence of drains removes in all.
pub open spec fn total_count(counts: Seq<int>) -> int
    decreases counts.len(),
{
    if counts.len() == 0 {
        0
    } else {
        counts[0] + total_count(counts.skip(1))
    }
}

/// The union, in order, of the batches that a sequence of drains of the
/// given sizes returns, starting from this pool.
pub open spec fn drained_union(pool: Seq<Transaction>, counts: Seq<int>) -> Seq<Transaction>
    decreases counts.len(),
{
    if counts.len() == 0 {
        Seq::empty()
    } else {
        pool.take(counts[0]) + drained_union(pool.skip(counts[0]), counts.skip(1))
    }
}

proof fn lemma_total_count_nonneg(counts: Seq<int>)
    requires
        forall|i: int| 0 <= i < counts.len() ==> counts[i] >= 0,
    ensures
        total_count(counts) >= 0,
    decreases counts.len(),
{
    if counts.len() > 0 {
        assert(forall|i: int| 0 <= i < counts.skip(1).len() ==> counts.skip(1)[i] == counts[i
            + 1]);
        lemma_total_count_nonneg(counts.skip(1));
    }
}

/// Law: for any sequence of drains, the union of all drained batches is
/// exactly the drained-off prefix of the submission order — every
/// submitted transaction appears once and in order, none is duplicated
/// and none is omitted. A sequence that empties the pool reproduces the
/// whole submission order.
pub proof fn lemma_drain_union(pool: Seq<Transaction>, counts: Seq<int>)
    requires
        forall|i: int| 0 <= i < counts.len() ==> counts[i] >= 0,
        total_count(counts) <= pool.len(),
    ensures
        drained_union(pool, counts) == pool.take(total_count(counts)),
    decreases counts.len(),
{
    if counts.len() == 0 {
        assert(drained_union(pool, counts) =~= pool.take(0));
    } else {
        let k = counts[0];
        let rest = counts.skip(1);
        assert(forall|i: int| 0 <= i < rest.len() ==> rest[i] == counts[i + 1]);
        lemma_total_count_nonneg(rest);
        lemma_drain_union(pool.skip(k), rest);
        lemma_drains_compose(pool, k, total_count(rest));
    }
}

} // verus!
