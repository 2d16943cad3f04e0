use vstd::prelude::*;

use crate::engine::{apply, spec_apply};
use crate::error::ChainError;
use crate::ledger::{spec_balance, spec_nonce, AccountState, LedgerState};
use crate::mempool::{drain_count, Mempool};
use crate::store::{entry_of, no_entries, receipt_of, StoreEntry, TransactionStore};
use crate::transaction::{Receipt, SignedTransaction, Transaction};

verus! {

/// What one block-production cycle does to the ledger and the store when
/// it executes a drained batch front to back: the ledger and store
/// afterwards, how many transactions were executed and committed, and
/// whether the whole batch went through. A transaction whose hash is
/// already committed stops the cycle on the spot — its receipt must not
/// be overwritten — leaving the earlier commits in place and the rest of
/// the batch unexecuted.
pub open spec fn run_batch(
    ledger: Map<u64, AccountState>,
    store: Map<u64, StoreEntry>,
    batch: Seq<Transaction>,
    block_number: u64,
) -> (Map<u64, AccountState>, Map<u64, StoreEntry>, int, bool)
    decreases batch.len(),
{
    if batch.len() == 0 {
        (ledger, store, 0, true)
    } else {
        let t = batch[0];
        if store.contains_key(t.hash) {
            (ledger, store, 0, false)
        } else {
            let stepped = spec_apply(ledger, t, block_number);
            let rest = run_batch(
                stepped.0,
                store.insert(t.hash, entry_of(t, stepped.1)),
                batch.skip(1),
                block_number,
            );
            (rest.0, rest.1, rest.2 + 1, rest.3)
        }
    }
}

/// The single entry point external collaborators call: it owns the
/// mempool, the ledger, the transaction store and the block counter, and
/// coordinates submission, block production and queries.
pub struct Chain {
    pub mempool: Mempool,
    pub ledger: LedgerState,
    pub store: TransactionStore,
    pub height: u64,
}

impl Chain {
    pub fn new() -> (c: Chain)
        ensures
            c.mempool@ == Seq::<Transaction>::empty(),
            c.ledger@ == crate::ledger::no_accounts(),
            c.store@ == no_entries(),
            c.height == 0,
    {
        Chain {
            mempool: Mempool::new(),
            ledger: LedgerState::new(),
            store: TransactionStore::new(),
            height: 0,
        }
    }

    /// Accept a signed transaction into the mempool and return its hash.
    /// The wire boundary has already verified the signature; the core
    /// does not re-verify it, and never rejects a submission. Nothing but
    /// the mempool changes.
    pub fn submit(&mut self, signed: SignedTransaction) -> (hash: u64)
        ensures
            final(self).mempool@ == old(self).mempool@.push(signed.transaction),
            hash == signed.transaction.hash,
            final(self).ledger@ == old(self).ledger@,
            final(self).store@ == old(self).store@,
            final(self).height == old(self).height,
    {
        let hash = signed.transaction.hash;
        self.mempool.enqueue(signed.transaction);
        hash
    }

    /// How many submitted transactions are pending, not yet drained.
    pub fn mempool_len(&self) -> (n: usize)
        ensures
            n == self.mempool@.len(),
    {
        self.mempool.len()
    }

    /// Current balance of an account; zero for unknown accounts.
    pub fn get_balance(&self, account: u64) -> (balance: u64)
        ensures
            balance == spec_balance(self.ledger@, account),
    {
        self.ledger.get_balance(account)
    }

    /// Next expected nonce of an account; zero — not an error — for an
    /// account that never transacted.
    pub fn get_nonce(&self, account: u64) -> (nonce: u64)
        ensures
            nonce == spec_nonce(self.ledger@, account),
    {
        self.ledger.get_nonce(account)
    }

    /// The receipt committed for this hash, or `TransactionNotFound` when
    /// none has been committed yet (unknown, or still pending).
    pub fn get_receipt(&self, hash: u64) -> (result: Result<Receipt, ChainError>)
        ensures
            self.store@.contains_key(hash) ==> result == Ok::<Receipt, ChainError>(
                receipt_of(self.store@, hash),
            ),
            !self.store@.contains_key(hash) ==> result == Err::<Receipt, ChainError>(
                ChainError::TransactionNotFound(hash),
            ),
    {
        self.store.get_receipt(hash)
    }

    /// Genesis provisioning: record an initial balance for an account.
    pub fn set_balance(&mut self, account: u64, amount: u64)
        ensures
            final(self).ledger@ == old(self).ledger@.insert(
                account,
                AccountState { balance: amount, nonce: spec_nonce(old(self).ledger@, account) },
            ),
            final(self).mempool@ == old(self).mempool@,
            final(self).store@ == old(self).store@,
            final(self).height == old(self).height,
    {
        self.ledger.set_balance(account, amount);
    }

    /// One block-production cycle: drain up to `max_count` of the oldest
    /// pending transactions; if none, do nothing; otherwise allocate the
    /// next block number, execute the batch in drained (submission)
    /// order, commit each receipt, and advance the block counter — by one
    /// exactly when the cycle processed at least one transaction. A batch
    /// transaction whose hash already has a receipt stops the cycle with
    /// `DuplicateCommit` instead of overwriting it; on success the number
    /// of processed transactions is returned.
    #[verifier::loop_isolation(false)]
    pub fn produce_block(&mut self, max_count: usize) -> (result: Result<usize, ChainError>)
        requires
            old(self).height < u64::MAX,
        ensures
            ({
                let k = drain_count(old(self).mempool@, max_count);
                let batch = old(self).mempool@.take(k);
                let block = (old(self).height + 1) as u64;
                let out = run_batch(old(self).ledger@, old(self).store@, batch, block);
                &&& final(self).mempool@ == old(self).mempool@.skip(k)
                &&& final(self).ledger@ == out.0
                &&& final(self).store@ == out.1
                &&& final(self).height == if out.2 > 0 {
                    block
                } else {
                    old(self).height
                }
                &&& out.3 ==> result == Ok::<usize, ChainError>(k as usize)
                &&& !out.3 ==> result == Err::<usize, ChainError>(
                    ChainError::DuplicateCommit(batch[out.2].hash),
                )
            }),
    {
        let batch = self.mempool.drain(max_count);
        let ghost b = batch@;
        let ghost m0 = self.ledger@;
        let ghost s0 = self.store@;
        let ghost block_g = (old(self).height + 1) as u64;
        if batch.len() == 0 {
            return Ok(0);
        }
        let block = self.height + 1;
        let mut i: usize = 0;
        proof {
            assert(b.skip(0) =~= b);
        }
        while i < batch.len()
            invariant
                i <= batch@.len(),
                batch@ == b,
                block == block_g,
                self.mempool@ == old(self).mempool@.skip(
                    drain_count(old(self).mempool@, max_count),
                ),
                self.height == old(self).height,
                ({
                    let all = run_batch(m0, s0, b, block);
                    let rest = run_batch(self.ledger@, self.store@, b.skip(i as int), block);
                    &&& all.0 == rest.0
                    &&& all.1 == rest.1
                    &&& all.2 == rest.2 + i
                    &&& all.3 == rest.3
                }),
            decreases batch@.len() - i,
        {
            let ghost gi = i as int;
            proof {
                assert(b.skip(gi)[0] == b[gi]);
                assert(b.skip(gi).skip(1) =~= b.skip(gi + 1));
            }
            let t = &batch[i];
            if self.store.contains(t.hash) {
                if i > 0 {
                    self.height = block;
                }
                return Err(ChainError::DuplicateCommit(t.hash));
            }
            let receipt = apply(&mut self.ledger, t, block);
            let committed = self.store.commit(t, receipt);
            if committed.is_err() {
                proof {
                    assert(false);
                }
                return Err(ChainError::DuplicateCommit(t.hash));
            }
            i = i + 1;
        }
        proof {
            assert(b.skip(batch@.len() as int) =~= Seq::<Transaction>::empty());
        }
        self.height = block;
        Ok(batch.len())
    }
}

/// Law: a block-production cycle never removes or rewrites a committed
/// receipt. Every entry in the store before the cycle is still there,
/// unchanged, after it, so a committed receipt reads back the same value
/// forever.
pub proof fn lemma_run_batch_preserves_receipts(
    ledger: Map<u64, AccountState>,
    store: Map<u64, StoreEntry>,
    batch: Seq<Transaction>,
    block_number: u64,
    h: u64,
)
    requires
        store.contains_key(h),
    ensures
        ({
            let out = run_batch(ledger, store, batch, block_number);
            &&& out.1.contains_key(h)
            &&& out.1[h] == store[h]
            &&& receipt_of(out.1, h) == receipt_of(store, h)
        }),
    decreases batch.len(),
{
    if batch.len() == 0 {
    } else {
        let t = batch[0];
        if store.contains_key(t.hash) {
        } else {
            let stepped = spec_apply(ledger, t, block_number);
            lemma_run_batch_preserves_receipts(
                stepped.0,
                store.insert(t.hash, entry_of(t, stepped.1)),
                batch.skip(1),
                block_number,
                h,
            );
        }
    }
}

/// Law: a cycle that went through cleanly committed every transaction of
/// its batch: each one's hash has an entry — and so a receipt — in the
/// store afterwards, whether its execution succeeded or failed.
pub proof fn lemma_run_batch_commits_batch(
    ledger: Map<u64, AccountState>,
    store: Map<u64, StoreEntry>,
    batch: Seq<Transaction>,
    block_number: u64,
    i: int,
)
    requires
        0 <= i < batch.len(),
        run_batch(ledger, store, batch, block_number).3,
    ensures
        run_batch(ledger, store, batch, block_number).1.contains_key(batch[i].hash),
    decreases batch.len(),
{
    let t = batch[0];
    let stepped = spec_apply(ledger, t, block_number);
    let store2 = store.insert(t.hash, entry_of(t, stepped.1));
    if i == 0 {
        lemma_run_batch_preserves_receipts(stepped.0, store2, batch.skip(1), block_number, t.hash);
    } else {
        assert(batch.skip(1)[i - 1] == batch[i]);
        lemma_run_batch_commits_batch(stepped.0, store2, batch.skip(1), block_number, i - 1);
    }
}

} // verus!
