use vstd::prelude::*;

use crate::error::ChainError;
use crate::transaction::{ExecStatus, Receipt, Transaction};

verus! {

/// One record of the store, keyed by transaction hash: the scalar fields
/// of the processed transaction (sender, recipient, value, gas price,
/// nonce) beside its receipt (success flag, block number, gas used).
pub type StoreEntry = ((u64, u64, u64, u64, u64), (bool, u64, u64));

#[verifier::external_type_specification]
#[verifier::external_body]
#[verifier::reject_recursive_types(K)]
#[verifier::reject_recursive_types(V)]
#[verifier::reject_recursive_types(S)]
pub struct ExDashMap<K, V, S>(dashmap::DashMap<K, V, S>);

/// The records a concurrent store map holds, as a map from transaction
/// hash to stored entry. Every wrapper around the map's methods speaks
/// of its contents through this function.
pub uninterp spec fn store_entries(m: dashmap::DashMap<u64, StoreEntry>) -> Map<u64, StoreEntry>;

/// The store map with nothing committed yet.
pub open spec fn no_entries() -> Map<u64, StoreEntry> {
    Map::empty()
}

/// Relies on dashmap::DashMap::new: creates an empty map.
#[verifier::external_body]
fn dm_new() -> (m: dashmap::DashMap<u64, StoreEntry>)
    ensures
        store_entries(m) == no_entries(),
{
    dashmap::DashMap::new()
}

/// Relies on dashmap::DashMap::contains_key: whether the map holds an
/// entry under this key.
#[verifier::external_body]
fn dm_contains(m: &dashmap::DashMap<u64, StoreEntry>, k: u64) -> (r: bool)
    ensures
        r == store_entries(*m).contains_key(k),
{
    m.contains_key(&k)
}

/// Relies on dashmap::DashMap::insert: maps the key to the value and
/// returns the value previously stored under it, if any.
#[verifier::external_body]
fn dm_insert(m: &mut dashmap::DashMap<u64, StoreEntry>, k: u64, v: StoreEntry) -> (prev: Option<
    StoreEntry,
>)
    ensures
        store_entries(*final(m)) == store_entries(*old(m)).insert(k, v),
        (match prev {
            Option::Some(p) => store_entries(*old(m)).contains_key(k) && p == store_entries(
                *old(m),
            )[k],
            Option::None => !store_entries(*old(m)).contains_key(k),
        }),
{
    m.insert(k, v)
}

/// Relies on dashmap::DashMap::get: returns the value stored under the
/// key, if any. The guard the call hands back is dropped at once; only a
/// copy of the stored value leaves the wrapper.
#[verifier::external_body]
fn dm_get(m: &dashmap::DashMap<u64, StoreEntry>, k: u64) -> (r: Option<StoreEntry>)
    ensures
        (match r {
            Option::Some(v) => store_entries(*m).contains_key(k) && v == store_entries(*m)[k],
            Option::None => !store_entries(*m).contains_key(k),
        }),
{
    m.get(&k).map(|e| *e.value())
}

/// The stored entry a processed transaction and its receipt become.
pub open spec fn entry_of(t: Transaction, r: Receipt) -> StoreEntry {
    (
        (t.sender, t.recipient, t.value, t.gas_price, t.nonce),
        (r.status is Success, r.block_number, r.gas_used),
    )
}

/// The receipt recorded under a hash, read back from the stored entry.
pub open spec fn receipt_of(m: Map<u64, StoreEntry>, h: u64) -> Receipt {
    Receipt {
        transaction_hash: h,
        status: if m[h].1.0 {
            ExecStatus::Success
        } else {
            ExecStatus::Failed
        },
        block_number: m[h].1.1,
        gas_used: m[h].1.2,
    }
}

/// The hash-indexed record of executed transactions and their receipts.
/// Backed by a sharded concurrent map so that commits and receipt reads
/// for unrelated hashes synchronize per key, not behind one global lock.
/// Its abstract value is the map from transaction hash to stored entry.
pub struct TransactionStore {
    map: dashmap::DashMap<u64, StoreEntry>,
}

impl View for TransactionStore {
    type V = Map<u64, StoreEntry>;

    closed spec fn view(&self) -> Map<u64, StoreEntry> {
        store_entries(self.map)
    }
}

impl TransactionStore {
    pub fn new() -> (s: TransactionStore)
        ensures
            s@ == no_entries(),
    {
        TransactionStore { map: dm_new() }
    }

    /// Whether a receipt has been committed under this hash.
    pub fn contains(&self, hash: u64) -> (r: bool)
        ensures
            r == self@.contains_key(hash),
    {
        dm_contains(&self.map, hash)
    }

    /// Record an executed transaction and its receipt, write-once: a
    /// hash already present is an internal-consistency violation — the
    /// commit changes nothing and reports `DuplicateCommit` so the
    /// offending cycle stops rather than overwriting the receipt.
    pub fn commit(&mut self, t: &Transaction, r: Receipt) -> (result: Result<(), ChainError>)
        requires
            r.transaction_hash == t.hash,
        ensures
            !old(self)@.contains_key(t.hash) ==> result == Ok::<(), ChainError>(())
                && final(self)@ == old(self)@.insert(t.hash, entry_of(*t, r)),
            old(self)@.contains_key(t.hash) ==> result == Err::<(), ChainError>(
                ChainError::DuplicateCommit(t.hash),
            ) && final(self)@ == old(self)@,
    {
        if dm_contains(&self.map, t.hash) {
            return Err(ChainError::DuplicateCommit(t.hash));
        }
        let success = match r.status {
            ExecStatus::Success => true,
            ExecStatus::Failed => false,
        };
        let entry = (
            (t.sender, t.recipient, t.value, t.gas_price, t.nonce),
            (success, r.block_number, r.gas_used),
        );
        let _prev = dm_insert(&mut self.map, t.hash, entry);
        Ok(())
    }

    /// The receipt committed under this hash; `TransactionNotFound` when
    /// none has been, which covers both an unknown transaction and one
    /// still pending in the mempool.
    pub fn get_receipt(&self, hash: u64) -> (result: Result<Receipt, ChainError>)
        ensures
            self@.contains_key(hash) ==> result == Ok::<Receipt, ChainError>(
                receipt_of(self@, hash),
            ),
            !self@.contains_key(hash) ==> result == Err::<Receipt, ChainError>(
                ChainError::TransactionNotFound(hash),
            ),
    {
        match dm_get(&self.map, hash) {
            Option::Some(entry) => Ok(
                Receipt {
                    transaction_hash: hash,
                    status: if entry.1.0 {
                        ExecStatus::Success
                    } else {
                        ExecStatus::Failed
                    },
                    block_number: entry.1.1,
                    gas_used: entry.1.2,
                },
            ),
            Option::None => Err(ChainError::TransactionNotFound(hash)),
        }
    }
}

/// Law: a commit for a fresh hash never changes the receipt recorded
/// under any other hash — once committed, a receipt is immutable and
/// every later read returns the same value.
pub proof fn lemma_receipt_immutable_under_commit(
    m: Map<u64, StoreEntry>,
    h: u64,
    t: Transaction,
    r: Receipt,
)
    requires
        m.contains_key(h),
        !m.contains_key(t.hash),
    ensures
        m.insert(t.hash, entry_of(t, r)).contains_key(h),
        receipt_of(m.insert(t.hash, entry_of(t, r)), h) == receipt_of(m, h),
{
}

} // verus!
