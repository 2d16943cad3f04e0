use vstd::prelude::*;

verus! {

/// Seed for the content digest of a transaction.
pub const HASH_SEED: u64 = 0xcbf29ce484222325;

/// Execution outcome recorded in a receipt. A rejected transfer
/// (insufficient balance, bad nonce) is a normal, billable outcome,
/// not an error surfaced to the caller.
#[derive(Clone, Copy, Debug, PartialEq, Eq, Structural)]
pub enum ExecStatus {
    Success,
    Failed,
}

/// The immutable, write-once record of a transaction's execution:
/// the hash of the originating transaction, whether it succeeded,
/// the block it was included in, and the gas it consumed.
#[derive(Clone, Copy, Debug, PartialEq, Eq, Structural)]
pub struct Receipt {
    pub transaction_hash: u64,
    pub status: ExecStatus,
    pub block_number: u64,
    pub gas_used: u64,
}

/// One digest mixing step: rotate the accumulator and fold in a word.
/// Built from shifts and bitwise operations alone, so the executable
/// code and the specification are the same expression.
pub open spec fn mix(h: u64, x: u64) -> u64 {
    ((h << 7) | (h >> 57)) ^ x
}

/// Fold a byte sequence into the digest accumulator, front to back.
pub open spec fn mix_bytes(h: u64, bytes: Seq<u8>) -> u64
    decreases bytes.len(),
{
    if bytes.len() == 0 {
        h
    } else {
        mix_bytes(mix(h, bytes[0] as u64), bytes.skip(1))
    }
}

/// Fold an optional payload into the digest; a present payload is
/// domain-separated from an absent one by an extra mixed-in word.
pub open spec fn payload_digest(h: u64, payload: Option<Seq<u8>>) -> u64 {
    match payload {
        Option::None => h,
        Option::Some(p) => mix_bytes(mix(h, 1), p),
    }
}

/// The content digest of a transaction: a deterministic function of its
/// fields alone, so two transactions with identical fields always carry
/// identical hashes.
pub open spec fn spec_tx_hash(
    sender: u64,
    recipient: u64,
    value: u64,
    gas_price: u64,
    nonce: u64,
    payload: Option<Seq<u8>>,
) -> u64 {
    payload_digest(
        mix(mix(mix(mix(mix(HASH_SEED, sender), recipient), value), gas_price), nonce),
        payload,
    )
}

/// The abstract contents of an optional payload.
pub open spec fn payload_view(p: Option<Vec<u8>>) -> Option<Seq<u8>> {
    match p {
        Option::None => Option::None,
        Option::Some(v) => Option::Some(v@),
    }
}

/// An immutable transfer of value: sender, recipient, amount, gas price,
/// per-sender nonce and an optional opaque payload. The hash is computed
/// once at creation and never recomputed.
#[derive(Debug, Clone)]
pub struct Transaction {
    pub sender: u64,
    pub recipient: u64,
    pub value: u64,
    pub gas_price: u64,
    pub nonce: u64,
    pub payload: Option<Vec<u8>>,
    pub hash: u64,
}

/// A transaction paired with the signature an external signing capability
/// produced over it. The core treats the signature as opaque and never
/// verifies it; the wire boundary does that before submitting.
#[derive(Debug, Clone)]
pub struct SignedTransaction {
    pub transaction: Transaction,
    pub signature: Vec<u8>,
}

fn mix_exec(h: u64, x: u64) -> (r: u64)
    ensures
        r == mix(h, x),
{
    ((h << 7) | (h >> 57)) ^ x
}

fn mix_bytes_exec(h0: u64, bytes: &Vec<u8>) -> (r: u64)
    ensures
        r == mix_bytes(h0, bytes@),
{
    let mut h = h0;
    let mut i: usize = 0;
    proof {
        assert(bytes@.skip(0) =~= bytes@);
    }
    while i < bytes.len()
        invariant
            i <= bytes.len(),
            mix_bytes(h, bytes@.skip(i as int)) == mix_bytes(h0, bytes@),
        decreases bytes.len() - i,
    {
        proof {
            assert(bytes@.skip(i as int)[0] == bytes@[i as int]);
            assert(bytes@.skip(i as int).skip(1) =~= bytes@.skip(i as int + 1));
        }
        h = mix_exec(h, bytes[i] as u64);
        i = i + 1;
    }
    proof {
        assert(bytes@.skip(bytes@.len() as int) =~= Seq::<u8>::empty());
    }
    h
}

/// Compute the content digest over a transaction's fields.
pub fn compute_tx_hash(
    sender: u64,
    recipient: u64,
    value: u64,
    gas_price: u64,
    nonce: u64,
    payload: &Option<Vec<u8>>,
) -> (r: u64)
    ensures
        r == spec_tx_hash(sender, recipient, value, gas_price, nonce, payload_view(*payload)),
{
    let h = mix_exec(
        mix_exec(mix_exec(mix_exec(mix_exec(HASH_SEED, sender), recipient), value), gas_price),
        nonce,
    );
    match payload {
        Option::None => h,
        Option::Some(p) => mix_bytes_exec(mix_exec(h, 1), p),
    }
}

impl Transaction {
    /// A transaction is well formed when its stored hash is the content
    /// digest of its fields.
    pub open spec fn wf(self) -> bool {
        self.hash == spec_tx_hash(
            self.sender,
            self.recipient,
            self.value,
            self.gas_price,
            self.nonce,
            payload_view(self.payload),
        )
    }

    /// Create a transaction, computing its content hash exactly once.
    pub fn new(
        sender: u64,
        recipient: u64,
        value: u64,
        gas_price: u64,
        nonce: u64,
        payload: Option<Vec<u8>>,
    ) -> (t: Transaction)
        ensures
            t.sender == sender,
            t.recipient == recipient,
            t.value == value,
            t.gas_price == gas_price,
            t.nonce == nonce,
            t.payload == payload,
            t.wf(),
    {
        let hash = compute_tx_hash(sender, recipient, value, gas_price, nonce, &payload);
        Transaction { sender, recipient, value, gas_price, nonce, payload, hash }
    }
}

/// Law: transactions are content-addressed. Two well-formed transactions
/// whose fields agree carry the same hash.
pub proof fn lemma_content_addressed(a: Transaction, b: Transaction)
    requires
        a.wf(),
        b.wf(),
        a.sender == b.sender,
        a.recipient == b.recipient,
        a.value == b.value,
        a.gas_price == b.gas_price,
        a.nonce == b.nonce,
        payload_view(a.payload) == payload_view(b.payload),
    ensures
        a.hash == b.hash,
{
}

} // verus!
