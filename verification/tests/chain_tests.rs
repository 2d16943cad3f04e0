use chain::{Chain, ChainError, ExecStatus, SignedTransaction, Transaction};

fn signed(t: Transaction) -> SignedTransaction {
    SignedTransaction { transaction: t, signature: vec![0u8, 1, 2, 3] }
}

fn transfer(from: u64, to: u64, value: u64, nonce: u64) -> SignedTransaction {
    signed(Transaction::new(from, to, value, 1, nonce, None))
}

#[test]
fn sends_a_transaction() {
    let mut chain = Chain::new();
    assert_eq!(chain.mempool_len(), 0);

    chain.submit(transfer(1, 2, 1, 0));
    assert_eq!(chain.mempool_len(), 1);
}

#[test]
fn gets_a_transaction_receipt() {
    let mut chain = Chain::new();
    chain.set_balance(1, 100);
    let hash = chain.submit(transfer(1, 2, 10, 0));

    let produced = chain.produce_block(10);
    assert_eq!(produced, Ok(1));

    let receipt = chain.get_receipt(hash).unwrap();
    assert_eq!(receipt.transaction_hash, hash);
    assert_eq!(receipt.status, ExecStatus::Success);
    assert_eq!(receipt.block_number, 1);
    assert_eq!(receipt.gas_used, chain::GAS_PER_TRANSFER);
}

#[test]
fn receipt_not_found_until_committed_then_stable() {
    let mut chain = Chain::new();
    chain.set_balance(1, 100);
    let hash = chain.submit(transfer(1, 2, 10, 0));

    // Still pending: no receipt yet.
    assert_eq!(chain.get_receipt(hash), Err(ChainError::TransactionNotFound(hash)));

    chain.produce_block(10).unwrap();
    let first_read = chain.get_receipt(hash).unwrap();

    // Later, unrelated cycles leave the committed receipt untouched.
    chain.submit(transfer(1, 3, 5, 1));
    chain.produce_block(10).unwrap();
    let second_read = chain.get_receipt(hash).unwrap();
    assert_eq!(first_read, second_read);
}

#[test]
fn unknown_hash_is_not_found() {
    let chain = Chain::new();
    assert_eq!(chain.get_receipt(7), Err(ChainError::TransactionNotFound(7)));
}

#[test]
fn insufficient_balance_fails_without_mutation() {
    let mut chain = Chain::new();
    chain.set_balance(1, 10);
    let hash = chain.submit(transfer(1, 2, 30, 0));

    assert_eq!(chain.produce_block(10), Ok(1));

    // No balance moved, the sender's nonce did not advance...
    assert_eq!(chain.get_balance(1), 10);
    assert_eq!(chain.get_balance(2), 0);
    assert_eq!(chain.get_nonce(1), 0);

    // ...yet a committed receipt records the failure and bills the gas.
    let receipt = chain.get_receipt(hash).unwrap();
    assert_eq!(receipt.status, ExecStatus::Failed);
    assert_eq!(receipt.gas_used, chain::GAS_PER_TRANSFER);
    assert_eq!(receipt.block_number, 1);
}

#[test]
fn two_transfers_one_cycle() {
    let mut chain = Chain::new();
    chain.set_balance(1, 100);
    let first = chain.submit(transfer(1, 2, 30, 0));
    let second = chain.submit(transfer(1, 2, 80, 1));
    assert_ne!(first, second);

    assert_eq!(chain.produce_block(10), Ok(2));

    // First transfer lands (100 -> 70, recipient 30); the second finds
    // only 70 left and fails; receipts in submission order.
    assert_eq!(chain.get_balance(1), 70);
    assert_eq!(chain.get_balance(2), 30);
    assert_eq!(chain.get_receipt(first).unwrap().status, ExecStatus::Success);
    assert_eq!(chain.get_receipt(second).unwrap().status, ExecStatus::Failed);
    assert_eq!(chain.get_nonce(1), 1);
}

#[test]
fn interleaved_submissions_all_land() {
    let mut chain = Chain::new();
    let mut hashes = std::collections::HashSet::new();
    // Five independent callers, ten submissions each, interleaved: their
    // relative order becomes the queue order, nothing is lost or doubled.
    for round in 0..10u64 {
        for caller in 0..5u64 {
            let h = chain.submit(transfer(caller + 1, 100 + caller, round + 1, round));
            hashes.insert(h);
        }
    }
    assert_eq!(chain.mempool_len(), 50);
    assert_eq!(hashes.len(), 50);
}

#[test]
fn fresh_account_nonce_is_zero() {
    let chain = Chain::new();
    assert_eq!(chain.get_nonce(42), 0);
    assert_eq!(chain.get_balance(42), 0);
}

#[test]
fn duplicate_submission_stops_cycle() {
    let mut chain = Chain::new();
    chain.set_balance(1, 100);
    // Identical fields give the identical content hash.
    let first = chain.submit(transfer(1, 2, 30, 0));
    let second = chain.submit(transfer(1, 2, 30, 0));
    assert_eq!(first, second);

    // The first copy executes and commits; the second finds its hash
    // already committed and stops the cycle instead of overwriting.
    assert_eq!(chain.produce_block(10), Err(ChainError::DuplicateCommit(first)));
    assert_eq!(chain.get_balance(1), 70);
    assert_eq!(chain.get_balance(2), 30);
    assert_eq!(chain.get_receipt(first).unwrap().status, ExecStatus::Success);
    assert_eq!(chain.height, 1);
}

#[test]
fn batch_limit_and_block_numbers() {
    let mut chain = Chain::new();
    chain.set_balance(1, 100);
    let a = chain.submit(transfer(1, 2, 1, 0));
    let b = chain.submit(transfer(1, 2, 2, 1));
    let c = chain.submit(transfer(1, 2, 3, 2));

    assert_eq!(chain.produce_block(2), Ok(2));
    assert_eq!(chain.mempool_len(), 1);
    assert_eq!(chain.height, 1);
    assert_eq!(chain.get_receipt(a).unwrap().block_number, 1);
    assert_eq!(chain.get_receipt(b).unwrap().block_number, 1);
    assert_eq!(chain.get_receipt(c), Err(ChainError::TransactionNotFound(c)));

    assert_eq!(chain.produce_block(2), Ok(1));
    assert_eq!(chain.height, 2);
    assert_eq!(chain.get_receipt(c).unwrap().block_number, 2);
}

#[test]
fn empty_cycle_is_a_no_op() {
    let mut chain = Chain::new();
    assert_eq!(chain.produce_block(10), Ok(0));
    assert_eq!(chain.height, 0);
}

#[test]
fn stale_nonce_fails_without_mutation() {
    let mut chain = Chain::new();
    chain.set_balance(1, 100);
    let hash = chain.submit(transfer(1, 2, 10, 5));

    assert_eq!(chain.produce_block(10), Ok(1));
    assert_eq!(chain.get_receipt(hash).unwrap().status, ExecStatus::Failed);
    assert_eq!(chain.get_balance(1), 100);
    assert_eq!(chain.get_balance(2), 0);
}

#[test]
fn recipient_balance_overflow_fails_without_mutation() {
    let mut chain = Chain::new();
    chain.set_balance(1, 100);
    chain.set_balance(2, u64::MAX);
    let hash = chain.submit(transfer(1, 2, 1, 0));

    assert_eq!(chain.produce_block(10), Ok(1));
    assert_eq!(chain.get_receipt(hash).unwrap().status, ExecStatus::Failed);
    assert_eq!(chain.get_balance(1), 100);
    assert_eq!(chain.get_balance(2), u64::MAX);
}

#[test]
fn self_transfer_keeps_balance_and_advances_nonce() {
    let mut chain = Chain::new();
    chain.set_balance(1, 100);
    let hash = chain.submit(transfer(1, 1, 40, 0));

    assert_eq!(chain.produce_block(10), Ok(1));
    assert_eq!(chain.get_receipt(hash).unwrap().status, ExecStatus::Success);
    assert_eq!(chain.get_balance(1), 100);
    assert_eq!(chain.get_nonce(1), 1);
}
