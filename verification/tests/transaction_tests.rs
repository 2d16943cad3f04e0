use chain::Transaction;

#[test]
fn identical_fields_identical_hash() {
    let a = Transaction::new(1, 2, 30, 1, 0, Some(vec![9, 9, 9]));
    let b = Transaction::new(1, 2, 30, 1, 0, Some(vec![9, 9, 9]));
    assert_eq!(a.hash, b.hash);
}

#[test]
fn different_fields_different_hash() {
    let base = Transaction::new(1, 2, 30, 1, 0, None);
    let other_value = Transaction::new(1, 2, 31, 1, 0, None);
    let other_nonce = Transaction::new(1, 2, 30, 1, 1, None);
    assert_ne!(base.hash, other_value.hash);
    assert_ne!(base.hash, other_nonce.hash);
}

#[test]
fn payload_changes_the_hash() {
    let none = Transaction::new(1, 2, 30, 1, 0, None);
    let empty = Transaction::new(1, 2, 30, 1, 0, Some(vec![]));
    let bytes = Transaction::new(1, 2, 30, 1, 0, Some(vec![1, 2, 3]));
    let other_bytes = Transaction::new(1, 2, 30, 1, 0, Some(vec![3, 2, 1]));
    assert_ne!(none.hash, empty.hash);
    assert_ne!(empty.hash, bytes.hash);
    assert_ne!(bytes.hash, other_bytes.hash);
}

#[test]
fn hash_is_computed_at_creation() {
    let t = Transaction::new(7, 8, 9, 1, 2, None);
    let again = Transaction::new(t.sender, t.recipient, t.value, t.gas_price, t.nonce, None);
    assert_eq!(t.hash, again.hash);
    assert_eq!(t.sender, 7);
    assert_eq!(t.recipient, 8);
    assert_eq!(t.value, 9);
    assert_eq!(t.gas_price, 1);
    assert_eq!(t.nonce, 2);
}
