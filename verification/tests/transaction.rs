use marev1::Transaction;

#[test]
fn creates_transaction_with_fee() {
    let tx = Transaction::new("Alice", "Bob", 100, 6);
    assert_eq!(tx.amount, 100);
    assert_eq!(tx.fee, 6);
    assert_eq!(tx.total(), 106);
}

#[test]
fn fee_rounds_down() {
    let tx = Transaction::new("Alice", "Bob", 7, 3);
    assert_eq!(tx.fee, 0);
    assert_eq!(tx.total(), 7);

    let tx = Transaction::new("Alice", "Bob", 250, 6);
    assert_eq!(tx.fee, 15);
    assert_eq!(tx.total(), 265);
}

#[test]
fn zero_fee_percent_charges_nothing() {
    let tx = Transaction::new("System", "Miner", 10, 0);
    assert_eq!(tx.fee, 0);
    assert_eq!(tx.total(), 10);
}
