use bounty_pallet::custodian::Ledger;

#[test]
fn untouched_account_holds_zero() {
    let ledger = Ledger::new();
    assert_eq!(ledger.balance_of(42), 0);
    assert!(ledger.can_debit(42, 0));
    assert!(!ledger.can_debit(42, 1));
}

#[test]
fn credit_and_debit_move_exact_amounts() {
    let mut ledger = Ledger::new();
    ledger.credit(5, 70);
    ledger.credit(5, 30);
    assert_eq!(ledger.balance_of(5), 100);

    assert!(ledger.can_debit(5, 100));
    assert!(!ledger.can_debit(5, 101));

    ledger.debit(5, 60);
    assert_eq!(ledger.balance_of(5), 40);
    assert_eq!(ledger.balance_of(6), 0);
}
