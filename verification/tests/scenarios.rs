//! End-to-end scenarios over the export, and the rejection rules the
//! ledger is proved to obey, exercised on concrete values.

use toy_payments::accounts::{Accounts, TransactionError};
use toy_payments::transaction::{Amount, Transaction, TransactionKind};

fn fp(v: f64) -> Amount {
    if !v.is_finite() {
        return Amount::NonFinite;
    }
    let scaled = v * 10000.0;
    if scaled >= i64::MAX as f64 {
        Amount::Finite(i64::MAX)
    } else if scaled <= i64::MIN as f64 {
        Amount::Finite(i64::MIN)
    } else {
        Amount::Finite(scaled.round() as i64)
    }
}

fn deposit(client: u16, tx: u32, v: f64) -> Transaction {
    Transaction::new(TransactionKind::Deposit, client, tx, Some(fp(v)))
}

fn withdrawal(client: u16, tx: u32, v: f64) -> Transaction {
    Transaction::new(TransactionKind::Withdrawal, client, tx, Some(fp(v)))
}

#[test]
fn export_single_deposit() {
    let mut ledger = Accounts::new();
    ledger.handle_transaction(deposit(1, 1, 25.11)).unwrap();
    assert_eq!(
        ledger.output_as_csv(),
        "client,available,held,total,locked\n1,25.11,0.0,25.11,false\n"
    );
}

#[test]
fn export_deposit_then_withdrawal() {
    let mut ledger = Accounts::new();
    ledger.handle_transaction(deposit(1, 1, 25.11)).unwrap();
    ledger.handle_transaction(withdrawal(1, 2, 25.0)).unwrap();
    assert_eq!(
        ledger.output_as_csv(),
        "client,available,held,total,locked\n1,0.11,0.0,0.11,false\n"
    );
}

#[test]
fn export_dispute_then_chargeback_locks() {
    let mut ledger = Accounts::new();
    ledger.handle_transaction(deposit(1, 1, 25.11)).unwrap();
    ledger
        .handle_transaction(Transaction::new(TransactionKind::Dispute, 1, 1, None))
        .unwrap();
    ledger
        .handle_transaction(Transaction::new(TransactionKind::Chargeback, 1, 1, None))
        .unwrap();
    assert_eq!(
        ledger.output_as_csv(),
        "client,available,held,total,locked\n1,0.0,0.0,0.0,true\n"
    );
    match ledger.handle_transaction(deposit(1, 2, 25.11)) {
        Err(TransactionError::AccountLocked(c)) => assert_eq!(c, 1),
        _ => panic!("locked account accepted a deposit"),
    }
}

#[test]
fn export_resolve_without_dispute_rejected() {
    let mut ledger = Accounts::new();
    ledger.handle_transaction(deposit(1, 1, 25.11)).unwrap();
    match ledger.handle_transaction(Transaction::new(TransactionKind::Resolve, 1, 1, None)) {
        Err(TransactionError::TxNonDisputed(tx)) => assert_eq!(tx, 1),
        _ => panic!("resolve without a dispute was accepted"),
    }
    assert_eq!(
        ledger.output_as_csv(),
        "client,available,held,total,locked\n1,25.11,0.0,25.11,false\n"
    );
}

#[test]
fn balance_invariant_holds_through_a_run() {
    let mut ledger = Accounts::new();
    ledger.handle_transaction(deposit(1, 1, 100.0)).unwrap();
    ledger.handle_transaction(withdrawal(1, 2, 30.5)).unwrap();
    ledger.handle_transaction(deposit(2, 3, 7.25)).unwrap();
    ledger
        .handle_transaction(Transaction::new(TransactionKind::Dispute, 1, 1, None))
        .unwrap();
    for client in [1u16, 2u16] {
        let a = ledger.get_client_account(client).unwrap();
        assert_eq!(a.total, a.available + a.held);
    }
}

#[test]
fn duplicate_tx_rejected_across_clients() {
    let mut ledger = Accounts::new();
    ledger.handle_transaction(deposit(1, 7, 10.0)).unwrap();
    match ledger.handle_transaction(deposit(2, 7, 5.0)) {
        Err(TransactionError::InvalidTransaction(tx)) => assert_eq!(tx, 7),
        _ => panic!("duplicate tx accepted for another client"),
    }
    assert!(ledger.get_client_account(2).is_some());
    let a = ledger.get_client_account(2).unwrap();
    assert_eq!((a.available, a.held, a.total), (0, 0, 0));
}

#[test]
fn locked_account_rejects_withdrawal_but_allows_dispute() {
    let mut ledger = Accounts::new();
    ledger.handle_transaction(deposit(1, 1, 20.0)).unwrap();
    ledger.handle_transaction(deposit(1, 2, 5.0)).unwrap();
    ledger
        .handle_transaction(Transaction::new(TransactionKind::Dispute, 1, 2, None))
        .unwrap();
    ledger
        .handle_transaction(Transaction::new(TransactionKind::Chargeback, 1, 2, None))
        .unwrap();
    let a = ledger.get_client_account(1).unwrap();
    assert!(a.locked);
    match ledger.handle_transaction(withdrawal(1, 3, 1.0)) {
        Err(TransactionError::AccountLocked(c)) => assert_eq!(c, 1),
        _ => panic!("locked account accepted a withdrawal"),
    }
    // Disputes stay permitted on a locked account.
    ledger
        .handle_transaction(Transaction::new(TransactionKind::Dispute, 1, 1, None))
        .unwrap();
    let a = ledger.get_client_account(1).unwrap();
    assert_eq!(Amount::Finite(a.held), fp(20.0));
}

#[test]
fn missing_amount_rejected() {
    let mut ledger = Accounts::new();
    match ledger.handle_transaction(Transaction::new(TransactionKind::Deposit, 1, 1, None)) {
        Err(TransactionError::InvalidAmount(a)) => assert_eq!(a, None),
        _ => panic!("deposit without an amount was accepted"),
    }
    match ledger.handle_transaction(Transaction::new(TransactionKind::Withdrawal, 1, 2, None)) {
        Err(TransactionError::InvalidAmount(a)) => assert_eq!(a, None),
        _ => panic!("withdrawal without an amount was accepted"),
    }
}

#[test]
fn unknown_tx_rejected() {
    let mut ledger = Accounts::new();
    for kind in [
        TransactionKind::Dispute,
        TransactionKind::Resolve,
        TransactionKind::Chargeback,
    ] {
        match ledger.handle_transaction(Transaction::new(kind, 1, 99, None)) {
            Err(TransactionError::UnknownTransaction(tx)) => assert_eq!(tx, 99),
            _ => panic!("reference to an unknown tx was accepted"),
        }
    }
    let a = ledger.get_client_account(1).unwrap();
    assert_eq!((a.available, a.held, a.total, a.locked), (0, 0, 0, false));
}

#[test]
fn dispute_flag_transitions() {
    let mut ledger = Accounts::new();
    ledger.handle_transaction(deposit(1, 1, 3.0)).unwrap();
    assert!(!ledger.get_transaction(1).unwrap().under_dispute);
    ledger
        .handle_transaction(Transaction::new(TransactionKind::Dispute, 1, 1, None))
        .unwrap();
    assert!(ledger.get_transaction(1).unwrap().under_dispute);
    ledger
        .handle_transaction(Transaction::new(TransactionKind::Resolve, 1, 1, None))
        .unwrap();
    assert!(!ledger.get_transaction(1).unwrap().under_dispute);
}

#[test]
fn export_rows_in_first_reference_order() {
    let mut ledger = Accounts::new();
    ledger.handle_transaction(deposit(5, 1, 1.0)).unwrap();
    ledger.handle_transaction(deposit(2, 2, 2.0)).unwrap();
    ledger.handle_transaction(deposit(9, 3, 3.0)).unwrap();
    let rows = ledger.export();
    let clients: Vec<u16> = rows.iter().map(|r| r.0).collect();
    assert_eq!(clients, vec![5, 2, 9]);
    assert_eq!(Amount::Finite(rows[1].1.available), fp(2.0));
}

#[test]
fn dispute_can_be_repeated_while_active() {
    // A dispute checks only that the tx is stored, so disputing an
    // already-disputed entry moves its amount again.
    let mut ledger = Accounts::new();
    ledger.handle_transaction(deposit(1, 1, 10.0)).unwrap();
    ledger
        .handle_transaction(Transaction::new(TransactionKind::Dispute, 1, 1, None))
        .unwrap();
    ledger
        .handle_transaction(Transaction::new(TransactionKind::Dispute, 1, 1, None))
        .unwrap();
    let a = ledger.get_client_account(1).unwrap();
    assert_eq!(Amount::Finite(a.available), fp(-10.0));
    assert_eq!(Amount::Finite(a.held), fp(20.0));
    assert_eq!(Amount::Finite(a.total), fp(10.0));
}

#[test]
fn error_messages() {
    assert_eq!(
        TransactionError::UnknownClient(7).message(),
        "Unknown client (client id: 7)"
    );
    assert_eq!(
        TransactionError::UnknownTransaction(12).message(),
        "Unknown transaction (tx: 12)"
    );
    assert_eq!(
        TransactionError::InvalidAmount(Some(Amount::Finite(-424200))).message(),
        "Invalid amount: -42.42"
    );
    assert_eq!(
        TransactionError::InvalidAmount(Some(Amount::NonFinite)).message(),
        "Invalid amount: non-finite"
    );
    assert_eq!(
        TransactionError::InvalidAmount(None).message(),
        "Invalid amount: missing"
    );
    assert_eq!(
        TransactionError::AccountAmountTooLarge.message(),
        "Account amount is too large"
    );
    assert_eq!(
        TransactionError::InsufficientFunds(420000).message(),
        "Insufficient funds (amount: 42.0)"
    );
    assert_eq!(
        TransactionError::TxNonDisputed(3).message(),
        "Transaction 3 is not disputed"
    );
    assert_eq!(
        TransactionError::AccountLocked(1).message(),
        "Account (client id: 1) is locked"
    );
    assert_eq!(
        TransactionError::InvalidTransaction(8).message(),
        "Invalid or non unique transaction (tx: 8)"
    );
}
