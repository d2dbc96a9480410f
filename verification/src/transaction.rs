//! Transaction records: the input events of the ledger.
//!
//! Monetary amounts are fixed-point numbers: an `i64` counting
//! ten-thousandths of the currency unit, so `25.11` is stored as
//! `251100`. A value of the external floating-point form that is not
//! a finite number (a NaN or an infinity) is represented by
//! [`Amount::NonFinite`]; the ledger rejects it wherever an amount is
//! required.

use vstd::prelude::*;

verus! {

/// Number of fixed-point units per currency unit (four decimal places).
pub const AMOUNT_SCALE: i64 = 10000;

/// The value of a present amount field.
#[derive(Debug, Clone, Copy, PartialEq, Eq, Structural)]
pub enum Amount {
    /// A finite amount, in ten-thousandths of the currency unit.
    Finite(i64),
    /// Stands for a NaN or infinite value in the external form.
    NonFinite,
}

/// Transaction kinds that the ledger can handle.
#[derive(Debug, Clone, Copy, PartialEq, Eq, Structural)]
pub enum TransactionKind {
    /// A deposit of money on an account.
    Deposit,
    /// A withdrawal of money from an account.
    Withdrawal,
    /// A dispute of a prior deposit or withdrawal.
    Dispute,
    /// A resolve of an active dispute.
    Resolve,
    /// A chargeback of an active dispute.
    Chargeback,
}

/// A transaction record, as handed to the ledger.
#[derive(Debug, Clone, Copy, PartialEq, Eq)]
pub struct Transaction {
    /// The transaction kind.
    pub kind: TransactionKind,
    /// The client id (one client owns one account).
    pub client: u16,
    /// The transaction id (intended globally unique).
    pub tx: u32,
    /// The amount of money; present only for deposits and withdrawals.
    pub amount: Option<Amount>,
    /// Whether the record is currently referenced by an active dispute.
    pub under_dispute: bool,
}

impl Transaction {
    /// Build a fresh transaction record; its dispute flag starts false.
    pub fn new(kind: TransactionKind, client: u16, tx: u32, amount: Option<Amount>) -> (r: Self)
        ensures
            r == (Transaction { kind, client, tx, amount, under_dispute: false }),
    {
        Self { kind, client, tx, amount, under_dispute: false }
    }
}

/// Whether an amount field carries a finite, strictly positive value:
/// the only amounts a deposit or withdrawal accepts.
pub open spec fn valid_amount(amount: Option<Amount>) -> bool {
    match amount {
        Some(Amount::Finite(v)) => v > 0,
        _ => false,
    }
}

/// The numeric value of an amount field; absent or non-finite fields
/// count as zero.
pub open spec fn amount_value(amount: Option<Amount>) -> int {
    match amount {
        Some(Amount::Finite(v)) => v as int,
        _ => 0,
    }
}

} // verus!
