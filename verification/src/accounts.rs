//! The ledger: per-client accounts, the stored transaction history,
//! and the state machine that applies one transaction at a time.
//!
//! The whole transition is written down once, as the specification
//! function [`spec_apply`]; [`Accounts::handle_transaction`] is proved
//! to return and mutate exactly what `spec_apply` says.

use std::collections::HashMap;
use vstd::prelude::*;
use vstd::string::StringExecFns;

use crate::arith::{sat_add, sat_add_i64, sat_sub, sat_sub_i64};
use crate::render::{amount_string, client_string, spec_amount_str, spec_digits, u64_string};
use crate::transaction::{amount_value, valid_amount, Amount, Transaction, TransactionKind};

verus! {

broadcast use vstd::std_specs::hash::group_hash_axioms;

/// An account for one client.
#[derive(Debug, Clone, Copy, PartialEq, Eq, Structural)]
pub struct Account {
    /// Funds immediately usable, in fixed-point units.
    pub available: i64,
    /// Funds frozen pending dispute resolution, in fixed-point units.
    pub held: i64,
    /// Total funds, in fixed-point units.
    pub total: i64,
    /// Once true, the account rejects all further deposits and withdrawals.
    pub locked: bool,
}

impl Account {
    /// The zero-initialized account a client starts with.
    pub open spec fn zeroed() -> Account {
        Account { available: 0, held: 0, total: 0, locked: false }
    }

    /// Build a fresh, unlocked account holding no funds.
    pub fn new() -> (r: Self)
        ensures
            r == Account::zeroed(),
    {
        Self { available: 0, held: 0, total: 0, locked: false }
    }
}

/// An error returned by [`Accounts::handle_transaction`].
#[derive(Debug, Clone, Copy, PartialEq, Eq)]
pub enum TransactionError {
    /// The client's account could not be found. Kept for callers that
    /// match on every kind; `handle_transaction` is proved never to
    /// return it, because it creates the account first.
    UnknownClient(u16),
    /// A dispute, resolve or chargeback referenced a transaction id
    /// that is not in the history.
    UnknownTransaction(u32),
    /// A deposit or withdrawal carried no amount, a non-positive
    /// amount, or a non-finite amount; the payload echoes the field.
    InvalidAmount(Option<Amount>),
    /// A deposit saturated a balance: the post-addition value of
    /// `available` or `total` was numerically unchanged.
    AccountAmountTooLarge,
    /// A withdrawal asked for more than the available funds; the
    /// payload is the requested amount.
    InsufficientFunds(i64),
    /// A resolve or chargeback referenced a transaction that is not
    /// under dispute.
    TxNonDisputed(u32),
    /// The account is locked, so deposits and withdrawals are rejected.
    AccountLocked(u16),
    /// A deposit or withdrawal reused a transaction id that is already
    /// stored in the history.
    InvalidTransaction(u32),
}

/// The message text of each error, for callers that report failures.
pub open spec fn spec_message(e: TransactionError) -> Seq<char> {
    match e {
        TransactionError::UnknownClient(c) => "Unknown client (client id: "@ + spec_digits(
            c as nat,
        ) + ")"@,
        TransactionError::UnknownTransaction(tx) => "Unknown transaction (tx: "@ + spec_digits(
            tx as nat,
        ) + ")"@,
        TransactionError::InvalidAmount(a) => match a {
            Some(Amount::Finite(v)) => "Invalid amount: "@ + spec_amount_str(v as int),
            Some(Amount::NonFinite) => "Invalid amount: non-finite"@,
            None => "Invalid amount: missing"@,
        },
        TransactionError::AccountAmountTooLarge => "Account amount is too large"@,
        TransactionError::InsufficientFunds(v) => "Insufficient funds (amount: "@ + spec_amount_str(
            v as int,
        ) + ")"@,
        TransactionError::TxNonDisputed(tx) => "Transaction "@ + spec_digits(tx as nat)
            + " is not disputed"@,
        TransactionError::AccountLocked(c) => "Account (client id: "@ + spec_digits(c as nat)
            + ") is locked"@,
        TransactionError::InvalidTransaction(tx) => "Invalid or non unique transaction (tx: "@
            + spec_digits(tx as nat) + ")"@,
    }
}

impl TransactionError {
    /// A human-readable description of the error.
    pub fn message(&self) -> (r: String)
        ensures
            r@ == spec_message(*self),
    {
        match self {
            TransactionError::UnknownClient(c) => "Unknown client (client id: ".to_owned().concat(
                client_string(*c).as_str(),
            ).concat(")"),
            TransactionError::UnknownTransaction(tx) => "Unknown transaction (tx: ".to_owned()
                .concat(u64_string(*tx as u64).as_str()).concat(")"),
            TransactionError::InvalidAmount(a) => match a {
                Some(Amount::Finite(v)) => "Invalid amount: ".to_owned().concat(
                    amount_string(*v).as_str(),
                ),
                Some(Amount::NonFinite) => "Invalid amount: non-finite".to_owned(),
                None => "Invalid amount: missing".to_owned(),
            },
            TransactionError::AccountAmountTooLarge => "Account amount is too large".to_owned(),
            TransactionError::InsufficientFunds(v) => "Insufficient funds (amount: ".to_owned()
                .concat(amount_string(*v).as_str()).concat(")"),
            TransactionError::TxNonDisputed(tx) => "Transaction ".to_owned().concat(
                u64_string(*tx as u64).as_str(),
            ).concat(" is not disputed"),
            TransactionError::AccountLocked(c) => "Account (client id: ".to_owned().concat(
                client_string(*c).as_str(),
            ).concat(") is locked"),
            TransactionError::InvalidTransaction(tx) => "Invalid or non unique transaction (tx: "
                .to_owned().concat(u64_string(*tx as u64).as_str()).concat(")"),
        }
    }
}

/// What must hold of every stored history entry under key `id`: it is
/// the copy of a successfully applied deposit or withdrawal, so its
/// `tx` field matches its key and its amount is finite and positive.
pub open spec fn valid_entry(id: u32, t: Transaction) -> bool {
    &&& t.tx == id
    &&& (t.kind == TransactionKind::Deposit || t.kind == TransactionKind::Withdrawal)
    &&& valid_amount(t.amount)
}

/// Well-formedness of a transaction history.
pub open spec fn history_wf(history: Map<u32, Transaction>) -> bool {
    forall|id: u32| #[trigger] history.contains_key(id) ==> valid_entry(id, history[id])
}

/// The account map after the lazy creation step: every transaction
/// first ensures its client has an account, even if it is rejected
/// later.
pub open spec fn with_client(accounts: Map<u16, Account>, client: u16) -> Map<u16, Account> {
    if accounts.contains_key(client) {
        accounts
    } else {
        accounts.insert(client, Account::zeroed())
    }
}

/// The account left by a deposit of `amt`: both `available` and
/// `total` grow by `amt`, saturating at the `i64` range.
pub open spec fn deposited(a: Account, amt: int) -> Account {
    Account {
        available: sat_add(a.available as int, amt) as i64,
        total: sat_add(a.total as int, amt) as i64,
        ..a
    }
}

/// The account left by a withdrawal of `amt`.
pub open spec fn withdrawn(a: Account, amt: int) -> Account {
    Account {
        available: sat_sub(a.available as int, amt) as i64,
        total: sat_sub(a.total as int, amt) as i64,
        ..a
    }
}

/// The account left by a dispute moving `amt` from `available` to `held`.
pub open spec fn disputed(a: Account, amt: int) -> Account {
    Account {
        available: sat_sub(a.available as int, amt) as i64,
        held: sat_add(a.held as int, amt) as i64,
        ..a
    }
}

/// The account left by a resolve moving `amt` from `held` back to
/// `available`.
pub open spec fn resolved(a: Account, amt: int) -> Account {
    Account {
        held: sat_sub(a.held as int, amt) as i64,
        available: sat_add(a.available as int, amt) as i64,
        ..a
    }
}

/// The account left by a chargeback: `amt` leaves `held` and `total`,
/// and the account is locked.
pub open spec fn charged_back(a: Account, amt: int) -> Account {
    Account {
        held: sat_sub(a.held as int, amt) as i64,
        total: sat_sub(a.total as int, amt) as i64,
        locked: true,
        ..a
    }
}

/// The ledger transition: applying transaction `t` to the state
/// `(accounts, history)` yields a result and the successor state.
///
/// Order of business, mirroring the rules of each kind:
/// the client's account is created zeroed if missing, always; a
/// deposit or withdrawal is rejected first for a duplicate `tx`, then
/// for an unusable amount, then for a locked account; a withdrawal is
/// further rejected when it exceeds the available funds; a dispute,
/// resolve or chargeback is rejected for an unknown `tx`, and resolve
/// and chargeback also when the entry is not under dispute. The
/// incoming amount field of a dispute, resolve or chargeback is
/// ignored: the stored entry's amount is what moves. A chargeback
/// leaves the entry's dispute flag set; only a resolve clears it.
pub open spec fn spec_apply(
    accounts: Map<u16, Account>,
    history: Map<u32, Transaction>,
    t: Transaction,
) -> (Result<(), TransactionError>, Map<u16, Account>, Map<u32, Transaction>) {
    let acc0 = with_client(accounts, t.client);
    let a0 = acc0[t.client];
    match t.kind {
        TransactionKind::Deposit => {
            if history.contains_key(t.tx) {
                (Err(TransactionError::InvalidTransaction(t.tx)), acc0, history)
            } else if !valid_amount(t.amount) {
                (Err(TransactionError::InvalidAmount(t.amount)), acc0, history)
            } else if a0.locked {
                (Err(TransactionError::AccountLocked(t.client)), acc0, history)
            } else {
                let a1 = deposited(a0, amount_value(t.amount));
                let acc1 = acc0.insert(t.client, a1);
                if a1.available == a0.available || a1.total == a0.total {
                    // The addition was absorbed: report it, but keep the
                    // mutated state, as the rules demand.
                    (Err(TransactionError::AccountAmountTooLarge), acc1, history)
                } else {
                    (Ok(()), acc1, history.insert(t.tx, Transaction { under_dispute: false, ..t }))
                }
            }
        },
        TransactionKind::Withdrawal => {
            if history.contains_key(t.tx) {
                (Err(TransactionError::InvalidTransaction(t.tx)), acc0, history)
            } else if !valid_amount(t.amount) {
                (Err(TransactionError::InvalidAmount(t.amount)), acc0, history)
            } else if a0.locked {
                (Err(TransactionError::AccountLocked(t.client)), acc0, history)
            } else if amount_value(t.amount) > a0.available as int {
                (Err(TransactionError::InsufficientFunds(amount_value(t.amount) as i64)), acc0, history)
            } else {
                let a1 = withdrawn(a0, amount_value(t.amount));
                (
                    Ok(()),
                    acc0.insert(t.client, a1),
                    history.insert(t.tx, Transaction { under_dispute: false, ..t }),
                )
            }
        },
        TransactionKind::Dispute => {
            if !history.contains_key(t.tx) {
                (Err(TransactionError::UnknownTransaction(t.tx)), acc0, history)
            } else {
                let stored = history[t.tx];
                let a1 = disputed(a0, amount_value(stored.amount));
                (
                    Ok(()),
                    acc0.insert(t.client, a1),
                    history.insert(t.tx, Transaction { under_dispute: true, ..stored }),
                )
            }
        },
        TransactionKind::Resolve => {
            if !history.contains_key(t.tx) {
                (Err(TransactionError::UnknownTransaction(t.tx)), acc0, history)
            } else if !history[t.tx].under_dispute {
                (Err(TransactionError::TxNonDisputed(t.tx)), acc0, history)
            } else {
                let stored = history[t.tx];
                let a1 = resolved(a0, amount_value(stored.amount));
                (
                    Ok(()),
                    acc0.insert(t.client, a1),
                    history.insert(t.tx, Transaction { under_dispute: false, ..stored }),
                )
            }
        },
        TransactionKind::Chargeback => {
            if !history.contains_key(t.tx) {
                (Err(TransactionError::UnknownTransaction(t.tx)), acc0, history)
            } else if !history[t.tx].under_dispute {
                (Err(TransactionError::TxNonDisputed(t.tx)), acc0, history)
            } else {
                let stored = history[t.tx];
                let a1 = charged_back(a0, amount_value(stored.amount));
                (Ok(()), acc0.insert(t.client, a1), history)
            }
        },
    }
}

/// All accounts and the transaction history of one run.
pub struct Accounts {
    inner: HashMap<u16, Account>,
    clients: Vec<u16>,
    tx: HashMap<u32, Transaction>,
}

impl Accounts {
    /// The account map: client id to account.
    pub closed spec fn accounts(&self) -> Map<u16, Account> {
        self.inner@
    }

    /// The history map: transaction id to stored entry.
    pub closed spec fn history(&self) -> Map<u32, Transaction> {
        self.tx@
    }

    /// The client ids in first-reference order; `export` and
    /// `output_as_csv` emit accounts in this order.
    pub closed spec fn client_order(&self) -> Seq<u16> {
        self.clients@
    }

    /// Internal consistency: the ordered client list carries exactly
    /// the keys of the account map, once each, and every stored
    /// history entry is a valid deposit or withdrawal copy.
    pub closed spec fn wf(&self) -> bool {
        &&& self.clients@.no_duplicates()
        &&& forall|i: int|
            0 <= i < self.clients@.len() ==> self.inner@.contains_key(#[trigger] self.clients@[i])
        &&& forall|c: u16| #[trigger] self.inner@.contains_key(c) ==> self.clients@.contains(c)
        &&& history_wf(self.tx@)
    }

    /// An empty ledger: no accounts, no history.
    pub fn new() -> (r: Self)
        ensures
            r.wf(),
            r.accounts() == Map::<u16, Account>::empty(),
            r.history() == Map::<u32, Transaction>::empty(),
            r.client_order() == Seq::<u16>::empty(),
    {
        Self { inner: HashMap::new(), clients: Vec::new(), tx: HashMap::new() }
    }

    /// Create a zeroed account for `client_id` if it has none yet.
    pub fn add_client(&mut self, client_id: u16)
        requires
            old(self).wf(),
        ensures
            final(self).wf(),
            final(self).accounts() == with_client(old(self).accounts(), client_id),
            final(self).history() == old(self).history(),
            final(self).client_order() == if old(self).accounts().contains_key(client_id) {
                old(self).client_order()
            } else {
                old(self).client_order().push(client_id)
            },
    {
        if !self.inner.contains_key(&client_id) {
            self.inner.insert(client_id, Account::new());
            self.clients.push(client_id);
            proof {
                let oldseq = old(self).client_order();
                let newseq = self.clients@;
                assert(newseq == oldseq.push(client_id));
                assert forall|i: int|
                    0 <= i < oldseq.len() implies #[trigger] oldseq[i] != client_id by {
                    assert(old(self).accounts().contains_key(oldseq[i]));
                }
                assert(newseq.no_duplicates()) by {
                    assert forall|i: int, j: int|
                        0 <= i < newseq.len() && 0 <= j < newseq.len() && i != j implies newseq[i]
                        != newseq[j] by {
                        if i < oldseq.len() && j < oldseq.len() {
                            assert(oldseq.no_duplicates());
                        }
                    }
                }
                assert forall|i: int|
                    0 <= i < newseq.len() implies self.inner@.contains_key(
                    #[trigger] newseq[i],
                ) by {
                    if i < oldseq.len() {
                        assert(old(self).accounts().contains_key(oldseq[i]));
                    }
                }
                assert forall|c: u16| #[trigger]
                    self.inner@.contains_key(c) implies newseq.contains(c) by {
                    if c == client_id {
                        assert(newseq[newseq.len() - 1] == client_id);
                    } else {
                        assert(old(self).accounts().contains_key(c));
                        assert(oldseq.contains(c));
                        let k = choose|k: int| 0 <= k < oldseq.len() && oldseq[k] == c;
                        assert(newseq[k] == c);
                    }
                }
            }
        }
    }

    /// Look an account up; `Some` exactly for known clients.
    pub fn get_client_account(&self, client_id: u16) -> (r: Option<&Account>)
        ensures
            match r {
                Some(a) => self.accounts().contains_key(client_id) && *a
                    == self.accounts()[client_id],
                None => !self.accounts().contains_key(client_id),
            },
    {
        self.inner.get(&client_id)
    }

    /// Look a stored history entry up; `Some` exactly for stored ids.
    pub fn get_transaction(&self, tx: u32) -> (r: Option<&Transaction>)
        ensures
            match r {
                Some(t) => self.history().contains_key(tx) && *t == self.history()[tx],
                None => !self.history().contains_key(tx),
            },
    {
        self.tx.get(&tx)
    }

    /// Apply one transaction: exactly the transition of [`spec_apply`].
    pub fn handle_transaction(&mut self, transaction: Transaction) -> (r: Result<
        (),
        TransactionError,
    >)
        requires
            old(self).wf(),
        ensures
            final(self).wf(),
            ({
                let (res, accs, hist) = spec_apply(
                    old(self).accounts(),
                    old(self).history(),
                    transaction,
                );
                &&& r == res
                &&& final(self).accounts() == accs
                &&& final(self).history() == hist
            }),
            final(self).client_order() == if old(self).accounts().contains_key(
                transaction.client,
            ) {
                old(self).client_order()
            } else {
                old(self).client_order().push(transaction.client)
            },
    {
        self.add_client(transaction.client);
        let account = match self.inner.get(&transaction.client) {
            Some(a) => *a,
            None => vstd::pervasive::unreached(),
        };
        match transaction.kind {
            TransactionKind::Deposit => {
                if self.tx.contains_key(&transaction.tx) {
                    return Err(TransactionError::InvalidTransaction(transaction.tx));
                }
                let amt = match get_amount(&transaction) {
                    Ok(v) => v,
                    Err(e) => {
                        return Err(e);
                    },
                };
                if amt == 0 {
                    // The amount field was absent.
                    return Err(TransactionError::InvalidAmount(transaction.amount));
                }
                if account.locked {
                    return Err(TransactionError::AccountLocked(transaction.client));
                }
                let updated = Account {
                    available: sat_add_i64(account.available, amt),
                    total: sat_add_i64(account.total, amt),
                    ..account
                };
                self.inner.insert(transaction.client, updated);
                if updated.available == account.available || updated.total == account.total {
                    return Err(TransactionError::AccountAmountTooLarge);
                }
                self.tx.insert(transaction.tx, Transaction { under_dispute: false, ..transaction });
                Ok(())
            },
            TransactionKind::Withdrawal => {
                if self.tx.contains_key(&transaction.tx) {
                    return Err(TransactionError::InvalidTransaction(transaction.tx));
                }
                let amt = match get_amount(&transaction) {
                    Ok(v) => v,
                    Err(e) => {
                        return Err(e);
                    },
                };
                if amt == 0 {
                    // The amount field was absent.
                    return Err(TransactionError::InvalidAmount(transaction.amount));
                }
                if account.locked {
                    return Err(TransactionError::AccountLocked(transaction.client));
                }
                if amt > account.available {
                    return Err(TransactionError::InsufficientFunds(amt));
                }
                let updated = Account {
                    available: sat_sub_i64(account.available, amt),
                    total: sat_sub_i64(account.total, amt),
                    ..account
                };
                self.inner.insert(transaction.client, updated);
                self.tx.insert(transaction.tx, Transaction { under_dispute: false, ..transaction });
                Ok(())
            },
            TransactionKind::Dispute => {
                let stored = match self.tx.get(&transaction.tx) {
                    Some(t) => *t,
                    None => {
                        return Err(TransactionError::UnknownTransaction(transaction.tx));
                    },
                };
                let amt = stored_amount(&stored);
                let updated = Account {
                    available: sat_sub_i64(account.available, amt),
                    held: sat_add_i64(account.held, amt),
                    ..account
                };
                self.inner.insert(transaction.client, updated);
                self.tx.insert(transaction.tx, Transaction { under_dispute: true, ..stored });
                Ok(())
            },
            TransactionKind::Resolve => {
                let stored = match self.tx.get(&transaction.tx) {
                    Some(t) => *t,
                    None => {
                        return Err(TransactionError::UnknownTransaction(transaction.tx));
                    },
                };
                if !stored.under_dispute {
                    return Err(TransactionError::TxNonDisputed(transaction.tx));
                }
                let amt = stored_amount(&stored);
                let updated = Account {
                    held: sat_sub_i64(account.held, amt),
                    available: sat_add_i64(account.available, amt),
                    ..account
                };
                self.inner.insert(transaction.client, updated);
                self.tx.insert(transaction.tx, Transaction { under_dispute: false, ..stored });
                Ok(())
            },
            TransactionKind::Chargeback => {
                let stored = match self.tx.get(&transaction.tx) {
                    Some(t) => *t,
                    None => {
                        return Err(TransactionError::UnknownTransaction(transaction.tx));
                    },
                };
                if !stored.under_dispute {
                    return Err(TransactionError::TxNonDisputed(transaction.tx));
                }
                let amt = stored_amount(&stored);
                let updated = Account {
                    held: sat_sub_i64(account.held, amt),
                    total: sat_sub_i64(account.total, amt),
                    locked: true,
                    ..account
                };
                self.inner.insert(transaction.client, updated);
                Ok(())
            },
        }
    }

    /// Snapshot all accounts, in first-reference order.
    pub fn export(&self) -> (rows: Vec<(u16, Account)>)
        requires
            self.wf(),
        ensures
            rows@.len() == self.client_order().len(),
            forall|i: int|
                0 <= i < rows@.len() ==> #[trigger] rows@[i] == (
                    self.client_order()[i],
                    self.accounts()[self.client_order()[i]],
                ),
    {
        let mut rows: Vec<(u16, Account)> = Vec::new();
        let mut idx: usize = 0;
        while idx < self.clients.len()
            invariant
                self.wf(),
                idx <= self.clients@.len(),
                rows@.len() == idx,
                forall|i: int|
                    0 <= i < idx ==> #[trigger] rows@[i] == (
                        self.client_order()[i],
                        self.accounts()[self.client_order()[i]],
                    ),
            decreases self.clients@.len() - idx,
        {
            let client = self.clients[idx];
            let account = match self.inner.get(&client) {
                Some(a) => *a,
                None => vstd::pervasive::unreached(),
            };
            rows.push((client, account));
            idx += 1;
        }
        rows
    }
}

/// What the amount field of a record is worth: the value of a finite,
/// strictly positive amount; zero for an absent field (later rejected
/// by deposits and withdrawals, harmless to the kinds that ignore it);
/// an error for any other field.
pub open spec fn spec_get_amount(t: Transaction) -> Result<i64, TransactionError> {
    match t.amount {
        Some(Amount::Finite(v)) => if v > 0 {
            Ok(v)
        } else {
            Err(TransactionError::InvalidAmount(t.amount))
        },
        Some(Amount::NonFinite) => Err(TransactionError::InvalidAmount(t.amount)),
        None => Ok(0),
    }
}

/// Get the amount of money of a transaction record, zero on a missing
/// field.
fn get_amount(transaction: &Transaction) -> (r: Result<i64, TransactionError>)
    ensures
        r == spec_get_amount(*transaction),
{
    match transaction.amount {
        Some(Amount::Finite(a)) => {
            if a > 0 {
                Ok(a)
            } else {
                Err(TransactionError::InvalidAmount(transaction.amount))
            }
        },
        Some(Amount::NonFinite) => Err(TransactionError::InvalidAmount(transaction.amount)),
        None => Ok(0),
    }
}

/// The amount a stored entry moves on a dispute, resolve or
/// chargeback: its own stored amount, zero if absent.
fn stored_amount(t: &Transaction) -> (r: i64)
    ensures
        r as int == amount_value(t.amount),
{
    match t.amount {
        Some(Amount::Finite(v)) => v,
        _ => 0,
    }
}

} // verus!
