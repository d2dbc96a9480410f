//! The rules the ledger transition is proved to obey.
//!
//! Each proof function states one law of [`spec_apply`], the single
//! definition of the transition that [`Accounts::handle_transaction`]
//! is proved to implement; together they pin down the observable
//! behavior of the ledger.
//!
//! Where a law speaks of exact balance movements it excludes the
//! saturating cases: an addition or subtraction that leaves the `i64`
//! range is absorbed at the boundary, so an account that has been
//! saturated no longer carries exact sums. The excluded inputs are
//! named in each `requires`.

use vstd::prelude::*;

use crate::accounts::{history_wf, spec_apply, with_client, Account, TransactionError};
use crate::transaction::{amount_value, valid_amount, Transaction, TransactionKind};

verus! {

/// The funds invariant of one account: the total is the available
/// funds plus the held funds.
pub open spec fn balanced(a: Account) -> bool {
    a.total as int == a.available as int + a.held as int
}

/// Every existing account is balanced.
pub open spec fn all_balanced(accounts: Map<u16, Account>) -> bool {
    forall|c: u16| #[trigger] accounts.contains_key(c) ==> balanced(accounts[c])
}

/// Whether applying `t` stays clear of saturation: whenever the
/// transaction reaches its arithmetic, the sums and differences it
/// forms fit in the `i64` range. A withdrawal needs no side condition:
/// its own checks already keep it exact on balanced accounts.
pub open spec fn step_exact(
    accounts: Map<u16, Account>,
    history: Map<u32, Transaction>,
    t: Transaction,
) -> bool {
    let a0 = with_client(accounts, t.client)[t.client];
    match t.kind {
        TransactionKind::Deposit => (!history.contains_key(t.tx) && valid_amount(t.amount)
            && !a0.locked) ==> {
            &&& a0.available as int + amount_value(t.amount) <= i64::MAX as int
            &&& a0.total as int + amount_value(t.amount) <= i64::MAX as int
        },
        TransactionKind::Withdrawal => true,
        TransactionKind::Dispute => history.contains_key(t.tx) ==> {
            let amt = amount_value(history[t.tx].amount);
            &&& a0.available as int - amt >= i64::MIN as int
            &&& a0.held as int + amt <= i64::MAX as int
        },
        TransactionKind::Resolve => (history.contains_key(t.tx)
            && history[t.tx].under_dispute) ==> {
            let amt = amount_value(history[t.tx].amount);
            &&& a0.held as int - amt >= i64::MIN as int
            &&& a0.available as int + amt <= i64::MAX as int
        },
        TransactionKind::Chargeback => (history.contains_key(t.tx)
            && history[t.tx].under_dispute) ==> {
            let amt = amount_value(history[t.tx].amount);
            &&& a0.held as int - amt >= i64::MIN as int
            &&& a0.total as int - amt >= i64::MIN as int
        },
    }
}

/// One saturation-free step keeps every account balanced, whatever the
/// transaction kind and whether or not it is accepted.
pub proof fn lemma_apply_keeps_all_balanced(
    accounts: Map<u16, Account>,
    history: Map<u32, Transaction>,
    t: Transaction,
)
    requires
        all_balanced(accounts),
        history_wf(history),
        step_exact(accounts, history, t),
    ensures
        all_balanced(spec_apply(accounts, history, t).1),
{
    let acc0 = with_client(accounts, t.client);
    assert(all_balanced(acc0));
    let post = spec_apply(accounts, history, t).1;
    assert forall|c: u16| #[trigger] post.contains_key(c) implies balanced(post[c]) by {
        if c != t.client {
            assert(post[c] == acc0[c]);
        }
    }
}

/// The state left by a whole run: the transactions applied in order,
/// each from the state the previous one left, accepted or not.
pub open spec fn spec_run(
    accounts: Map<u16, Account>,
    history: Map<u32, Transaction>,
    ts: Seq<Transaction>,
) -> (Map<u16, Account>, Map<u32, Transaction>)
    decreases ts.len(),
{
    if ts.len() == 0 {
        (accounts, history)
    } else {
        let (r, a1, h1) = spec_apply(accounts, history, ts[0]);
        spec_run(a1, h1, ts.drop_first())
    }
}

/// Whether a whole run stays clear of saturation at every step.
pub open spec fn run_exact(
    accounts: Map<u16, Account>,
    history: Map<u32, Transaction>,
    ts: Seq<Transaction>,
) -> bool
    decreases ts.len(),
{
    ts.len() == 0 || {
        let (r, a1, h1) = spec_apply(accounts, history, ts[0]);
        step_exact(accounts, history, ts[0]) && run_exact(a1, h1, ts.drop_first())
    }
}

/// For all sequences of transactions: a saturation-free run from a
/// state with balanced accounts and a well-formed history — the empty
/// ledger is one — leaves `total == available + held` on every
/// account, after every step.
pub proof fn lemma_run_keeps_all_balanced(
    accounts: Map<u16, Account>,
    history: Map<u32, Transaction>,
    ts: Seq<Transaction>,
)
    requires
        all_balanced(accounts),
        history_wf(history),
        run_exact(accounts, history, ts),
    ensures
        all_balanced(spec_run(accounts, history, ts).0),
        history_wf(spec_run(accounts, history, ts).1),
    decreases ts.len(),
{
    if ts.len() > 0 {
        lemma_apply_keeps_all_balanced(accounts, history, ts[0]);
        lemma_apply_preserves_history_wf(accounts, history, ts[0]);
        let (r, a1, h1) = spec_apply(accounts, history, ts[0]);
        lemma_run_keeps_all_balanced(a1, h1, ts.drop_first());
    }
}

/// After every successful deposit or withdrawal whose additions stay
/// inside the `i64` range, the affected account is still balanced:
/// `total == available + held`.
///
/// A deposit that saturates a balance yet still passes the overflow
/// guard is excluded: it loses the exact sum by design.
pub proof fn lemma_deposit_withdrawal_keep_balance(
    accounts: Map<u16, Account>,
    history: Map<u32, Transaction>,
    t: Transaction,
)
    requires
        t.kind == TransactionKind::Deposit || t.kind == TransactionKind::Withdrawal,
        spec_apply(accounts, history, t).0 == Ok::<(), TransactionError>(()),
        balanced(with_client(accounts, t.client)[t.client]),
        t.kind == TransactionKind::Deposit ==> ({
            let a0 = with_client(accounts, t.client)[t.client];
            &&& a0.available as int + amount_value(t.amount) <= i64::MAX as int
            &&& a0.total as int + amount_value(t.amount) <= i64::MAX as int
        }),
    ensures
        balanced(spec_apply(accounts, history, t).1[t.client]),
{
}

/// A deposit or withdrawal whose `tx` is already stored in the history
/// is always rejected as a duplicate, whatever its client, and changes
/// no funds and no history.
pub proof fn lemma_duplicate_tx_rejected(
    accounts: Map<u16, Account>,
    history: Map<u32, Transaction>,
    t: Transaction,
)
    requires
        t.kind == TransactionKind::Deposit || t.kind == TransactionKind::Withdrawal,
        history.contains_key(t.tx),
    ensures
        ({
            let (r, accs, hist) = spec_apply(accounts, history, t);
            &&& r == Err::<(), TransactionError>(TransactionError::InvalidTransaction(t.tx))
            &&& accs == with_client(accounts, t.client)
            &&& hist == history
        }),
{
}

/// Disputing a stored transaction moves exactly its stored amount from
/// `available` to `held`, leaves `total` and the lock untouched, and
/// marks the entry under dispute.
///
/// Excluded: a dispute whose movement leaves the `i64` range (for
/// example an account already driven to the minimum available funds),
/// which saturates instead of moving exactly.
pub proof fn lemma_dispute_moves_stored_amount(
    accounts: Map<u16, Account>,
    history: Map<u32, Transaction>,
    t: Transaction,
)
    requires
        t.kind == TransactionKind::Dispute,
        history_wf(history),
        history.contains_key(t.tx),
        ({
            let a0 = with_client(accounts, t.client)[t.client];
            let amt = amount_value(history[t.tx].amount);
            &&& a0.available as int - amt >= i64::MIN as int
            &&& a0.held as int + amt <= i64::MAX as int
        }),
    ensures
        ({
            let (r, accs, hist) = spec_apply(accounts, history, t);
            let a0 = with_client(accounts, t.client)[t.client];
            let amt = amount_value(history[t.tx].amount);
            &&& r == Ok::<(), TransactionError>(())
            &&& accs[t.client].available as int == a0.available as int - amt
            &&& accs[t.client].held as int == a0.held as int + amt
            &&& accs[t.client].total == a0.total
            &&& accs[t.client].locked == a0.locked
            &&& hist == history.insert(
                t.tx,
                Transaction { under_dispute: true, ..history[t.tx] },
            )
        }),
{
}

/// Resolving a dispute reverses it exactly: a dispute followed by a
/// resolve of the same `tx` on the same client restores every account
/// to what it was (after the client's lazy creation), and the stored
/// entry ends with its dispute flag cleared.
pub proof fn lemma_resolve_reverses_dispute(
    accounts: Map<u16, Account>,
    history: Map<u32, Transaction>,
    t1: Transaction,
    t2: Transaction,
)
    requires
        t1.kind == TransactionKind::Dispute,
        t2.kind == TransactionKind::Resolve,
        t2.client == t1.client,
        t2.tx == t1.tx,
        history_wf(history),
        history.contains_key(t1.tx),
        ({
            let a0 = with_client(accounts, t1.client)[t1.client];
            let amt = amount_value(history[t1.tx].amount);
            &&& a0.available as int - amt >= i64::MIN as int
            &&& a0.held as int + amt <= i64::MAX as int
        }),
    ensures
        ({
            let (r1, acc1, hist1) = spec_apply(accounts, history, t1);
            let (r2, acc2, hist2) = spec_apply(acc1, hist1, t2);
            &&& r1 == Ok::<(), TransactionError>(())
            &&& r2 == Ok::<(), TransactionError>(())
            &&& acc2 == with_client(accounts, t1.client)
            &&& hist2 == history.insert(
                t1.tx,
                Transaction { under_dispute: false, ..history[t1.tx] },
            )
        }),
{
    let acc0 = with_client(accounts, t1.client);
    let (r1, acc1, hist1) = spec_apply(accounts, history, t1);
    let (r2, acc2, hist2) = spec_apply(acc1, hist1, t2);
    assert(acc2 =~= acc0);
    assert(hist2 =~= history.insert(
        t1.tx,
        Transaction { under_dispute: false, ..history[t1.tx] },
    ));
}

/// Charging back a disputed transaction removes exactly its stored
/// amount from `held` and `total`, leaves `available` untouched, and
/// locks the account; the history keeps the entry marked disputed.
///
/// Excluded: a chargeback whose subtractions leave the `i64` range,
/// which saturates instead of moving exactly.
pub proof fn lemma_chargeback_removes_and_locks(
    accounts: Map<u16, Account>,
    history: Map<u32, Transaction>,
    t: Transaction,
)
    requires
        t.kind == TransactionKind::Chargeback,
        history_wf(history),
        history.contains_key(t.tx),
        history[t.tx].under_dispute,
        ({
            let a0 = with_client(accounts, t.client)[t.client];
            let amt = amount_value(history[t.tx].amount);
            &&& a0.held as int - amt >= i64::MIN as int
            &&& a0.total as int - amt >= i64::MIN as int
        }),
    ensures
        ({
            let (r, accs, hist) = spec_apply(accounts, history, t);
            let a0 = with_client(accounts, t.client)[t.client];
            let amt = amount_value(history[t.tx].amount);
            &&& r == Ok::<(), TransactionError>(())
            &&& accs[t.client].available == a0.available
            &&& accs[t.client].held as int == a0.held as int - amt
            &&& accs[t.client].total as int == a0.total as int - amt
            &&& accs[t.client].locked
            &&& hist == history
        }),
{
}

/// A resolve or chargeback of a stored transaction that is not under
/// dispute is rejected, and changes no funds and no history. In
/// particular, re-applying a resolve after the dispute was resolved
/// fails this way.
pub proof fn lemma_resolve_chargeback_need_dispute(
    accounts: Map<u16, Account>,
    history: Map<u32, Transaction>,
    t: Transaction,
)
    requires
        t.kind == TransactionKind::Resolve || t.kind == TransactionKind::Chargeback,
        history.contains_key(t.tx),
        !history[t.tx].under_dispute,
    ensures
        ({
            let (r, accs, hist) = spec_apply(accounts, history, t);
            &&& r == Err::<(), TransactionError>(TransactionError::TxNonDisputed(t.tx))
            &&& accs == with_client(accounts, t.client)
            &&& hist == history
        }),
{
}

/// Once an account is locked, every deposit or withdrawal on it that
/// got past the duplicate and amount checks is rejected as locked, and
/// changes no funds and no history.
pub proof fn lemma_locked_rejects_deposit_withdrawal(
    accounts: Map<u16, Account>,
    history: Map<u32, Transaction>,
    t: Transaction,
)
    requires
        t.kind == TransactionKind::Deposit || t.kind == TransactionKind::Withdrawal,
        !history.contains_key(t.tx),
        valid_amount(t.amount),
        accounts.contains_key(t.client),
        accounts[t.client].locked,
    ensures
        ({
            let (r, accs, hist) = spec_apply(accounts, history, t);
            &&& r == Err::<(), TransactionError>(TransactionError::AccountLocked(t.client))
            &&& accs == accounts
            &&& hist == history
        }),
{
}

/// A lock is permanent: no transaction, of any kind, on any client,
/// unlocks an account. With the rejection law above, every subsequent
/// deposit or withdrawal on a locked account keeps failing.
pub proof fn lemma_lock_is_permanent(
    accounts: Map<u16, Account>,
    history: Map<u32, Transaction>,
    t: Transaction,
    c: u16,
)
    requires
        accounts.contains_key(c),
        accounts[c].locked,
    ensures
        ({
            let accs = spec_apply(accounts, history, t).1;
            accs.contains_key(c) && accs[c].locked
        }),
{
}

/// A lock survives any whole run.
pub proof fn lemma_run_keeps_lock(
    accounts: Map<u16, Account>,
    history: Map<u32, Transaction>,
    ts: Seq<Transaction>,
    c: u16,
)
    requires
        accounts.contains_key(c),
        accounts[c].locked,
    ensures
        ({
            let accs = spec_run(accounts, history, ts).0;
            accs.contains_key(c) && accs[c].locked
        }),
    decreases ts.len(),
{
    if ts.len() > 0 {
        lemma_lock_is_permanent(accounts, history, ts[0], c);
        let (r, a1, h1) = spec_apply(accounts, history, ts[0]);
        lemma_run_keeps_lock(a1, h1, ts.drop_first(), c);
    }
}

/// A stored history entry is never removed, so a duplicate `tx` stays
/// a duplicate for the rest of the run.
pub proof fn lemma_history_keys_kept(
    accounts: Map<u16, Account>,
    history: Map<u32, Transaction>,
    t: Transaction,
    id: u32,
)
    requires
        history.contains_key(id),
    ensures
        spec_apply(accounts, history, t).2.contains_key(id),
{
}

/// Disputes, resolves and chargebacks stay permitted on a locked
/// account: whether the account is locked plays no part in their
/// outcome.
pub proof fn lemma_lock_spares_dispute_family(
    accounts: Map<u16, Account>,
    history: Map<u32, Transaction>,
    t: Transaction,
)
    requires
        t.kind == TransactionKind::Dispute || t.kind == TransactionKind::Resolve || t.kind
            == TransactionKind::Chargeback,
        history.contains_key(t.tx),
        t.kind != TransactionKind::Dispute ==> history[t.tx].under_dispute,
    ensures
        spec_apply(accounts, history, t).0 == Ok::<(), TransactionError>(()),
{
}

/// A deposit or withdrawal whose amount field is absent, non-positive
/// or non-finite is rejected, and changes no funds and no history.
pub proof fn lemma_invalid_amount_rejected(
    accounts: Map<u16, Account>,
    history: Map<u32, Transaction>,
    t: Transaction,
)
    requires
        t.kind == TransactionKind::Deposit || t.kind == TransactionKind::Withdrawal,
        !history.contains_key(t.tx),
        !valid_amount(t.amount),
    ensures
        ({
            let (r, accs, hist) = spec_apply(accounts, history, t);
            &&& r == Err::<(), TransactionError>(TransactionError::InvalidAmount(t.amount))
            &&& accs == with_client(accounts, t.client)
            &&& hist == history
        }),
{
}

/// A withdrawal of more than the available funds is rejected, and
/// changes no funds and no history.
pub proof fn lemma_insufficient_funds_rejected(
    accounts: Map<u16, Account>,
    history: Map<u32, Transaction>,
    t: Transaction,
)
    requires
        t.kind == TransactionKind::Withdrawal,
        !history.contains_key(t.tx),
        valid_amount(t.amount),
        ({
            let a0 = with_client(accounts, t.client)[t.client];
            !a0.locked && amount_value(t.amount) > a0.available as int
        }),
    ensures
        ({
            let (r, accs, hist) = spec_apply(accounts, history, t);
            &&& r == Err::<(), TransactionError>(
                TransactionError::InsufficientFunds(amount_value(t.amount) as i64),
            )
            &&& accs == with_client(accounts, t.client)
            &&& hist == history
        }),
{
}

/// A dispute, resolve or chargeback referencing a `tx` that is not in
/// the history is rejected as unknown, and changes no funds and no
/// history.
pub proof fn lemma_unknown_tx_rejected(
    accounts: Map<u16, Account>,
    history: Map<u32, Transaction>,
    t: Transaction,
)
    requires
        t.kind == TransactionKind::Dispute || t.kind == TransactionKind::Resolve || t.kind
            == TransactionKind::Chargeback,
        !history.contains_key(t.tx),
    ensures
        ({
            let (r, accs, hist) = spec_apply(accounts, history, t);
            &&& r == Err::<(), TransactionError>(TransactionError::UnknownTransaction(t.tx))
            &&& accs == with_client(accounts, t.client)
            &&& hist == history
        }),
{
}

/// The transition keeps the history well formed: every stored entry
/// stays the copy of a successfully applied deposit or withdrawal,
/// under its own `tx` as key, with a finite, positive amount. This is
/// what entitles later transactions to the exactness requirements of
/// the dispute-family laws.
pub proof fn lemma_apply_preserves_history_wf(
    accounts: Map<u16, Account>,
    history: Map<u32, Transaction>,
    t: Transaction,
)
    requires
        history_wf(history),
    ensures
        history_wf(spec_apply(accounts, history, t).2),
{
}

/// The transition never reports an unknown client: the client's
/// account is created before anything else is checked.
pub proof fn lemma_no_unknown_client(
    accounts: Map<u16, Account>,
    history: Map<u32, Transaction>,
    t: Transaction,
)
    ensures
        forall|c: u16|
            spec_apply(accounts, history, t).0 != Err::<(), TransactionError>(
                TransactionError::UnknownClient(c),
            ),
{
}

} // verus!
