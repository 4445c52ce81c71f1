//! What holds of every ledger: the invariant, and the laws that follow.

use crate::errors::LedgerError;
use crate::ledger_model::{
    credits, debits, history_of, initial_balance, is_grant, made_by, net_amount, LedgerOp,
    LedgerView, TransactionView,
};
use crate::token_system::INITIAL_TOKEN_AMOUNT;
use candid::Principal;
use vstd::prelude::*;

verus! {

/// The three sums of a history grow by the last transaction alone.
pub proof fn lemma_sums_push(history: Seq<TransactionView>, last: TransactionView)
    ensures
        net_amount(history.push(last)) == net_amount(history) + last.amount,
        credits(history.push(last)) == credits(history) + if last.amount > 0 {
            last.amount
        } else {
            0
        },
        debits(history.push(last)) == debits(history) + if last.amount < 0 {
            -last.amount
        } else {
            0
        },
{
    assert(history.push(last).drop_last() =~= history);
}

/// The signed sum of a history is its credits minus its debits.
pub proof fn lemma_net_is_credits_minus_debits(history: Seq<TransactionView>)
    ensures
        net_amount(history) == credits(history) - debits(history),
    decreases history.len(),
{
    if history.len() > 0 {
        lemma_net_is_credits_minus_debits(history.drop_last());
    }
}

/// A new transaction joins the history of its user and of nobody else.
pub proof fn lemma_history_push(log: Seq<TransactionView>, last: TransactionView, user: Principal)
    ensures
        history_of(log.push(last), user) == if last.user == user {
            history_of(log, user).push(last)
        } else {
            history_of(log, user)
        },
{
    log.lemma_filter_push(last, made_by(user));
}

/// An identity that no transaction names has an empty history.
pub proof fn lemma_history_of_stranger(log: Seq<TransactionView>, user: Principal)
    requires
        forall|i: int| 0 <= i < log.len() ==> (#[trigger] log[i]).user != user,
    ensures
        history_of(log, user) == Seq::<TransactionView>::empty(),
    decreases log.len(),
{
    reveal(Seq::filter);
    if log.len() > 0 {
        let rest = log.drop_last();
        assert forall|i: int| 0 <= i < rest.len() implies (#[trigger] rest[i]).user != user by {
            assert(rest[i] == log[i]);
        }
        lemma_history_of_stranger(rest, user);
        assert(!made_by(user)(log.last()));
    }
    assert(history_of(log, user) =~= Seq::<TransactionView>::empty());
}

/// Every transaction of a history is a transaction of the log, of that user,
/// and the history keeps the order of the log.
pub proof fn lemma_history_is_ordered_selection(log: Seq<TransactionView>, user: Principal)
    requires
        forall|i: int| 0 <= i < log.len() ==> (#[trigger] log[i]).id == i,
    ensures
        forall|k: int|
            0 <= k < history_of(log, user).len() ==> {
                &&& (#[trigger] history_of(log, user)[k]).user == user
                &&& history_of(log, user)[k].id < log.len()
                &&& log[history_of(log, user)[k].id as int] == history_of(log, user)[k]
            },
        forall|j: int, k: int|
            0 <= j < k < history_of(log, user).len() ==> (#[trigger] history_of(log, user)[j]).id
                < (#[trigger] history_of(log, user)[k]).id,
    decreases log.len(),
{
    reveal(Seq::filter);
    if log.len() > 0 {
        let rest = log.drop_last();
        assert forall|i: int| 0 <= i < rest.len() implies (#[trigger] rest[i]).id == i by {
            assert(rest[i] == log[i]);
        }
        lemma_history_is_ordered_selection(rest, user);
        let shorter = history_of(rest, user);
        let whole = history_of(log, user);
        assert forall|k: int| 0 <= k < shorter.len() implies log[(#[trigger] shorter[k]).id as int]
            == shorter[k] by {
            assert(rest[shorter[k].id as int] == log[shorter[k].id as int]);
        }
        if made_by(user)(log.last()) {
            assert(whole == shorter.push(log.last()));
        } else {
            assert(whole == shorter);
        }
    }
}

/// Initializing keeps the ledger invariant.
pub proof fn lemma_initialize_preserves_wf(ledger: LedgerView, user: Principal, now: u64)
    requires
        ledger.wf(),
    ensures
        ledger.after_initialize(user, now).wf(),
{
    if ledger.initialize_outcome(user) is Ok {
        let after = ledger.after_initialize(user, now);
        let grant = after.transactions.last();
        lemma_history_of_stranger(ledger.transactions, user);
        assert forall|other: Principal| #[trigger]
            after.balances.contains_key(other) implies after.account_consistent(other) by {
            lemma_history_push(ledger.transactions, grant, other);
            if other == user {
                lemma_sums_push(Seq::<TransactionView>::empty(), grant);
            } else {
                assert(ledger.account_consistent(other));
            }
        }
    }
}

/// Crediting keeps the ledger invariant.
pub proof fn lemma_earn_preserves_wf(
    ledger: LedgerView,
    user: Principal,
    amount: u64,
    description: Seq<char>,
    now: u64,
)
    requires
        ledger.wf(),
    ensures
        ledger.after_earn(user, amount, description, now).wf(),
{
    if ledger.earn_outcome(user, amount) is Ok {
        let after = ledger.after_earn(user, amount, description, now);
        let credit = after.transactions.last();
        assert(ledger.account_consistent(user));
        assert forall|other: Principal| #[trigger]
            after.balances.contains_key(other) implies after.account_consistent(other) by {
            lemma_history_push(ledger.transactions, credit, other);
            assert(ledger.account_consistent(other));
            if other == user {
                lemma_sums_push(ledger.history(user), credit);
            }
        }
    }
}

/// Debiting keeps the ledger invariant.
pub proof fn lemma_spend_preserves_wf(
    ledger: LedgerView,
    user: Principal,
    amount: u64,
    description: Seq<char>,
    service_type: Option<Seq<char>>,
    now: u64,
)
    requires
        ledger.wf(),
    ensures
        ledger.after_spend(user, amount, description, service_type, now).wf(),
{
    if ledger.spend_outcome(user, amount) is Ok {
        let after = ledger.after_spend(user, amount, description, service_type, now);
        let debit = after.transactions.last();
        assert(ledger.account_consistent(user));
        assert forall|other: Principal| #[trigger]
            after.balances.contains_key(other) implies after.account_consistent(other) by {
            lemma_history_push(ledger.transactions, debit, other);
            assert(ledger.account_consistent(other));
            if other == user {
                lemma_sums_push(ledger.history(user), debit);
            }
        }
    }
}

/// Every operation keeps the ledger invariant, whether it succeeds or not.
pub proof fn lemma_apply_preserves_wf(ledger: LedgerView, op: LedgerOp)
    requires
        ledger.wf(),
    ensures
        ledger.apply(op).wf(),
{
    match op {
        LedgerOp::Initialize { user, now } => lemma_initialize_preserves_wf(ledger, user, now),
        LedgerOp::Earn { user, amount, description, now } => lemma_earn_preserves_wf(
            ledger,
            user,
            amount,
            description,
            now,
        ),
        LedgerOp::Spend { user, amount, description, service_type, now } => {
            lemma_spend_preserves_wf(ledger, user, amount, description, service_type, now)
        },
    }
}

/// Every ledger reached from the empty one by any sequence of operations
/// satisfies the ledger invariant.
pub proof fn law_reachable_ledgers_are_consistent(ops: Seq<LedgerOp>)
    ensures
        LedgerView::empty().run(ops).wf(),
    decreases ops.len(),
{
    if ops.len() > 0 {
        law_reachable_ledgers_are_consistent(ops.drop_last());
        lemma_apply_preserves_wf(LedgerView::empty().run(ops.drop_last()), ops.last());
    }
}

/// After every operation of any sequence of operations, the balance of each
/// identity is its lifetime earnings minus its lifetime spending.
pub proof fn law_balance_is_earned_minus_spent(ops: Seq<LedgerOp>, user: Principal)
    requires
        LedgerView::empty().run(ops).balances.contains_key(user),
    ensures
        ({
            let record = LedgerView::empty().run(ops).balances[user];
            record.balance == record.total_earned - record.total_spent
        }),
{
    law_reachable_ledgers_are_consistent(ops);
    assert(LedgerView::empty().run(ops).account_consistent(user));
}

/// Lifetime earnings and lifetime spending never decrease: an operation
/// leaves both at least where they were.
pub proof fn law_totals_never_decrease(ledger: LedgerView, op: LedgerOp, user: Principal)
    requires
        ledger.wf(),
        ledger.balances.contains_key(user),
    ensures
        ledger.apply(op).balances.contains_key(user),
        ledger.apply(op).balances[user].total_earned >= ledger.balances[user].total_earned,
        ledger.apply(op).balances[user].total_spent >= ledger.balances[user].total_spent,
{
    assert(ledger.account_consistent(user));
    match op {
        LedgerOp::Initialize { user: who, now } => {},
        LedgerOp::Earn { user: who, amount, description, now } => {},
        LedgerOp::Spend { user: who, amount, description, service_type, now } => {
            assert(ledger.balances.contains_key(who) ==> ledger.account_consistent(who));
        },
    }
}

/// Replaying the history of an identity reproduces its balance record: the
/// signed amounts sum to the balance, the credits to the lifetime earnings
/// and the debits to the lifetime spending.
pub proof fn law_history_replays_to_balance(ledger: LedgerView, user: Principal)
    requires
        ledger.wf(),
        ledger.balances.contains_key(user),
    ensures
        net_amount(ledger.history(user)) == ledger.balances[user].balance,
        credits(ledger.history(user)) == ledger.balances[user].total_earned,
        debits(ledger.history(user)) == ledger.balances[user].total_spent,
{
    assert(ledger.account_consistent(user));
    lemma_net_is_credits_minus_debits(ledger.history(user));
}

/// An identity without a balance record has no transactions.
pub proof fn law_unknown_identity_has_no_history(ledger: LedgerView, user: Principal)
    requires
        ledger.wf(),
        !ledger.balances.contains_key(user),
    ensures
        ledger.history(user) == Seq::<TransactionView>::empty(),
{
    lemma_history_of_stranger(ledger.transactions, user);
}

/// The first initialization of an identity returns the grant, creates its
/// balance record and appends exactly one transaction; a second one fails
/// with `AlreadyInitialized` and changes nothing.
pub proof fn law_initialize_once(ledger: LedgerView, user: Principal, first: u64, second: u64)
    requires
        ledger.wf(),
        !ledger.balances.contains_key(user),
    ensures
        ledger.initialize_outcome(user) == Ok::<u64, LedgerError>(INITIAL_TOKEN_AMOUNT),
        ledger.after_initialize(user, first).balances == ledger.balances.insert(
            user,
            initial_balance(first),
        ),
        ledger.after_initialize(user, first).transactions.len() == ledger.transactions.len() + 1,
        ledger.after_initialize(user, first).transactions.drop_last() == ledger.transactions,
        ledger.after_initialize(user, first).history(user) == seq![
            TransactionView {
                id: ledger.transactions.len(),
                user,
                amount: INITIAL_TOKEN_AMOUNT as int,
                description: "Initial token grant"@,
                timestamp: first,
                service_type: None,
            },
        ],
        is_grant(ledger.after_initialize(user, first).history(user)[0]),
        ledger.after_initialize(user, first).initialize_outcome(user) == Err::<u64, LedgerError>(
            LedgerError::AlreadyInitialized,
        ),
        ledger.after_initialize(user, first).after_initialize(user, second)
            == ledger.after_initialize(user, first),
{
    let after = ledger.after_initialize(user, first);
    assert(after.transactions.drop_last() =~= ledger.transactions);
    lemma_history_of_stranger(ledger.transactions, user);
    lemma_history_push(ledger.transactions, after.transactions.last(), user);
    assert(after.history(user) =~= seq![after.transactions.last()]);
}

/// Of two initializations of one identity, whichever runs first succeeds
/// and the other fails; afterwards the identity has one balance record,
/// holding the grant, and one transaction.
pub proof fn law_racing_initializations(ledger: LedgerView, user: Principal, a: u64, b: u64)
    requires
        ledger.wf(),
        !ledger.balances.contains_key(user),
    ensures
        ({
            let a_then_b = ledger.after_initialize(user, a).after_initialize(user, b);
            let b_then_a = ledger.after_initialize(user, b).after_initialize(user, a);
            &&& ledger.initialize_outcome(user) is Ok
            &&& ledger.after_initialize(user, a).initialize_outcome(user) is Err
            &&& ledger.after_initialize(user, b).initialize_outcome(user) is Err
            &&& a_then_b.balances[user] == initial_balance(a)
            &&& b_then_a.balances[user] == initial_balance(b)
            &&& a_then_b.history(user).len() == 1
            &&& b_then_a.history(user).len() == 1
            &&& is_grant(a_then_b.history(user)[0])
            &&& is_grant(b_then_a.history(user)[0])
            &&& a_then_b.transactions.len() == ledger.transactions.len() + 1
            &&& b_then_a.transactions.len() == ledger.transactions.len() + 1
        }),
{
    law_initialize_once(ledger, user, a, b);
    law_initialize_once(ledger, user, b, a);
}

/// Spending more than the balance fails with `InsufficientFunds` and leaves
/// the ledger as it was.
pub proof fn law_overspending_changes_nothing(
    ledger: LedgerView,
    user: Principal,
    amount: u64,
    description: Seq<char>,
    service_type: Option<Seq<char>>,
    now: u64,
)
    requires
        ledger.balances.contains_key(user),
        amount > ledger.balances[user].balance,
    ensures
        ledger.spend_outcome(user, amount) == Err::<u64, LedgerError>(
            LedgerError::InsufficientFunds,
        ),
        ledger.after_spend(user, amount, description, service_type, now) == ledger,
{
}

/// A zero amount is refused by earn and by spend, and the ledger stays as
/// it was: with `InvalidAmount` for an identity that has a balance record,
/// with `NotFound` for one that has none.
pub proof fn law_zero_amount_is_rejected(
    ledger: LedgerView,
    user: Principal,
    description: Seq<char>,
    service_type: Option<Seq<char>>,
    now: u64,
)
    ensures
        ledger.earn_outcome(user, 0) == Err::<u64, LedgerError>(
            if ledger.balances.contains_key(user) {
                LedgerError::InvalidAmount
            } else {
                LedgerError::NotFound
            },
        ),
        ledger.spend_outcome(user, 0) == ledger.earn_outcome(user, 0),
        ledger.after_earn(user, 0, description, now) == ledger,
        ledger.after_spend(user, 0, description, service_type, now) == ledger,
{
}

/// Whatever the amount, earn and spend for an identity without a balance
/// record fail with `NotFound`, create no balance record and record no
/// transaction.
pub proof fn law_unknown_identity_is_not_found(
    ledger: LedgerView,
    user: Principal,
    amount: u64,
    description: Seq<char>,
    service_type: Option<Seq<char>>,
    now: u64,
)
    requires
        !ledger.balances.contains_key(user),
    ensures
        ledger.earn_outcome(user, amount) == Err::<u64, LedgerError>(LedgerError::NotFound),
        ledger.spend_outcome(user, amount) == Err::<u64, LedgerError>(LedgerError::NotFound),
        ledger.after_earn(user, amount, description, now) == ledger,
        ledger.after_spend(user, amount, description, service_type, now) == ledger,
{
}

/// An amount that would be negative as a signed 64-bit number is rejected
/// by earn and by spend, and the ledger stays as it was.
pub proof fn law_negative_amount_is_rejected(
    ledger: LedgerView,
    user: Principal,
    amount: u64,
    description: Seq<char>,
    service_type: Option<Seq<char>>,
    now: u64,
)
    requires
        amount > i64::MAX,
    ensures
        ledger.earn_outcome(user, amount) is Err,
        ledger.spend_outcome(user, amount) is Err,
        ledger.after_earn(user, amount, description, now) == ledger,
        ledger.after_spend(user, amount, description, service_type, now) == ledger,
{
}

/// An operation that fails leaves the ledger as it was.
pub proof fn law_failure_changes_nothing(ledger: LedgerView, op: LedgerOp)
    requires
        ledger.outcome(op) is Err,
    ensures
        ledger.apply(op) == ledger,
{
}

/// An operation that succeeds appends exactly one transaction, for the
/// identity it was called for, whose amount is the change of that
/// identity's balance; every other balance record stays as it was.
pub proof fn law_success_appends_one_transaction(ledger: LedgerView, op: LedgerOp)
    requires
        ledger.wf(),
        ledger.outcome(op) is Ok,
    ensures
        ({
            let after = ledger.apply(op);
            let user = after.transactions.last().user;
            let before_balance: int = if ledger.balances.contains_key(user) {
                ledger.balances[user].balance as int
            } else {
                0
            };
            &&& after.transactions.len() == ledger.transactions.len() + 1
            &&& after.transactions.drop_last() == ledger.transactions
            &&& after.balances.contains_key(user)
            &&& after.balances[user].balance == before_balance + after.transactions.last().amount
            &&& after.balances.remove(user) == ledger.balances.remove(user)
        }),
{
    let after = ledger.apply(op);
    assert(after.transactions.drop_last() =~= ledger.transactions);
    let user = after.transactions.last().user;
    assert(ledger.balances.contains_key(user) ==> ledger.account_consistent(user));
    assert(after.balances.remove(user) =~= ledger.balances.remove(user));
}

/// Nothing is ever deleted or rewritten: an operation keeps every balance
/// record's identity known and every recorded transaction as it was, at the
/// position where it was.
pub proof fn law_nothing_is_deleted(ledger: LedgerView, op: LedgerOp)
    ensures
        forall|user: Principal| #[trigger]
            ledger.balances.contains_key(user) ==> ledger.apply(op).balances.contains_key(user),
        ledger.transactions.len() <= ledger.apply(op).transactions.len(),
        forall|i: int|
            0 <= i < ledger.transactions.len() ==> #[trigger] ledger.apply(op).transactions[i]
                == ledger.transactions[i],
{
}

/// Identities are independent: an operation for one identity leaves the
/// balance record and the history of every other identity as they were.
pub proof fn law_others_are_untouched(ledger: LedgerView, op: LedgerOp, other: Principal)
    requires
        op.user() != other,
    ensures
        ledger.apply(op).balances.contains_key(other) == ledger.balances.contains_key(other),
        ledger.balances.contains_key(other) ==> ledger.apply(op).balances[other]
            == ledger.balances[other],
        ledger.apply(op).history(other) == ledger.history(other),
{
    if ledger.outcome(op) is Ok {
        lemma_history_push(ledger.transactions, ledger.apply(op).transactions.last(), other);
    }
}

/// The history of every known identity begins with its initial grant, and
/// holds no other transaction before it.
pub proof fn law_history_begins_with_the_grant(ledger: LedgerView, user: Principal)
    requires
        ledger.wf(),
        ledger.balances.contains_key(user),
    ensures
        ledger.history(user).len() > 0,
        is_grant(ledger.history(user)[0]),
        ledger.history(user)[0].user == user,
{
    assert(ledger.account_consistent(user));
    broadcast use vstd::seq_lib::group_filter_ensures;
    assert(made_by(user)(ledger.history(user)[0]));
}

/// Transaction ids are unique and strictly increasing in creation order,
/// over the transactions of all identities together.
pub proof fn law_transaction_ids_strictly_increase(ledger: LedgerView, earlier: int, later: int)
    requires
        ledger.wf(),
        0 <= earlier < later < ledger.transactions.len(),
    ensures
        ledger.transactions[earlier].id < ledger.transactions[later].id,
{
}

/// Within the history of one identity, too, ids strictly increase: a
/// history lists the transactions of its identity in creation order.
pub proof fn law_history_is_in_creation_order(
    ledger: LedgerView,
    user: Principal,
    earlier: int,
    later: int,
)
    requires
        ledger.wf(),
        0 <= earlier < later < ledger.history(user).len(),
    ensures
        ledger.history(user)[earlier].id < ledger.history(user)[later].id,
        ledger.history(user)[earlier].user == user,
        ledger.history(user)[later].user == user,
{
    lemma_history_is_ordered_selection(ledger.transactions, user);
}

/// The transaction that an operation appends gets an id above every id
/// handed out before it.
pub proof fn law_new_transaction_has_fresh_id(ledger: LedgerView, op: LedgerOp, i: int)
    requires
        ledger.wf(),
        ledger.outcome(op) is Ok,
        0 <= i < ledger.transactions.len(),
    ensures
        ledger.transactions[i].id < ledger.apply(op).transactions.last().id,
{
}

} // verus!
