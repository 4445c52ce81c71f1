//! The token ledger: balances, the transaction log and the operations on
//! them.

use crate::errors::LedgerError;
use crate::id_allocator::IdAllocator;
use crate::identity::same_principal;
use crate::ledger_laws::{
    law_history_replays_to_balance, lemma_earn_preserves_wf, lemma_history_of_stranger,
    lemma_initialize_preserves_wf, lemma_spend_preserves_wf,
};
use crate::ledger_model::{
    appended, history_of, made_by, net_amount, LedgerView, TransactionView,
};
use crate::principal_map::PrincipalMap;
use crate::seq_lemmas::{lemma_filter_next, lemma_filter_none};
use candid::Principal;
use vstd::prelude::*;

verus! {

/// Tokens granted to an identity when it is initialized.
pub const INITIAL_TOKEN_AMOUNT: u64 = 500;

/// Tokens credited for a day's engagement.
pub const DAILY_ENGAGEMENT_REWARD: u64 = 10;

/// Tokens credited for submitting a report.
pub const REPORT_SUBMISSION_REWARD: u64 = 50;

/// Tokens credited for a community post.
pub const COMMUNITY_POST_REWARD: u64 = 5;

/// The balance record of one identity.
#[derive(Clone, Copy, Debug, PartialEq, Eq, Structural)]
pub struct TokenBalance {
    /// What can be spent now.
    pub balance: u64,
    /// The time of the last operation that changed this record.
    pub last_updated: u64,
    /// Lifetime credits.
    pub total_earned: u64,
    /// Lifetime debits.
    pub total_spent: u64,
}

impl TokenBalance {
    /// The balance is what was earned and not spent.
    pub open spec fn wf(&self) -> bool {
        self.balance == self.total_earned - self.total_spent
    }
}

/// One entry of the transaction log.
#[derive(Debug, PartialEq, Eq)]
pub struct TokenTransaction {
    pub id: u64,
    pub user: Principal,
    /// Positive for earning, negative for spending.
    pub amount: i64,
    pub description: String,
    pub timestamp: u64,
    /// The service category of a spend, if it had one.
    pub service_type: Option<String>,
}

/// The view of an optional text.
pub open spec fn text_view(text: Option<String>) -> Option<Seq<char>> {
    match text {
        Some(s) => Some(s@),
        None => None,
    }
}

impl View for TokenTransaction {
    type V = TransactionView;

    open spec fn view(&self) -> TransactionView {
        TransactionView {
            id: self.id as nat,
            user: self.user,
            amount: self.amount as int,
            description: self.description@,
            timestamp: self.timestamp,
            service_type: text_view(self.service_type),
        }
    }
}

impl Clone for TokenTransaction {
    fn clone(&self) -> (copy: Self)
        ensures
            copy == *self,
    {
        TokenTransaction {
            id: self.id,
            user: self.user,
            amount: self.amount,
            description: self.description.clone(),
            timestamp: self.timestamp,
            service_type: match &self.service_type {
                Some(s) => Some(s.clone()),
                None => None,
            },
        }
    }
}

/// The views of the transactions of `log`, in order.
pub open spec fn transaction_views(log: Seq<TokenTransaction>) -> Seq<TransactionView> {
    log.map_values(|t: TokenTransaction| t@)
}

/// The token ledger: one balance record per identity, and the log of all
/// transactions in the order in which they were recorded.
pub struct Ledger {
    balances: PrincipalMap<TokenBalance>,
    transactions: Vec<TokenTransaction>,
    ids: IdAllocator,
}

impl View for Ledger {
    type V = LedgerView;

    closed spec fn view(&self) -> LedgerView {
        LedgerView {
            balances: self.balances@,
            transactions: transaction_views(self.transactions@),
        }
    }
}

impl Ledger {
    /// The id allocator stands at the length of the log, and the ledger
    /// invariant holds. This holds of every ledger at all times.
    #[verifier::type_invariant]
    pub closed spec fn wf(&self) -> bool {
        &&& self.ids@ == self.transactions@.len()
        &&& self@.wf()
    }

    /// The view of a ledger satisfies the ledger invariant.
    pub proof fn lemma_view_wf(&self)
        requires
            self.wf(),
        ensures
            self@.wf(),
    {
    }

    /// An empty ledger.
    pub fn new() -> (ledger: Ledger)
        ensures
            ledger@ == LedgerView::empty(),
    {
        let balances = PrincipalMap::new();
        let transactions: Vec<TokenTransaction> = Vec::new();
        let ids = IdAllocator::new();
        assert(transaction_views(transactions@) =~= Seq::<TransactionView>::empty());
        Ledger { balances, transactions, ids }
    }
}

/// Appends one transaction to the log, under the next free id.
fn record_transaction(
    transactions: &mut Vec<TokenTransaction>,
    ids: &mut IdAllocator,
    user: Principal,
    amount: i64,
    description: String,
    service_type: Option<String>,
    now: u64,
)
    requires
        old(ids)@ == old(transactions)@.len(),
    ensures
        final(ids)@ == final(transactions)@.len(),
        transaction_views(final(transactions)@) == appended(
            transaction_views(old(transactions)@),
            user,
            amount as int,
            description@,
            text_view(service_type),
            now,
        ),
{
    let id: u64 = ids.peek();
    let transaction = TokenTransaction {
        id,
        user,
        amount,
        description,
        timestamp: now,
        service_type,
    };
    transactions.push(transaction);
    // The log fits in memory, so its length, and with it the next id, fits
    // in 64 bits.
    assert(transactions@.len() == transactions.len() <= usize::MAX);
    let _ = ids.next();
    assert(transaction_views(transactions@) =~= appended(
        transaction_views(old(transactions)@),
        user,
        amount as int,
        description@,
        text_view(service_type),
        now,
    ));
}

/// Makes `record` the balance record of `user` and appends the transaction
/// that accounts for the change.
///
/// The ledger is taken apart, changed and put together again, so that no
/// ledger ever exists in which the balances and the log disagree.
fn commit(
    ledger: &mut Ledger,
    user: Principal,
    record: TokenBalance,
    amount: i64,
    description: String,
    service_type: Option<String>,
    now: u64,
)
    requires
        old(ledger)@.committed(
            user,
            record,
            amount as int,
            description@,
            text_view(service_type),
            now,
        ).wf(),
    ensures
        final(ledger)@ == old(ledger)@.committed(
            user,
            record,
            amount as int,
            description@,
            text_view(service_type),
            now,
        ),
{
    proof {
        use_type_invariant(&*ledger);
    }
    let mut taken = Ledger::new();
    std::mem::swap(ledger, &mut taken);
    let Ledger { balances: mut balances, transactions: mut transactions, ids: mut ids } = taken;
    balances.insert(user, record);
    record_transaction(&mut transactions, &mut ids, user, amount, description, service_type, now);
    *ledger = Ledger { balances, transactions, ids };
}

/// Creates the balance record of `user` with the initial grant and records
/// the grant as the first transaction of `user`.
///
/// Fails with `AlreadyInitialized`, changing nothing, if `user` already has
/// a balance record.
pub fn initialize_user_tokens(ledger: &mut Ledger, user: Principal, now: u64) -> (result: Result<
    u64,
    LedgerError,
>)
    ensures
        old(ledger)@.wf(),
        final(ledger)@.wf(),
        result == old(ledger)@.initialize_outcome(user),
        final(ledger)@ == old(ledger)@.after_initialize(user, now),
{
    proof {
        use_type_invariant(&*ledger);
    }
    if ledger.balances.contains_key(user) {
        return Err(LedgerError::AlreadyInitialized);
    }
    let balance = TokenBalance {
        balance: INITIAL_TOKEN_AMOUNT,
        last_updated: now,
        total_earned: INITIAL_TOKEN_AMOUNT,
        total_spent: 0,
    };
    proof {
        lemma_initialize_preserves_wf(ledger@, user, now);
    }
    let description = "Initial token grant".to_owned();
    commit(ledger, user, balance, INITIAL_TOKEN_AMOUNT as i64, description, None, now);
    Ok(INITIAL_TOKEN_AMOUNT)
}

/// The balance record of `user`, or `NotFound` if `user` has none.
pub fn get_token_balance(ledger: &Ledger, user: Principal) -> (result: Result<
    TokenBalance,
    LedgerError,
>)
    ensures
        ledger@.wf(),
        result == if ledger@.balances.contains_key(user) {
            Ok::<TokenBalance, LedgerError>(ledger@.balances[user])
        } else {
            Err::<TokenBalance, LedgerError>(LedgerError::NotFound)
        },
        result matches Ok(record) ==> record.wf(),
{
    proof {
        use_type_invariant(ledger);
        if ledger@.balances.contains_key(user) {
            assert(ledger@.account_consistent(user));
        }
    }
    match ledger.balances.get(user) {
        Some(balance) => Ok(*balance),
        None => Err(LedgerError::NotFound),
    }
}

/// Debits `amount` from `user` and records the debit.
///
/// Fails, changing nothing, with `NotFound` if `user` has no balance
/// record, else with `InvalidAmount` if `amount` is zero, else with
/// `InsufficientFunds` if the balance is below `amount`, else with
/// `Overflow` if `amount` is more than a transaction can hold. On success
/// returns the new balance.
pub fn spend_tokens(
    ledger: &mut Ledger,
    user: Principal,
    amount: u64,
    description: String,
    service_type: Option<String>,
    now: u64,
) -> (result: Result<u64, LedgerError>)
    ensures
        old(ledger)@.wf(),
        final(ledger)@.wf(),
        result == old(ledger)@.spend_outcome(user, amount),
        final(ledger)@ == old(ledger)@.after_spend(
            user,
            amount,
            description@,
            text_view(service_type),
            now,
        ),
{
    proof {
        use_type_invariant(&*ledger);
    }
    let before = match ledger.balances.get(user) {
        Some(balance) => *balance,
        None => {
            return Err(LedgerError::NotFound);
        },
    };
    if amount == 0 {
        return Err(LedgerError::InvalidAmount);
    }
    if before.balance < amount {
        return Err(LedgerError::InsufficientFunds);
    }
    if amount > i64::MAX as u64 {
        return Err(LedgerError::Overflow);
    }
    proof {
        assert(ledger@.account_consistent(user));
    }
    let after = TokenBalance {
        balance: before.balance - amount,
        last_updated: now,
        total_earned: before.total_earned,
        total_spent: before.total_spent + amount,
    };
    proof {
        lemma_spend_preserves_wf(
            ledger@,
            user,
            amount,
            description@,
            text_view(service_type),
            now,
        );
    }
    commit(ledger, user, after, -(amount as i64), description, service_type, now);
    Ok(after.balance)
}

/// Credits `amount` to `user` and records the credit.
///
/// Fails, changing nothing, with `NotFound` if `user` has no balance
/// record, else with `InvalidAmount` if `amount` is zero, else with
/// `Overflow` if `amount` is more than a transaction can hold or the
/// lifetime earnings would no longer fit their 64 bits. On success returns
/// the new balance.
pub fn earn_tokens(
    ledger: &mut Ledger,
    user: Principal,
    amount: u64,
    description: String,
    now: u64,
) -> (result: Result<u64, LedgerError>)
    ensures
        old(ledger)@.wf(),
        final(ledger)@.wf(),
        result == old(ledger)@.earn_outcome(user, amount),
        final(ledger)@ == old(ledger)@.after_earn(user, amount, description@, now),
{
    proof {
        use_type_invariant(&*ledger);
    }
    let before = match ledger.balances.get(user) {
        Some(balance) => *balance,
        None => {
            return Err(LedgerError::NotFound);
        },
    };
    if amount == 0 {
        return Err(LedgerError::InvalidAmount);
    }
    if amount > i64::MAX as u64 {
        return Err(LedgerError::Overflow);
    }
    let total_earned = match before.total_earned.checked_add(amount) {
        Some(total) => total,
        None => {
            return Err(LedgerError::Overflow);
        },
    };
    proof {
        assert(ledger@.account_consistent(user));
    }
    let after = TokenBalance {
        balance: before.balance + amount,
        last_updated: now,
        total_earned,
        total_spent: before.total_spent,
    };
    proof {
        lemma_earn_preserves_wf(ledger@, user, amount, description@, now);
    }
    commit(ledger, user, after, amount as i64, description, None, now);
    Ok(after.balance)
}

/// All transactions of `user`, oldest first; empty if `user` is unknown.
/// Their signed amounts sum to the balance of `user`.
pub fn get_transaction_history(ledger: &Ledger, user: Principal) -> (history: Vec<
    TokenTransaction,
>)
    ensures
        ledger@.wf(),
        transaction_views(history@) == ledger@.history(user),
        !ledger@.balances.contains_key(user) ==> history@.len() == 0,
        ledger@.balances.contains_key(user) ==> net_amount(transaction_views(history@))
            == ledger@.balances[user].balance,
{
    proof {
        use_type_invariant(ledger);
    }
    let mut history: Vec<TokenTransaction> = Vec::new();
    let mut i: usize = 0;
    proof {
        assert(transaction_views(ledger.transactions@).take(0) =~= Seq::<
            TransactionView,
        >::empty());
        lemma_filter_none(made_by(user));
        assert(transaction_views(history@) =~= Seq::<TransactionView>::empty());
    }
    while i < ledger.transactions.len()
        invariant
            i <= ledger.transactions.len(),
            transaction_views(history@) == history_of(
                transaction_views(ledger.transactions@).take(i as int),
                user,
            ),
        decreases ledger.transactions.len() - i,
    {
        let transaction = &ledger.transactions[i];
        proof {
            lemma_filter_next(transaction_views(ledger.transactions@), i as int, made_by(user));
        }
        if same_principal(&transaction.user, &user) {
            let ghost before = history@;
            history.push(transaction.clone());
            assert(transaction_views(history@) =~= transaction_views(before).push(
                transaction@,
            ));
        }
        i = i + 1;
    }
    proof {
        let log = transaction_views(ledger.transactions@);
        assert(log.take(i as int) =~= log);
        if !ledger@.balances.contains_key(user) {
            lemma_history_of_stranger(log, user);
        } else {
            law_history_replays_to_balance(ledger@, user);
        }
    }
    history
}

/// Credits the daily engagement reward to `user`.
pub fn reward_daily_engagement(ledger: &mut Ledger, user: Principal, now: u64) -> (result: Result<
    u64,
    LedgerError,
>)
    ensures
        old(ledger)@.wf(),
        final(ledger)@.wf(),
        result == old(ledger)@.earn_outcome(user, DAILY_ENGAGEMENT_REWARD),
        final(ledger)@ == old(ledger)@.after_earn(
            user,
            DAILY_ENGAGEMENT_REWARD,
            "Daily engagement reward"@,
            now,
        ),
{
    earn_tokens(ledger, user, DAILY_ENGAGEMENT_REWARD, "Daily engagement reward".to_owned(), now)
}

/// Credits the report submission reward to `user`.
pub fn reward_report_submission(ledger: &mut Ledger, user: Principal, now: u64) -> (result: Result<
    u64,
    LedgerError,
>)
    ensures
        old(ledger)@.wf(),
        final(ledger)@.wf(),
        result == old(ledger)@.earn_outcome(user, REPORT_SUBMISSION_REWARD),
        final(ledger)@ == old(ledger)@.after_earn(
            user,
            REPORT_SUBMISSION_REWARD,
            "Report submission reward"@,
            now,
        ),
{
    earn_tokens(ledger, user, REPORT_SUBMISSION_REWARD, "Report submission reward".to_owned(), now)
}

/// Credits the community post reward to `user`.
pub fn reward_community_post(ledger: &mut Ledger, user: Principal, now: u64) -> (result: Result<
    u64,
    LedgerError,
>)
    ensures
        old(ledger)@.wf(),
        final(ledger)@.wf(),
        result == old(ledger)@.earn_outcome(user, COMMUNITY_POST_REWARD),
        final(ledger)@ == old(ledger)@.after_earn(
            user,
            COMMUNITY_POST_REWARD,
            "Community post reward"@,
            now,
        ),
{
    earn_tokens(ledger, user, COMMUNITY_POST_REWARD, "Community post reward".to_owned(), now)
}

} // verus!
