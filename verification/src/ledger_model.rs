//! The mathematical model of the token ledger.
//!
//! A ledger is a map from identities to balance records together with the
//! sequence of all transactions ever recorded. The operations are total
//! functions on this model: each says which result a call gives and which
//! ledger it leaves behind. The executable ledger is specified against them.

use crate::errors::LedgerError;
use crate::token_system::{TokenBalance, INITIAL_TOKEN_AMOUNT};
use candid::Principal;
use vstd::prelude::*;

verus! {

/// A recorded transaction, as a mathematical value.
pub struct TransactionView {
    pub id: nat,
    pub user: Principal,
    /// Positive for a credit, negative for a debit.
    pub amount: int,
    pub description: Seq<char>,
    pub timestamp: u64,
    pub service_type: Option<Seq<char>>,
}

/// The predicate "this transaction belongs to `user`".
pub open spec fn made_by(user: Principal) -> spec_fn(TransactionView) -> bool {
    |t: TransactionView| t.user == user
}

/// The transactions of `user` in `log`, oldest first.
pub open spec fn history_of(log: Seq<TransactionView>, user: Principal) -> Seq<TransactionView> {
    log.filter(made_by(user))
}

/// The sum of the signed amounts of `history`.
pub open spec fn net_amount(history: Seq<TransactionView>) -> int
    decreases history.len(),
{
    if history.len() == 0 {
        0
    } else {
        net_amount(history.drop_last()) + history.last().amount
    }
}

/// The sum of the credits in `history`.
pub open spec fn credits(history: Seq<TransactionView>) -> int
    decreases history.len(),
{
    if history.len() == 0 {
        0
    } else if history.last().amount > 0 {
        credits(history.drop_last()) + history.last().amount
    } else {
        credits(history.drop_last())
    }
}

/// The sum of the debits in `history`, as a non-negative number.
pub open spec fn debits(history: Seq<TransactionView>) -> int
    decreases history.len(),
{
    if history.len() == 0 {
        0
    } else if history.last().amount < 0 {
        debits(history.drop_last()) - history.last().amount
    } else {
        debits(history.drop_last())
    }
}

/// The balance record that a new identity starts with.
pub open spec fn initial_balance(now: u64) -> TokenBalance {
    TokenBalance {
        balance: INITIAL_TOKEN_AMOUNT,
        last_updated: now,
        total_earned: INITIAL_TOKEN_AMOUNT,
        total_spent: 0,
    }
}

/// Whether `transaction` records an initial grant.
pub open spec fn is_grant(transaction: TransactionView) -> bool {
    &&& transaction.amount == INITIAL_TOKEN_AMOUNT
    &&& transaction.description == "Initial token grant"@
    &&& transaction.service_type is None
}

/// Whether a transaction can hold `amount`, whose amounts are signed 64-bit
/// numbers.
pub open spec fn recordable(amount: u64) -> bool {
    amount <= i64::MAX
}

/// The log `log` after one more transaction, which gets the next free id.
pub open spec fn appended(
    log: Seq<TransactionView>,
    user: Principal,
    amount: int,
    description: Seq<char>,
    service_type: Option<Seq<char>>,
    now: u64,
) -> Seq<TransactionView> {
    log.push(
        TransactionView { id: log.len(), user, amount, description, timestamp: now, service_type },
    )
}

/// One mutating operation of the ledger, with its arguments.
pub enum LedgerOp {
    Initialize { user: Principal, now: u64 },
    Earn { user: Principal, amount: u64, description: Seq<char>, now: u64 },
    Spend {
        user: Principal,
        amount: u64,
        description: Seq<char>,
        service_type: Option<Seq<char>>,
        now: u64,
    },
}

impl LedgerOp {
    /// The identity that the operation is for.
    pub open spec fn user(self) -> Principal {
        match self {
            LedgerOp::Initialize { user, now } => user,
            LedgerOp::Earn { user, amount, description, now } => user,
            LedgerOp::Spend { user, amount, description, service_type, now } => user,
        }
    }
}

/// The state of a ledger: one balance record per known identity, and the
/// append-only transaction log.
#[verifier::ext_equal]
pub struct LedgerView {
    pub balances: Map<Principal, TokenBalance>,
    pub transactions: Seq<TransactionView>,
}

impl LedgerView {
    /// The ledger with no identities and no transactions.
    pub open spec fn empty() -> LedgerView {
        LedgerView { balances: Map::empty(), transactions: Seq::empty() }
    }

    /// The transactions of `user`, oldest first.
    pub open spec fn history(self, user: Principal) -> Seq<TransactionView> {
        history_of(self.transactions, user)
    }

    /// The balance record of `user` is what replaying the transactions of
    /// `user` gives: its lifetime earnings are their credits, its lifetime
    /// spending is their debits, its balance is the difference of the two,
    /// and it was last updated when the latest of them was recorded. The
    /// first of them is the initial grant.
    pub open spec fn account_consistent(self, user: Principal) -> bool {
        let record = self.balances[user];
        let history = self.history(user);
        &&& record.total_earned == credits(history)
        &&& record.total_spent == debits(history)
        &&& record.wf()
        &&& history.len() > 0
        &&& record.last_updated == history.last().timestamp
        &&& is_grant(history.first())
    }

    /// The ledger invariant: transaction ids are the positions in the log,
    /// only known identities have transactions, and every balance record
    /// agrees with the log.
    pub open spec fn wf(self) -> bool {
        &&& forall|i: int|
            0 <= i < self.transactions.len() ==> {
                &&& (#[trigger] self.transactions[i]).id == i
                &&& self.balances.contains_key(self.transactions[i].user)
            }
        &&& forall|user: Principal| #[trigger]
            self.balances.contains_key(user) ==> self.account_consistent(user)
    }

    /// The ledger after one change: `record` becomes the balance record of
    /// `user`, and the transaction that accounts for the change is appended
    /// to the log. No operation does one without the other.
    pub open spec fn committed(
        self,
        user: Principal,
        record: TokenBalance,
        amount: int,
        description: Seq<char>,
        service_type: Option<Seq<char>>,
        now: u64,
    ) -> LedgerView {
        LedgerView {
            balances: self.balances.insert(user, record),
            transactions: appended(
                self.transactions,
                user,
                amount,
                description,
                service_type,
                now,
            ),
        }
    }

    /// What initializing `user` returns.
    pub open spec fn initialize_outcome(self, user: Principal) -> Result<u64, LedgerError> {
        if self.balances.contains_key(user) {
            Err(LedgerError::AlreadyInitialized)
        } else {
            Ok(INITIAL_TOKEN_AMOUNT)
        }
    }

    /// The ledger after initializing `user` at time `now`.
    pub open spec fn after_initialize(self, user: Principal, now: u64) -> LedgerView {
        if self.initialize_outcome(user) is Ok {
            self.committed(
                user,
                initial_balance(now),
                INITIAL_TOKEN_AMOUNT as int,
                "Initial token grant"@,
                None,
                now,
            )
        } else {
            self
        }
    }

    /// What crediting `amount` to `user` returns: the new balance, or the
    /// reason for the refusal.
    pub open spec fn earn_outcome(self, user: Principal, amount: u64) -> Result<u64, LedgerError> {
        if !self.balances.contains_key(user) {
            Err(LedgerError::NotFound)
        } else if amount == 0 {
            Err(LedgerError::InvalidAmount)
        } else if !recordable(amount) || self.balances[user].total_earned + amount > u64::MAX {
            Err(LedgerError::Overflow)
        } else {
            Ok((self.balances[user].balance + amount) as u64)
        }
    }

    /// The ledger after crediting `amount` to `user` at time `now`.
    pub open spec fn after_earn(
        self,
        user: Principal,
        amount: u64,
        description: Seq<char>,
        now: u64,
    ) -> LedgerView {
        if self.earn_outcome(user, amount) is Ok {
            let before = self.balances[user];
            self.committed(
                user,
                TokenBalance {
                    balance: (before.balance + amount) as u64,
                    last_updated: now,
                    total_earned: (before.total_earned + amount) as u64,
                    total_spent: before.total_spent,
                },
                amount as int,
                description,
                None,
                now,
            )
        } else {
            self
        }
    }

    /// What debiting `amount` from `user` returns: the new balance, or the
    /// reason for the refusal.
    pub open spec fn spend_outcome(self, user: Principal, amount: u64) -> Result<u64, LedgerError> {
        if !self.balances.contains_key(user) {
            Err(LedgerError::NotFound)
        } else if amount == 0 {
            Err(LedgerError::InvalidAmount)
        } else if self.balances[user].balance < amount {
            Err(LedgerError::InsufficientFunds)
        } else if !recordable(amount) {
            Err(LedgerError::Overflow)
        } else {
            Ok((self.balances[user].balance - amount) as u64)
        }
    }

    /// The ledger after debiting `amount` from `user` at time `now`.
    pub open spec fn after_spend(
        self,
        user: Principal,
        amount: u64,
        description: Seq<char>,
        service_type: Option<Seq<char>>,
        now: u64,
    ) -> LedgerView {
        if self.spend_outcome(user, amount) is Ok {
            let before = self.balances[user];
            self.committed(
                user,
                TokenBalance {
                    balance: (before.balance - amount) as u64,
                    last_updated: now,
                    total_earned: before.total_earned,
                    total_spent: (before.total_spent + amount) as u64,
                },
                -(amount as int),
                description,
                service_type,
                now,
            )
        } else {
            self
        }
    }

    /// What `op` returns on this ledger.
    pub open spec fn outcome(self, op: LedgerOp) -> Result<u64, LedgerError> {
        match op {
            LedgerOp::Initialize { user, now } => self.initialize_outcome(user),
            LedgerOp::Earn { user, amount, description, now } => self.earn_outcome(user, amount),
            LedgerOp::Spend { user, amount, description, service_type, now } => self.spend_outcome(
                user,
                amount,
            ),
        }
    }

    /// The ledger after `op`.
    pub open spec fn apply(self, op: LedgerOp) -> LedgerView {
        match op {
            LedgerOp::Initialize { user, now } => self.after_initialize(user, now),
            LedgerOp::Earn { user, amount, description, now } => self.after_earn(
                user,
                amount,
                description,
                now,
            ),
            LedgerOp::Spend { user, amount, description, service_type, now } => self.after_spend(
                user,
                amount,
                description,
                service_type,
                now,
            ),
        }
    }

    /// The ledger after the operations `ops`, applied in order.
    pub open spec fn run(self, ops: Seq<LedgerOp>) -> LedgerView
        decreases ops.len(),
    {
        if ops.len() == 0 {
            self
        } else {
            self.run(ops.drop_last()).apply(ops.last())
        }
    }
}

} // verus!
