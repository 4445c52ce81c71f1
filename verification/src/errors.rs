//! Error kinds shared by the ledger and the domain actions.

use vstd::prelude::*;

verus! {

/// Why a ledger operation was refused. A refused operation changes nothing.
#[derive(Clone, Copy, Debug, PartialEq, Eq, Structural)]
pub enum LedgerError {
    /// The identity has no balance record.
    NotFound,
    /// The identity already has a balance record.
    AlreadyInitialized,
    /// A spend asked for more than the current balance.
    InsufficientFunds,
    /// The identity has a balance record, but the amount is zero.
    InvalidAmount,
    /// The amount is more than a transaction can hold, or the credit would
    /// take the lifetime earnings past what their 64 bits hold.
    Overflow,
}

impl LedgerError {
    /// The text of [`LedgerError::message`].
    pub open spec fn message_text(self) -> Seq<char> {
        match self {
            LedgerError::NotFound => "User not found"@,
            LedgerError::AlreadyInitialized => "User already initialized"@,
            LedgerError::InsufficientFunds => "Insufficient tokens"@,
            LedgerError::InvalidAmount => "Amount must be positive"@,
            LedgerError::Overflow => "Token amount out of range"@,
        }
    }

    /// A human-readable description of the error.
    pub fn message(&self) -> (text: String)
        ensures
            text@ == self.message_text(),
    {
        match self {
            LedgerError::NotFound => "User not found".to_owned(),
            LedgerError::AlreadyInitialized => "User already initialized".to_owned(),
            LedgerError::InsufficientFunds => "Insufficient tokens".to_owned(),
            LedgerError::InvalidAmount => "Amount must be positive".to_owned(),
            LedgerError::Overflow => "Token amount out of range".to_owned(),
        }
    }
}

/// Why a domain action was refused before it changed anything.
#[derive(Clone, Copy, Debug, PartialEq, Eq, Structural)]
pub enum ActionError {
    /// A report was submitted with an empty description.
    EmptyDescription,
    /// The caller is already registered as a user.
    AlreadyRegistered,
    /// A provider with the same name is already registered.
    DuplicateProviderName,
}

impl ActionError {
    /// The text of [`ActionError::message`].
    pub open spec fn message_text(self) -> Seq<char> {
        match self {
            ActionError::EmptyDescription => "Description must not be empty"@,
            ActionError::AlreadyRegistered => "User already registered"@,
            ActionError::DuplicateProviderName => "Provider with this name already exists"@,
        }
    }

    /// A human-readable description of the error.
    pub fn message(&self) -> (text: String)
        ensures
            text@ == self.message_text(),
    {
        match self {
            ActionError::EmptyDescription => "Description must not be empty".to_owned(),
            ActionError::AlreadyRegistered => "User already registered".to_owned(),
            ActionError::DuplicateProviderName => {
                "Provider with this name already exists".to_owned()
            },
        }
    }
}

} // verus!
