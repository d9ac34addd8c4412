//! The reasons for which the ledger rejects a call.

use vstd::prelude::*;

verus! {

/// Why a call was rejected. A rejected call changes nothing.
#[derive(Debug, Clone, Copy, PartialEq, Eq, Structural)]
pub enum LedgerError {
    /// `initialize` was called on a ledger that already holds a currency.
    AlreadyInitialized,
    /// The invocation does not carry the authorization of the identity that
    /// the operation acts for.
    Unauthorized,
    /// A transfer of zero or of a negative amount was asked for.
    InvalidAmount,
    /// The sender holds less than the amount to be transferred.
    InsufficientBalance,
}

impl LedgerError {
    /// The text that describes each error.
    pub open spec fn message_text(self) -> Seq<char> {
        match self {
            LedgerError::AlreadyInitialized => "Currency already initialized!"@,
            LedgerError::Unauthorized => "Unauthorized!"@,
            LedgerError::InvalidAmount => "Invalid amount!"@,
            LedgerError::InsufficientBalance => "Insufficient balance!"@,
        }
    }

    /// A human-readable description of the error.
    pub fn message(&self) -> (text: String)
        ensures
            text@ == self.message_text(),
    {
        match self {
            LedgerError::AlreadyInitialized => "Currency already initialized!".to_owned(),
            LedgerError::Unauthorized => "Unauthorized!".to_owned(),
            LedgerError::InvalidAmount => "Invalid amount!".to_owned(),
            LedgerError::InsufficientBalance => "Insufficient balance!".to_owned(),
        }
    }
}

} // verus!
