//! The failures of the account store, the engine, the decoder and the history.
use vstd::prelude::*;

verus! {

#[derive(Debug, Clone, Copy, PartialEq, Eq, Structural)]
pub enum AccountError {
    BalanceOverflow,
    InsufficientMoney,
    AccountLocked,
    AccountNotFound,
}

impl AccountError {
    /// The sentence that describes the failure.
    pub open spec fn message_spec(self) -> Seq<char> {
        match self {
            AccountError::BalanceOverflow => "Balance overflow happened"@,
            AccountError::InsufficientMoney => "Insufficient money"@,
            AccountError::AccountLocked => "Account is locked"@,
            AccountError::AccountNotFound => "Account not found"@,
        }
    }

    /// A sentence that describes the failure.
    pub fn message(&self) -> (r: &'static str)
        ensures
            r@ == self.message_spec(),
    {
        match self {
            AccountError::BalanceOverflow => "Balance overflow happened",
            AccountError::InsufficientMoney => "Insufficient money",
            AccountError::AccountLocked => "Account is locked",
            AccountError::AccountNotFound => "Account not found",
        }
    }
}

#[derive(Debug, Clone, Copy, PartialEq, Eq, Structural)]
pub enum TransactionError {
    NegativeAmount,
    OriginTransactionNotFound,
    TransactionNotDisputed,
    TransactionMultipleDispute,
    EmptyAmount,
}

impl TransactionError {
    /// The sentence that describes the failure.
    pub open spec fn message_spec(self) -> Seq<char> {
        match self {
            TransactionError::NegativeAmount => "Transaction provides negative amount"@,
            TransactionError::OriginTransactionNotFound => "Origin transaction not found"@,
            TransactionError::TransactionNotDisputed => "Transaction not disputed"@,
            TransactionError::TransactionMultipleDispute => "Multiple transaction dispute"@,
            TransactionError::EmptyAmount => "Transaction goes with empty amount but it shouldn't"@,
        }
    }

    /// A sentence that describes the failure.
    pub fn message(&self) -> (r: &'static str)
        ensures
            r@ == self.message_spec(),
    {
        match self {
            TransactionError::NegativeAmount => "Transaction provides negative amount",
            TransactionError::OriginTransactionNotFound => "Origin transaction not found",
            TransactionError::TransactionNotDisputed => "Transaction not disputed",
            TransactionError::TransactionMultipleDispute => "Multiple transaction dispute",
            TransactionError::EmptyAmount => "Transaction goes with empty amount but it shouldn't",
        }
    }
}

#[derive(Debug, Clone, Copy, PartialEq, Eq, Structural)]
pub enum TransactionLogError {
    InvalidTransactionType,
    MissingAmount,
}

impl TransactionLogError {
    /// The sentence that describes the failure.
    pub open spec fn message_spec(self) -> Seq<char> {
        match self {
            TransactionLogError::InvalidTransactionType => "Invalid transaction type in entry"@,
            TransactionLogError::MissingAmount => "Missing amount in entry"@,
        }
    }

    /// A sentence that describes the failure.
    pub fn message(&self) -> (r: &'static str)
        ensures
            r@ == self.message_spec(),
    {
        match self {
            TransactionLogError::InvalidTransactionType => "Invalid transaction type in entry",
            TransactionLogError::MissingAmount => "Missing amount in entry",
        }
    }
}

#[derive(Debug, Clone, Copy, PartialEq, Eq, Structural)]
pub enum TransactionHistoryError {
    TransactionAlreadyExists,
    UnknownTransaction,
    InvalidStatusTransition,
}

impl TransactionHistoryError {
    /// The sentence that describes the failure.
    pub open spec fn message_spec(self) -> Seq<char> {
        match self {
            TransactionHistoryError::TransactionAlreadyExists => "Trying to add transaction that already exists in history"@,
            TransactionHistoryError::UnknownTransaction => "Unknown transaction ID"@,
            TransactionHistoryError::InvalidStatusTransition => "Can't complete transaction status update"@,
        }
    }

    /// A sentence that describes the failure.
    pub fn message(&self) -> (r: &'static str)
        ensures
            r@ == self.message_spec(),
    {
        match self {
            TransactionHistoryError::TransactionAlreadyExists => "Trying to add transaction that already exists in history",
            TransactionHistoryError::UnknownTransaction => "Unknown transaction ID",
            TransactionHistoryError::InvalidStatusTransition => "Can't complete transaction status update",
        }
    }
}

/// Any failure of one event: the layer it comes from and its kind.
#[derive(Debug, Clone, Copy, PartialEq, Eq, Structural)]
pub enum EngineError {
    Account(AccountError),
    Transaction(TransactionError),
    Log(TransactionLogError),
    History(TransactionHistoryError),
}

impl EngineError {
    /// A sentence that describes the failure.
    pub fn message(&self) -> (r: &'static str)
        ensures
            r@ == (match self {
                EngineError::Account(e) => e.message_spec(),
                EngineError::Transaction(e) => e.message_spec(),
                EngineError::Log(e) => e.message_spec(),
                EngineError::History(e) => e.message_spec(),
            }),
    {
        match self {
            EngineError::Account(e) => e.message(),
            EngineError::Transaction(e) => e.message(),
            EngineError::Log(e) => e.message(),
            EngineError::History(e) => e.message(),
        }
    }
}

} // verus!
