//! The five operations of the engine, each a step from the accounts and the
//! history before an event to those after it, and the decoder of event records.
use vstd::prelude::*;

use crate::amount::Amount;
use crate::errors::{
    AccountError, EngineError, TransactionError, TransactionHistoryError, TransactionLogError,
};
use crate::history::{
    add_transaction_spec, find_spec, history_wf, update_status_spec, TransactionHistoryStorage,
};
use crate::storage::{
    accounts_wf, add_money_spec, block_account_spec, hold_money_spec, unhold_money_spec,
    withdraw_money_spec, AccountStorage, ClientId, UserAccount,
};
use crate::transactions_processor::{
    TransactionInfo, TransactionInfoType, TransactionLogEntry, TransactionStatus,
};

verus! {

pub type TransactionId = u64;

/// The accounts, by client.
pub type Accounts = Map<ClientId, UserAccount>;

/// The history records, by transaction id.
pub type Records = Map<TransactionId, TransactionInfo>;

/// The accounts and the history after an event, and what the event returned.
pub type Step = (Accounts, Records, Result<(), EngineError>);

pub const DEPOSIT_VALUE: &'static str = "deposit";

pub const WITHDRAWAL_VALUE: &'static str = "withdrawal";

pub const DISPUTE_VALUE: &'static str = "dispute";

pub const RESOLVE_VALUE: &'static str = "resolve";

pub const CHARGEBACK_VALUE: &'static str = "chargeback";

pub open spec fn from_account(r: Result<(), AccountError>) -> Result<(), EngineError> {
    match r {
        Ok(()) => Ok(()),
        Err(e) => Err(EngineError::Account(e)),
    }
}

pub open spec fn from_history(r: Result<(), TransactionHistoryError>) -> Result<(), EngineError> {
    match r {
        Ok(()) => Ok(()),
        Err(e) => Err(EngineError::History(e)),
    }
}

pub open spec fn refused(e: TransactionError) -> Result<(), EngineError> {
    Err(EngineError::Transaction(e))
}

/// A deposit or a withdrawal: the account change first, then the new record.
pub open spec fn record_effect(
    accounts: Accounts,
    history: Records,
    changed: (Accounts, Result<(), AccountError>),
    info: TransactionInfo,
) -> Step {
    if changed.1 is Err {
        (changed.0, history, from_account(changed.1))
    } else {
        let (h, r) = add_transaction_spec(history, info);
        (changed.0, h, from_history(r))
    }
}

/// What a dispute does to the accounts: a deposit's amount is held; a
/// withdrawal's amount is deposited again and then held.
pub open spec fn dispute_accounts_spec(
    accounts: Accounts,
    c: ClientId,
    kind: TransactionInfoType,
    a: Amount,
) -> (Accounts, Result<(), AccountError>) {
    match kind {
        TransactionInfoType::Deposit => hold_money_spec(accounts, c, a),
        TransactionInfoType::Withdrawal => {
            let (m, r) = add_money_spec(accounts, c, a);
            if r is Err {
                (m, r)
            } else {
                hold_money_spec(m, c, a)
            }
        },
    }
}

/// What a chargeback does to the accounts: release, withdraw, then lock.
pub open spec fn chargeback_accounts_spec(accounts: Accounts, c: ClientId, a: Amount) -> (
    Accounts,
    Result<(), AccountError>,
) {
    let (m1, r1) = unhold_money_spec(accounts, c, a);
    if r1 is Err {
        (m1, r1)
    } else {
        let (m2, r2) = withdraw_money_spec(m1, c, a);
        if r2 is Err {
            (m2, r2)
        } else {
            block_account_spec(m2, c)
        }
    }
}

/// An operation of the engine.
pub trait ExecTransaction {
    /// The operation carries a valid amount, where it carries one.
    spec fn wf(&self) -> bool;

    /// The accounts and history after the operation, and its result.
    spec fn effect(&self, accounts: Accounts, history: Records) -> Step;

    fn execute<A: AccountStorage, H: TransactionHistoryStorage>(
        &self,
        account_storage: &mut A,
        history: &mut H,
    ) -> (r: Result<(), EngineError>)
        requires
            self.wf(),
            accounts_wf(old(account_storage).accounts_view()),
            history_wf(old(history).records_view()),
        ensures
            (final(account_storage).accounts_view(), final(history).records_view(), r)
                == self.effect(old(account_storage).accounts_view(), old(history).records_view()),
            accounts_wf(final(account_storage).accounts_view()),
            history_wf(final(history).records_view()),
    ;
}

#[derive(Debug, PartialEq, Eq, Clone, Copy, Structural)]
pub struct Deposit {
    pub client_id: ClientId,
    pub transaction_id: TransactionId,
    pub amount: Amount,
}

impl Deposit {
    /// The record a successful deposit leaves in the history.
    pub open spec fn info(self) -> TransactionInfo {
        TransactionInfo {
            client_id: self.client_id,
            transaction_id: self.transaction_id,
            amount: self.amount,
            status: TransactionStatus::WithoutDisputes,
            transaction_type: TransactionInfoType::Deposit,
        }
    }
}

impl ExecTransaction for Deposit {
    open spec fn wf(&self) -> bool {
        self.amount.wf()
    }

    open spec fn effect(&self, accounts: Accounts, history: Records) -> Step {
        if self.amount.value() <= 0 {
            (accounts, history, refused(TransactionError::NegativeAmount))
        } else {
            record_effect(
                accounts,
                history,
                add_money_spec(accounts, self.client_id, self.amount),
                self.info(),
            )
        }
    }

    fn execute<A: AccountStorage, H: TransactionHistoryStorage>(
        &self,
        account_storage: &mut A,
        history: &mut H,
    ) -> (r: Result<(), EngineError>) {
        if !self.amount.is_positive() {
            return Err(EngineError::Transaction(TransactionError::NegativeAmount));
        }
        if let Err(e) = account_storage.add_money(self.client_id, self.amount) {
            return Err(EngineError::Account(e));
        }
        let transaction_info = TransactionInfo {
            client_id: self.client_id,
            transaction_id: self.transaction_id,
            amount: self.amount,
            status: TransactionStatus::WithoutDisputes,
            transaction_type: TransactionInfoType::Deposit,
        };
        match history.add_transaction(transaction_info) {
            Ok(()) => Ok(()),
            Err(e) => Err(EngineError::History(e)),
        }
    }
}

#[derive(Debug, PartialEq, Eq, Clone, Copy, Structural)]
pub struct Withdrawal {
    pub client_id: ClientId,
    pub transaction_id: TransactionId,
    pub amount: Amount,
}

impl Withdrawal {
    /// The record a successful withdrawal leaves in the history.
    pub open spec fn info(self) -> TransactionInfo {
        TransactionInfo {
            client_id: self.client_id,
            transaction_id: self.transaction_id,
            amount: self.amount,
            status: TransactionStatus::WithoutDisputes,
            transaction_type: TransactionInfoType::Withdrawal,
        }
    }
}

impl ExecTransaction for Withdrawal {
    open spec fn wf(&self) -> bool {
        self.amount.wf()
    }

    open spec fn effect(&self, accounts: Accounts, history: Records) -> Step {
        if self.amount.value() <= 0 {
            (accounts, history, refused(TransactionError::NegativeAmount))
        } else {
            record_effect(
                accounts,
                history,
                withdraw_money_spec(accounts, self.client_id, self.amount),
                self.info(),
            )
        }
    }

    fn execute<A: AccountStorage, H: TransactionHistoryStorage>(
        &self,
        account_storage: &mut A,
        history: &mut H,
    ) -> (r: Result<(), EngineError>) {
        if !self.amount.is_positive() {
            return Err(EngineError::Transaction(TransactionError::NegativeAmount));
        }
        if let Err(e) = account_storage.withdraw_money(self.client_id, self.amount) {
            return Err(EngineError::Account(e));
        }
        let transaction_info = TransactionInfo {
            client_id: self.client_id,
            transaction_id: self.transaction_id,
            amount: self.amount,
            status: TransactionStatus::WithoutDisputes,
            transaction_type: TransactionInfoType::Withdrawal,
        };
        match history.add_transaction(transaction_info) {
            Ok(()) => Ok(()),
            Err(e) => Err(EngineError::History(e)),
        }
    }
}

#[derive(Debug, PartialEq, Eq, Clone, Copy, Structural)]
pub struct Dispute {
    pub client_id: ClientId,
    pub transaction_id: TransactionId,
}

impl ExecTransaction for Dispute {
    open spec fn wf(&self) -> bool {
        true
    }

    open spec fn effect(&self, accounts: Accounts, history: Records) -> Step {
        match find_spec(history, self.transaction_id) {
            None => (accounts, history, refused(TransactionError::OriginTransactionNotFound)),
            Some(info) => if info.status != TransactionStatus::WithoutDisputes {
                (accounts, history, refused(TransactionError::TransactionMultipleDispute))
            } else if info.amount.value() <= 0 {
                (accounts, history, refused(TransactionError::NegativeAmount))
            } else {
                let (m, r) = dispute_accounts_spec(
                    accounts,
                    self.client_id,
                    info.transaction_type,
                    info.amount,
                );
                if r is Err {
                    (m, history, from_account(r))
                } else {
                    let (h, r2) = update_status_spec(
                        history,
                        self.transaction_id,
                        TransactionStatus::Disputed,
                    );
                    (m, h, from_history(r2))
                }
            },
        }
    }

    fn execute<A: AccountStorage, H: TransactionHistoryStorage>(
        &self,
        account_storage: &mut A,
        history: &mut H,
    ) -> (r: Result<(), EngineError>) {
        let transaction_info = match history.find_transaction(self.transaction_id) {
            Some(transaction) => transaction,
            None => {
                return Err(EngineError::Transaction(TransactionError::OriginTransactionNotFound));
            },
        };
        if transaction_info.status != TransactionStatus::WithoutDisputes {
            return Err(EngineError::Transaction(TransactionError::TransactionMultipleDispute));
        }
        if !transaction_info.amount.is_positive() {
            return Err(EngineError::Transaction(TransactionError::NegativeAmount));
        }
        match transaction_info.transaction_type {
            TransactionInfoType::Deposit => {
                if let Err(e) = account_storage.hold_money(self.client_id, transaction_info.amount) {
                    return Err(EngineError::Account(e));
                }
            },
            TransactionInfoType::Withdrawal => {
                if let Err(e) = account_storage.add_money(self.client_id, transaction_info.amount) {
                    return Err(EngineError::Account(e));
                }
                if let Err(e) = account_storage.hold_money(self.client_id, transaction_info.amount) {
                    return Err(EngineError::Account(e));
                }
            },
        }
        match history.update_transaction_status(self.transaction_id, TransactionStatus::Disputed) {
            Ok(()) => Ok(()),
            Err(e) => Err(EngineError::History(e)),
        }
    }
}

#[derive(Debug, PartialEq, Eq, Clone, Copy, Structural)]
pub struct Resolve {
    pub client_id: ClientId,
    pub transaction_id: TransactionId,
}

impl ExecTransaction for Resolve {
    open spec fn wf(&self) -> bool {
        true
    }

    open spec fn effect(&self, accounts: Accounts, history: Records) -> Step {
        match find_spec(history, self.transaction_id) {
            None => (accounts, history, refused(TransactionError::OriginTransactionNotFound)),
            Some(info) => if info.status != TransactionStatus::Disputed {
                (accounts, history, refused(TransactionError::TransactionNotDisputed))
            } else if info.amount.value() <= 0 {
                (accounts, history, refused(TransactionError::NegativeAmount))
            } else {
                let (h, r) = update_status_spec(
                    history,
                    self.transaction_id,
                    TransactionStatus::Resolved,
                );
                if r is Err {
                    (accounts, h, from_history(r))
                } else {
                    let (m, r2) = unhold_money_spec(accounts, self.client_id, info.amount);
                    (m, h, from_account(r2))
                }
            },
        }
    }

    fn execute<A: AccountStorage, H: TransactionHistoryStorage>(
        &self,
        account_storage: &mut A,
        history: &mut H,
    ) -> (r: Result<(), EngineError>) {
        let transaction_info = match history.find_transaction(self.transaction_id) {
            Some(transaction) => transaction,
            None => {
                return Err(EngineError::Transaction(TransactionError::OriginTransactionNotFound));
            },
        };
        if transaction_info.status != TransactionStatus::Disputed {
            return Err(EngineError::Transaction(TransactionError::TransactionNotDisputed));
        }
        if !transaction_info.amount.is_positive() {
            return Err(EngineError::Transaction(TransactionError::NegativeAmount));
        }
        if let Err(e) = history.update_transaction_status(
            self.transaction_id,
            TransactionStatus::Resolved,
        ) {
            return Err(EngineError::History(e));
        }
        match account_storage.unhold_money(self.client_id, transaction_info.amount) {
            Ok(()) => Ok(()),
            Err(e) => Err(EngineError::Account(e)),
        }
    }
}

#[derive(Debug, PartialEq, Eq, Clone, Copy, Structural)]
pub struct Chargeback {
    pub client_id: ClientId,
    pub transaction_id: TransactionId,
}

impl ExecTransaction for Chargeback {
    open spec fn wf(&self) -> bool {
        true
    }

    open spec fn effect(&self, accounts: Accounts, history: Records) -> Step {
        match find_spec(history, self.transaction_id) {
            None => (accounts, history, refused(TransactionError::OriginTransactionNotFound)),
            Some(info) => if info.status != TransactionStatus::Disputed {
                (accounts, history, refused(TransactionError::TransactionNotDisputed))
            } else if info.amount.value() <= 0 {
                (accounts, history, refused(TransactionError::NegativeAmount))
            } else {
                let (h, r) = update_status_spec(
                    history,
                    self.transaction_id,
                    TransactionStatus::Chargebacked,
                );
                if r is Err {
                    (accounts, h, from_history(r))
                } else {
                    let (m, r2) = chargeback_accounts_spec(accounts, self.client_id, info.amount);
                    (m, h, from_account(r2))
                }
            },
        }
    }

    fn execute<A: AccountStorage, H: TransactionHistoryStorage>(
        &self,
        account_storage: &mut A,
        history: &mut H,
    ) -> (r: Result<(), EngineError>) {
        let transaction_info = match history.find_transaction(self.transaction_id) {
            Some(transaction) => transaction,
            None => {
                return Err(EngineError::Transaction(TransactionError::OriginTransactionNotFound));
            },
        };
        if transaction_info.status != TransactionStatus::Disputed {
            return Err(EngineError::Transaction(TransactionError::TransactionNotDisputed));
        }
        if !transaction_info.amount.is_positive() {
            return Err(EngineError::Transaction(TransactionError::NegativeAmount));
        }
        if let Err(e) = history.update_transaction_status(
            self.transaction_id,
            TransactionStatus::Chargebacked,
        ) {
            return Err(EngineError::History(e));
        }
        if let Err(e) = account_storage.unhold_money(self.client_id, transaction_info.amount) {
            return Err(EngineError::Account(e));
        }
        if let Err(e) = account_storage.withdraw_money(self.client_id, transaction_info.amount) {
            return Err(EngineError::Account(e));
        }
        match account_storage.block_account(self.client_id) {
            Ok(()) => Ok(()),
            Err(e) => Err(EngineError::Account(e)),
        }
    }
}

/// A decoded event: one of the five operations with its own payload.
#[derive(Debug, PartialEq, Eq, Clone, Copy, Structural)]
pub enum Transaction {
    Deposit(Deposit),
    Withdrawal(Withdrawal),
    Dispute(Dispute),
    Resolve(Resolve),
    Chargeback(Chargeback),
}

impl ExecTransaction for Transaction {
    open spec fn wf(&self) -> bool {
        match self {
            Transaction::Deposit(t) => t.wf(),
            Transaction::Withdrawal(t) => t.wf(),
            Transaction::Dispute(t) => t.wf(),
            Transaction::Resolve(t) => t.wf(),
            Transaction::Chargeback(t) => t.wf(),
        }
    }

    open spec fn effect(&self, accounts: Accounts, history: Records) -> Step {
        match self {
            Transaction::Deposit(t) => t.effect(accounts, history),
            Transaction::Withdrawal(t) => t.effect(accounts, history),
            Transaction::Dispute(t) => t.effect(accounts, history),
            Transaction::Resolve(t) => t.effect(accounts, history),
            Transaction::Chargeback(t) => t.effect(accounts, history),
        }
    }

    fn execute<A: AccountStorage, H: TransactionHistoryStorage>(
        &self,
        account_storage: &mut A,
        history: &mut H,
    ) -> (r: Result<(), EngineError>) {
        match self {
            Transaction::Deposit(transaction) => transaction.execute(account_storage, history),
            Transaction::Withdrawal(transaction) => transaction.execute(account_storage, history),
            Transaction::Dispute(transaction) => transaction.execute(account_storage, history),
            Transaction::Resolve(transaction) => transaction.execute(account_storage, history),
            Transaction::Chargeback(transaction) => transaction.execute(account_storage, history),
        }
    }
}

/// The operation an event record names: its kind tag picks the operation, and
/// a deposit or withdrawal takes the record's amount, which it must have.
pub open spec fn decode_spec(entry: TransactionLogEntry) -> Result<Transaction, TransactionLogError> {
    let tag = entry.transaction_type@;
    let c = entry.client_id;
    let tx = entry.transaction_id;
    if tag == DEPOSIT_VALUE@ {
        match entry.amount {
            None => Err(TransactionLogError::MissingAmount),
            Some(a) => Ok(
                Transaction::Deposit(Deposit { client_id: c, transaction_id: tx, amount: a }),
            ),
        }
    } else if tag == WITHDRAWAL_VALUE@ {
        match entry.amount {
            None => Err(TransactionLogError::MissingAmount),
            Some(a) => Ok(
                Transaction::Withdrawal(Withdrawal { client_id: c, transaction_id: tx, amount: a }),
            ),
        }
    } else if tag == DISPUTE_VALUE@ {
        Ok(Transaction::Dispute(Dispute { client_id: c, transaction_id: tx }))
    } else if tag == RESOLVE_VALUE@ {
        Ok(Transaction::Resolve(Resolve { client_id: c, transaction_id: tx }))
    } else if tag == CHARGEBACK_VALUE@ {
        Ok(Transaction::Chargeback(Chargeback { client_id: c, transaction_id: tx }))
    } else {
        Err(TransactionLogError::InvalidTransactionType)
    }
}

/// The accounts and history after the events, applied in order.
pub open spec fn run(accounts: Accounts, history: Records, events: Seq<Transaction>) -> (
    Accounts,
    Records,
)
    decreases events.len(),
{
    if events.len() == 0 {
        (accounts, history)
    } else {
        let (m, h) = run(accounts, history, events.drop_last());
        let s = events.last().effect(m, h);
        (s.0, s.1)
    }
}

impl Transaction {
    /// Decodes an event record; an unknown kind tag gives
    /// `InvalidTransactionType`, a deposit or withdrawal without an amount
    /// gives `MissingAmount`.
    pub fn try_from(value: &TransactionLogEntry) -> (r: Result<Transaction, TransactionLogError>)
        ensures
            r == decode_spec(*value),
    {
        let client_id = value.client_id;
        let transaction_id = value.transaction_id;
        let tag = &value.transaction_type;
        if *tag == DEPOSIT_VALUE.to_owned() {
            match value.amount {
                Some(amount) => Ok(Transaction::Deposit(Deposit { client_id, transaction_id, amount })),
                None => Err(TransactionLogError::MissingAmount),
            }
        } else if *tag == WITHDRAWAL_VALUE.to_owned() {
            match value.amount {
                Some(amount) => Ok(
                    Transaction::Withdrawal(Withdrawal { client_id, transaction_id, amount }),
                ),
                None => Err(TransactionLogError::MissingAmount),
            }
        } else if *tag == DISPUTE_VALUE.to_owned() {
            Ok(Transaction::Dispute(Dispute { client_id, transaction_id }))
        } else if *tag == RESOLVE_VALUE.to_owned() {
            Ok(Transaction::Resolve(Resolve { client_id, transaction_id }))
        } else if *tag == CHARGEBACK_VALUE.to_owned() {
            Ok(Transaction::Chargeback(Chargeback { client_id, transaction_id }))
        } else {
            Err(TransactionLogError::InvalidTransactionType)
        }
    }
}

} // verus!
