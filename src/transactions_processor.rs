//! The dispute status machine, the records of the history, the event records
//! that come in, and the processor that decodes and applies them.
use vstd::prelude::*;

use crate::amount::Amount;
use crate::errors::{EngineError, TransactionHistoryError};
use crate::history::{history_wf, InMemoryTransactionStorage, TransactionHistoryStorage};
use crate::storage::{accounts_wf, AccountStorage, ClientId, InMemoryAccountsStorage};
use crate::transactions::{
    decode_spec, Accounts, ExecTransaction, Records, Step, Transaction, TransactionId,
};

verus! {

#[derive(Debug, PartialEq, Eq, Copy, Clone, Structural)]
pub enum TransactionStatus {
    WithoutDisputes,
    Resolved,
    Disputed,
    Chargebacked,
}

/// The edges of the dispute status machine.
pub open spec fn legal_transition(from: TransactionStatus, to: TransactionStatus) -> bool {
    ||| from == TransactionStatus::WithoutDisputes && to == TransactionStatus::Disputed
    ||| from == TransactionStatus::Disputed && to == TransactionStatus::Chargebacked
    ||| from == TransactionStatus::Disputed && to == TransactionStatus::Resolved
}

impl TransactionStatus {
    /// Whether the status machine has an edge from `self` to `new_status`.
    pub fn is_transition_available(self, new_status: &TransactionStatus) -> (r: bool)
        ensures
            r == legal_transition(self, *new_status),
    {
        match (self, new_status) {
            (TransactionStatus::WithoutDisputes, TransactionStatus::Disputed) => true,
            (TransactionStatus::Disputed, TransactionStatus::Chargebacked) => true,
            (TransactionStatus::Disputed, TransactionStatus::Resolved) => true,
            _ => false,
        }
    }

    /// The new status where the edge exists, else `InvalidStatusTransition`.
    pub fn make_transition(self, new_status: TransactionStatus) -> (r: Result<
        TransactionStatus,
        TransactionHistoryError,
    >)
        ensures
            legal_transition(self, new_status) ==> r == Ok::<
                TransactionStatus,
                TransactionHistoryError,
            >(new_status),
            !legal_transition(self, new_status) ==> r == Err::<
                TransactionStatus,
                TransactionHistoryError,
            >(TransactionHistoryError::InvalidStatusTransition),
    {
        if self.is_transition_available(&new_status) {
            Ok(new_status)
        } else {
            Err(TransactionHistoryError::InvalidStatusTransition)
        }
    }
}

#[derive(Copy, Clone, PartialEq, Eq, Debug, Structural)]
pub enum TransactionInfoType {
    Deposit,
    Withdrawal,
}

/// One event as read from the input: its kind tag, client, transaction and
/// amount, if any.
#[derive(Debug, PartialEq, Clone)]
pub struct TransactionLogEntry {
    pub transaction_type: String,
    pub client_id: ClientId,
    pub transaction_id: TransactionId,
    pub amount: Option<Amount>,
}

/// A deposit or withdrawal as kept in the history, with its dispute status.
#[derive(Debug, PartialEq, Eq, Clone, Copy, Structural)]
pub struct TransactionInfo {
    pub client_id: ClientId,
    pub transaction_id: TransactionId,
    pub transaction_type: TransactionInfoType,
    pub amount: Amount,
    pub status: TransactionStatus,
}

/// Decoding, then the decoded operation; a record that does not decode
/// changes nothing.
pub open spec fn process_spec(accounts: Accounts, history: Records, entry: TransactionLogEntry) -> Step {
    match decode_spec(entry) {
        Err(e) => (accounts, history, Err(EngineError::Log(e))),
        Ok(t) => t.effect(accounts, history),
    }
}

/// The amount of an event record, if any, is a valid decimal.
pub open spec fn entry_wf(entry: TransactionLogEntry) -> bool {
    entry.amount matches Some(a) ==> a.wf()
}

/// Takes event records one at a time, in order.
pub trait TransactionProcessor {
    /// The accounts, by client.
    spec fn accounts_state(&self) -> Accounts;

    /// The history records, by transaction id.
    spec fn history_state(&self) -> Records;

    fn process(&mut self, transaction_entry: TransactionLogEntry) -> (r: Result<(), EngineError>)
        requires
            accounts_wf(old(self).accounts_state()),
            history_wf(old(self).history_state()),
            entry_wf(transaction_entry),
        ensures
            (final(self).accounts_state(), final(self).history_state(), r) == process_spec(
                old(self).accounts_state(),
                old(self).history_state(),
                transaction_entry,
            ),
            accounts_wf(final(self).accounts_state()),
            history_wf(final(self).history_state()),
    ;
}

/// The engine with both stores in memory.
pub struct InMemoryTransactionProcessor {
    storage: InMemoryAccountsStorage,
    history: InMemoryTransactionStorage,
}

impl InMemoryTransactionProcessor {
    pub fn new() -> (r: Self)
        ensures
            r.accounts_state() == Map::<ClientId, crate::storage::UserAccount>::empty(),
            r.history_state() == Map::<TransactionId, TransactionInfo>::empty(),
    {
        Self { storage: InMemoryAccountsStorage::new(), history: InMemoryTransactionStorage::new() }
    }

    pub fn get_accounts_storage(&self) -> (r: &InMemoryAccountsStorage)
        ensures
            r.accounts_view() == self.accounts_state(),
    {
        &self.storage
    }

    pub fn get_history(&self) -> (r: &InMemoryTransactionStorage)
        ensures
            r.records_view() == self.history_state(),
    {
        &self.history
    }
}

impl Default for InMemoryTransactionProcessor {
    fn default() -> (r: Self)
        ensures
            r.accounts_state() == Map::<ClientId, crate::storage::UserAccount>::empty(),
            r.history_state() == Map::<TransactionId, TransactionInfo>::empty(),
    {
        Self::new()
    }
}

impl TransactionProcessor for InMemoryTransactionProcessor {
    closed spec fn accounts_state(&self) -> Accounts {
        self.storage.accounts_view()
    }

    closed spec fn history_state(&self) -> Records {
        self.history.records_view()
    }

    fn process(&mut self, transaction_entry: TransactionLogEntry) -> (r: Result<(), EngineError>) {
        let transaction = match Transaction::try_from(&transaction_entry) {
            Ok(transaction) => transaction,
            Err(e) => {
                return Err(EngineError::Log(e));
            },
        };
        transaction.execute(&mut self.storage, &mut self.history)
    }
}

} // verus!
