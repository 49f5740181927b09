//! The transaction history: one record per deposit or withdrawal, keyed by its
//! transaction id, whose status moves only along the dispute status machine.
use std::collections::HashMap;
use vstd::prelude::*;

use crate::errors::TransactionHistoryError;
use crate::transactions::TransactionId;
use crate::transactions_processor::{legal_transition, TransactionInfo, TransactionStatus};

verus! {

broadcast use vstd::std_specs::hash::group_hash_axioms;

/// Each record is keyed by its own transaction id and holds a valid amount.
pub open spec fn history_wf(h: Map<TransactionId, TransactionInfo>) -> bool {
    forall|tx: TransactionId| #[trigger]
        h.contains_key(tx) ==> h[tx].transaction_id == tx && h[tx].amount.wf()
}

pub open spec fn add_transaction_spec(
    h: Map<TransactionId, TransactionInfo>,
    info: TransactionInfo,
) -> (Map<TransactionId, TransactionInfo>, Result<(), TransactionHistoryError>) {
    if h.contains_key(info.transaction_id) {
        (h, Err(TransactionHistoryError::TransactionAlreadyExists))
    } else {
        (h.insert(info.transaction_id, info), Ok(()))
    }
}

pub open spec fn update_status_spec(
    h: Map<TransactionId, TransactionInfo>,
    tx: TransactionId,
    new_status: TransactionStatus,
) -> (Map<TransactionId, TransactionInfo>, Result<(), TransactionHistoryError>) {
    if !h.contains_key(tx) {
        (h, Err(TransactionHistoryError::UnknownTransaction))
    } else if !legal_transition(h[tx].status, new_status) {
        (h, Err(TransactionHistoryError::InvalidStatusTransition))
    } else {
        (h.insert(tx, TransactionInfo { status: new_status, ..h[tx] }), Ok(()))
    }
}

pub open spec fn find_spec(h: Map<TransactionId, TransactionInfo>, tx: TransactionId) -> Option<
    TransactionInfo,
> {
    if h.contains_key(tx) {
        Some(h[tx])
    } else {
        None
    }
}

/// The operations the engine performs on the history.
pub trait TransactionHistoryStorage {
    /// The records, by transaction id.
    spec fn records_view(&self) -> Map<TransactionId, TransactionInfo>;

    fn add_transaction(&mut self, transaction_info: TransactionInfo) -> (r: Result<
        (),
        TransactionHistoryError,
    >)
        requires
            history_wf(old(self).records_view()),
            transaction_info.amount.wf(),
        ensures
            (final(self).records_view(), r) == add_transaction_spec(
                old(self).records_view(),
                transaction_info,
            ),
            history_wf(final(self).records_view()),
    ;

    fn find_transaction(&self, transaction_id: TransactionId) -> (r: Option<TransactionInfo>)
        ensures
            r == find_spec(self.records_view(), transaction_id),
    ;

    fn update_transaction_status(
        &mut self,
        transaction_id: TransactionId,
        new_status: TransactionStatus,
    ) -> (r: Result<(), TransactionHistoryError>)
        requires
            history_wf(old(self).records_view()),
        ensures
            (final(self).records_view(), r) == update_status_spec(
                old(self).records_view(),
                transaction_id,
                new_status,
            ),
            history_wf(final(self).records_view()),
    ;
}

/// Records held in a hash map keyed by transaction id.
pub struct InMemoryTransactionStorage {
    storage: HashMap<TransactionId, TransactionInfo>,
}

impl Default for InMemoryTransactionStorage {
    fn default() -> (r: Self)
        ensures
            r.records_view() == Map::<TransactionId, TransactionInfo>::empty(),
    {
        Self::new()
    }
}

impl InMemoryTransactionStorage {
    pub fn new() -> (r: Self)
        ensures
            r.records_view() == Map::<TransactionId, TransactionInfo>::empty(),
    {
        Self { storage: HashMap::new() }
    }
}

impl TransactionHistoryStorage for InMemoryTransactionStorage {
    closed spec fn records_view(&self) -> Map<TransactionId, TransactionInfo> {
        self.storage@
    }

    fn add_transaction(&mut self, transaction_info: TransactionInfo) -> (r: Result<
        (),
        TransactionHistoryError,
    >) {
        if self.storage.contains_key(&transaction_info.transaction_id) {
            return Err(TransactionHistoryError::TransactionAlreadyExists);
        }
        self.storage.insert(transaction_info.transaction_id, transaction_info);
        Ok(())
    }

    fn find_transaction(&self, transaction_id: TransactionId) -> (r: Option<TransactionInfo>) {
        match self.storage.get(&transaction_id) {
            Some(info) => Some(*info),
            None => None,
        }
    }

    fn update_transaction_status(
        &mut self,
        transaction_id: TransactionId,
        new_status: TransactionStatus,
    ) -> (r: Result<(), TransactionHistoryError>) {
        match self.storage.get(&transaction_id) {
            None => Err(TransactionHistoryError::UnknownTransaction),
            Some(info) => {
                let info = *info;
                let status = info.status.make_transition(new_status)?;
                self.storage.insert(transaction_id, TransactionInfo { status, ..info });
                Ok(())
            },
        }
    }
}

} // verus!
