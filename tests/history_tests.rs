use payments_engine::amount::Amount;
use payments_engine::errors::{AccountError, EngineError, TransactionHistoryError};
use payments_engine::history::{InMemoryTransactionStorage, TransactionHistoryStorage};
use payments_engine::transactions_processor::{
    TransactionInfo, TransactionInfoType, TransactionStatus,
};

fn amount(m: i128, scale: u32) -> Amount {
    Amount::new(m, scale).unwrap()
}

#[test]
fn test_add_transaction_successful() {
    let mut storage = InMemoryTransactionStorage::new();
    let transaction_info = TransactionInfo {
        client_id: 1,
        transaction_id: 100,
        amount: amount(5000, 2),
        transaction_type: TransactionInfoType::Deposit,
        status: TransactionStatus::WithoutDisputes,
    };

    let result = storage.add_transaction(transaction_info.clone());

    assert!(result.is_ok());

    let stored_transaction = storage.find_transaction(100).unwrap();
    assert_eq!(stored_transaction.client_id, transaction_info.client_id);
    assert_eq!(stored_transaction.transaction_id, transaction_info.transaction_id);
    assert_eq!(stored_transaction.amount, transaction_info.amount);
    assert_eq!(stored_transaction.status, transaction_info.status);
}

#[test]
fn test_add_transaction_duplicate_id_error() {
    let mut storage = InMemoryTransactionStorage::new();
    let transaction_id = 100;

    let first_transaction = TransactionInfo {
        client_id: 1,
        transaction_id,
        amount: amount(5000, 2),
        transaction_type: TransactionInfoType::Deposit,
        status: TransactionStatus::WithoutDisputes,
    };

    let second_transaction = TransactionInfo {
        client_id: 2,
        transaction_id,
        amount: amount(7500, 2),
        transaction_type: TransactionInfoType::Deposit,
        status: TransactionStatus::Disputed,
    };

    let result1 = storage.add_transaction(first_transaction.clone());
    assert!(result1.is_ok());

    let result2 = storage.add_transaction(second_transaction);
    assert!(result2.is_err());

    assert_eq!(result2.unwrap_err(), TransactionHistoryError::TransactionAlreadyExists);

    let stored_transaction = storage.find_transaction(transaction_id).unwrap();
    assert_eq!(stored_transaction.client_id, first_transaction.client_id);
    assert_eq!(stored_transaction.amount, first_transaction.amount);
}

#[test]
fn update_status_follows_the_status_machine() {
    let mut storage = InMemoryTransactionStorage::new();
    let info = TransactionInfo {
        client_id: 3,
        transaction_id: 9,
        amount: amount(1, 0),
        transaction_type: TransactionInfoType::Withdrawal,
        status: TransactionStatus::WithoutDisputes,
    };
    storage.add_transaction(info).unwrap();

    assert_eq!(
        storage.update_transaction_status(9, TransactionStatus::Resolved),
        Err(TransactionHistoryError::InvalidStatusTransition)
    );
    assert_eq!(
        storage.update_transaction_status(10, TransactionStatus::Disputed),
        Err(TransactionHistoryError::UnknownTransaction)
    );
    assert_eq!(storage.update_transaction_status(9, TransactionStatus::Disputed), Ok(()));
    assert_eq!(storage.update_transaction_status(9, TransactionStatus::Chargebacked), Ok(()));
    assert_eq!(storage.find_transaction(9).unwrap().status, TransactionStatus::Chargebacked);
    assert_eq!(
        storage.update_transaction_status(9, TransactionStatus::Disputed),
        Err(TransactionHistoryError::InvalidStatusTransition)
    );
}

#[test]
fn status_transitions_table() {
    let all = [
        TransactionStatus::WithoutDisputes,
        TransactionStatus::Resolved,
        TransactionStatus::Disputed,
        TransactionStatus::Chargebacked,
    ];
    for from in all {
        for to in all {
            let valid = matches!(
                (from, to),
                (TransactionStatus::WithoutDisputes, TransactionStatus::Disputed)
                    | (TransactionStatus::Disputed, TransactionStatus::Chargebacked)
                    | (TransactionStatus::Disputed, TransactionStatus::Resolved)
            );
            assert_eq!(from.is_transition_available(&to), valid);
            let result = from.make_transition(to);
            if valid {
                assert_eq!(result, Ok(to));
            } else {
                assert_eq!(result, Err(TransactionHistoryError::InvalidStatusTransition));
            }
        }
    }
}

#[test]
fn error_messages_are_not_empty() {
    assert_eq!(TransactionHistoryError::UnknownTransaction.message(), "Unknown transaction ID");
    assert!(!TransactionHistoryError::InvalidStatusTransition.message().is_empty());
    assert_eq!(EngineError::Account(AccountError::AccountLocked).message(), "Account is locked");
}
