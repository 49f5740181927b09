use payments_engine::amount::Amount;
use payments_engine::errors::{AccountError, EngineError, TransactionError};
use payments_engine::history::{InMemoryTransactionStorage, TransactionHistoryStorage};
use payments_engine::storage::{AccountStorage, InMemoryAccountsStorage};
use payments_engine::transactions::{
    Chargeback, Deposit, Dispute, ExecTransaction, Resolve, Withdrawal,
};
use payments_engine::transactions_processor::{
    TransactionInfo, TransactionInfoType, TransactionStatus,
};
use rust_decimal::Decimal;

fn amount(d: Decimal) -> Amount {
    Amount::new(d.mantissa(), d.scale()).unwrap()
}

fn dec(m: i64, scale: u32) -> Decimal {
    Decimal::new(m, scale)
}

fn value(a: Amount) -> Decimal {
    Decimal::from_i128_with_scale(a.mantissa(), a.scale())
}

fn balance(storage: &InMemoryAccountsStorage, user_id: u16) -> Option<Decimal> {
    storage.get_balance(user_id).map(value)
}

fn create_transaction_in_history(
    history: &mut InMemoryTransactionStorage,
    transaction_id: u64,
    client_id: u16,
    amount_in: Decimal,
    transaction_type: TransactionInfoType,
    status: TransactionStatus,
) {
    let transaction_info = TransactionInfo {
        client_id,
        transaction_id,
        amount: amount(amount_in),
        status,
        transaction_type,
    };
    history.add_transaction(transaction_info).unwrap();
}

fn account_error(e: AccountError) -> Result<(), EngineError> {
    Err(EngineError::Account(e))
}

fn transaction_error(e: TransactionError) -> Result<(), EngineError> {
    Err(EngineError::Transaction(e))
}

#[test]
fn test_deposit_execute_successful() {
    let mut account_storage = InMemoryAccountsStorage::new();
    let mut history = InMemoryTransactionStorage::new();
    let client_id = 1;
    let transaction_id = 100;
    let amount_in = dec(5000, 2);
    let deposit = Deposit { client_id, transaction_id, amount: amount(amount_in) };

    assert_eq!(balance(&account_storage, client_id), None);
    assert!(history.find_transaction(transaction_id).is_none());

    let result = deposit.execute(&mut account_storage, &mut history);

    assert!(result.is_ok());
    assert_eq!(balance(&account_storage, client_id), Some(amount_in));

    let transaction_info = history.find_transaction(transaction_id).unwrap();
    assert_eq!(transaction_info.client_id, client_id);
    assert_eq!(transaction_info.transaction_id, transaction_id);
    assert_eq!(value(transaction_info.amount), amount_in);
    assert_eq!(transaction_info.status, TransactionStatus::WithoutDisputes);
    assert_eq!(transaction_info.transaction_type, TransactionInfoType::Deposit);
}

#[test]
fn test_deposit_negative_amount_error() {
    let mut storage = InMemoryAccountsStorage::new();
    let mut history = InMemoryTransactionStorage::new();
    let client_id = 1;
    let transaction_id = 100;

    storage.create_user(client_id);
    let deposit = Deposit { client_id, transaction_id, amount: amount(dec(-500, 1)) };

    let result = deposit.execute(&mut storage, &mut history);

    assert!(result.is_err());
    assert_eq!(result, transaction_error(TransactionError::NegativeAmount));

    let account = storage.accounts.get(&client_id).unwrap();
    assert_eq!(value(account.available_balance()), dec(0, 0));
    assert!(history.find_transaction(transaction_id).is_none());
}

#[test]
fn test_deposit_execute_locked_account() {
    let mut account_storage = InMemoryAccountsStorage::new();
    let mut history = InMemoryTransactionStorage::new();
    let client_id = 1;

    account_storage.add_money(client_id, amount(dec(10000, 2))).unwrap();
    account_storage.block_account(client_id).unwrap();

    let deposit = Deposit { client_id, transaction_id: 100, amount: amount(dec(5000, 2)) };

    let result = deposit.execute(&mut account_storage, &mut history);

    assert!(result.is_err());
    assert_eq!(result, account_error(AccountError::AccountLocked));
    assert!(history.find_transaction(100).is_none());
}

#[test]
fn test_withdrawal_execute_successful() {
    let mut account_storage = InMemoryAccountsStorage::new();
    let mut history = InMemoryTransactionStorage::new();
    let client_id = 1;
    let transaction_id = 100;
    let initial_amount = dec(10000, 2);
    let withdrawal_amount = dec(3000, 2);
    let expected_balance = dec(7000, 2);

    account_storage.add_money(client_id, amount(initial_amount)).unwrap();

    let withdrawal = Withdrawal { client_id, transaction_id, amount: amount(withdrawal_amount) };

    assert_eq!(balance(&account_storage, client_id), Some(initial_amount));
    assert!(history.find_transaction(transaction_id).is_none());

    let result = withdrawal.execute(&mut account_storage, &mut history);

    assert!(result.is_ok());
    assert_eq!(balance(&account_storage, client_id), Some(expected_balance));

    let transaction_info = history.find_transaction(transaction_id).unwrap();
    assert_eq!(transaction_info.client_id, client_id);
    assert_eq!(transaction_info.transaction_id, transaction_id);
    assert_eq!(value(transaction_info.amount), withdrawal_amount);
    assert_eq!(transaction_info.status, TransactionStatus::WithoutDisputes);
    assert_eq!(transaction_info.transaction_type, TransactionInfoType::Withdrawal);
}

#[test]
fn test_withdrawal_negative_amount_error() {
    let mut storage = InMemoryAccountsStorage::new();
    let mut history = InMemoryTransactionStorage::new();
    let client_id = 1;
    let transaction_id = 100;

    storage.create_user(client_id);
    storage.add_money(client_id, amount(dec(1000, 1))).unwrap();

    let withdrawal = Withdrawal { client_id, transaction_id, amount: amount(dec(-300, 1)) };

    let result = withdrawal.execute(&mut storage, &mut history);

    assert!(result.is_err());
    assert_eq!(result, transaction_error(TransactionError::NegativeAmount));

    let account = storage.accounts.get(&client_id).unwrap();
    assert_eq!(value(account.available_balance()), dec(1000, 1));
    assert!(history.find_transaction(transaction_id).is_none());
}

#[test]
fn test_withdrawal_execute_insufficient_funds() {
    let mut account_storage = InMemoryAccountsStorage::new();
    let mut history = InMemoryTransactionStorage::new();
    let client_id = 1;
    let transaction_id = 100;
    let initial_amount = dec(5000, 2);

    account_storage.add_money(client_id, amount(initial_amount)).unwrap();

    let withdrawal = Withdrawal { client_id, transaction_id, amount: amount(dec(10000, 2)) };

    let result = withdrawal.execute(&mut account_storage, &mut history);

    assert!(result.is_err());
    assert_eq!(result, account_error(AccountError::InsufficientMoney));
    assert_eq!(balance(&account_storage, client_id), Some(initial_amount));
    assert!(history.find_transaction(transaction_id).is_none());
}

#[test]
fn test_withdrawal_execute_nonexistent_account() {
    let mut account_storage = InMemoryAccountsStorage::new();
    let mut history = InMemoryTransactionStorage::new();
    let client_id = 999;
    let transaction_id = 100;

    let withdrawal = Withdrawal { client_id, transaction_id, amount: amount(dec(5000, 2)) };

    let result = withdrawal.execute(&mut account_storage, &mut history);

    assert!(result.is_err());
    assert_eq!(result, account_error(AccountError::AccountNotFound));
    assert!(history.find_transaction(transaction_id).is_none());
}

#[test]
fn test_withdrawal_execute_locked_account() {
    let mut account_storage = InMemoryAccountsStorage::new();
    let mut history = InMemoryTransactionStorage::new();
    let client_id = 1;
    let transaction_id = 100;

    account_storage.add_money(client_id, amount(dec(10000, 2))).unwrap();
    account_storage.block_account(client_id).unwrap();

    let withdrawal = Withdrawal { client_id, transaction_id, amount: amount(dec(5000, 2)) };

    let result = withdrawal.execute(&mut account_storage, &mut history);

    assert!(result.is_err());
    assert_eq!(result, account_error(AccountError::AccountLocked));
    assert!(history.find_transaction(transaction_id).is_none());
}

#[test]
fn test_dispute_execute_deposit_successful() {
    let mut account_storage = InMemoryAccountsStorage::new();
    let mut history = InMemoryTransactionStorage::new();
    let client_id = 1;
    let transaction_id = 100;
    let amount_in = dec(5000, 2);

    account_storage.add_money(client_id, amount(amount_in)).unwrap();
    create_transaction_in_history(
        &mut history,
        transaction_id,
        client_id,
        amount_in,
        TransactionInfoType::Deposit,
        TransactionStatus::WithoutDisputes,
    );

    let dispute = Dispute { client_id, transaction_id };

    assert_eq!(balance(&account_storage, client_id), Some(amount_in));
    let initial_transaction = history.find_transaction(transaction_id).unwrap();
    assert_eq!(initial_transaction.status, TransactionStatus::WithoutDisputes);

    let result = dispute.execute(&mut account_storage, &mut history);

    assert!(result.is_ok());

    let account = account_storage.accounts.get(&client_id).unwrap();
    assert_eq!(value(account.available_balance()), Decimal::ZERO);
    assert_eq!(value(account.held_balance()), amount_in);
    assert_eq!(value(account.total_balance()), amount_in);

    let updated_transaction = history.find_transaction(transaction_id).unwrap();
    assert_eq!(updated_transaction.status, TransactionStatus::Disputed);
}

#[test]
fn test_dispute_execute_withdrawal_successful() {
    let mut account_storage = InMemoryAccountsStorage::new();
    let mut history = InMemoryTransactionStorage::new();
    let client_id = 1;
    let transaction_id = 100;
    let withdrawal_amount = dec(3000, 2);
    let initial_balance = dec(7000, 2);

    account_storage.add_money(client_id, amount(initial_balance)).unwrap();
    create_transaction_in_history(
        &mut history,
        transaction_id,
        client_id,
        withdrawal_amount,
        TransactionInfoType::Withdrawal,
        TransactionStatus::WithoutDisputes,
    );

    let dispute = Dispute { client_id, transaction_id };

    assert_eq!(balance(&account_storage, client_id), Some(initial_balance));

    let result = dispute.execute(&mut account_storage, &mut history);

    assert!(result.is_ok());

    let account = account_storage.accounts.get(&client_id).unwrap();
    assert_eq!(value(account.available_balance()), initial_balance);
    assert_eq!(value(account.held_balance()), withdrawal_amount);
    assert_eq!(value(account.total_balance()), initial_balance + withdrawal_amount);

    let updated_transaction = history.find_transaction(transaction_id).unwrap();
    assert_eq!(updated_transaction.status, TransactionStatus::Disputed);
}

#[test]
fn test_dispute_execute_transaction_not_found() {
    let mut account_storage = InMemoryAccountsStorage::new();
    let mut history = InMemoryTransactionStorage::new();

    let dispute = Dispute { client_id: 1, transaction_id: 999 };

    let result = dispute.execute(&mut account_storage, &mut history);

    assert!(result.is_err());
    assert_eq!(result, transaction_error(TransactionError::OriginTransactionNotFound));
}

fn dispute_already_disputed(existing_status: TransactionStatus) {
    let mut account_storage = InMemoryAccountsStorage::new();
    let mut history = InMemoryTransactionStorage::new();
    let client_id = 1;
    let transaction_id = 100;

    create_transaction_in_history(
        &mut history,
        transaction_id,
        client_id,
        dec(5000, 2),
        TransactionInfoType::Deposit,
        existing_status,
    );

    let dispute = Dispute { client_id, transaction_id };
    let result = dispute.execute(&mut account_storage, &mut history);

    assert!(result.is_err());
    assert_eq!(result, transaction_error(TransactionError::TransactionMultipleDispute));
    let transaction_info = history.find_transaction(transaction_id).unwrap();
    assert_eq!(transaction_info.status, existing_status);
}

#[test]
fn dispute_of_disputed_transaction_refused() {
    dispute_already_disputed(TransactionStatus::Disputed);
}

#[test]
fn dispute_of_resolved_transaction_refused() {
    dispute_already_disputed(TransactionStatus::Resolved);
}

#[test]
fn dispute_of_chargebacked_transaction_refused() {
    dispute_already_disputed(TransactionStatus::Chargebacked);
}

#[test]
fn test_dispute_execute_deposit_insufficient_funds_to_hold() {
    let mut account_storage = InMemoryAccountsStorage::new();
    let mut history = InMemoryTransactionStorage::new();
    let client_id = 1;
    let transaction_id = 100;

    account_storage.add_money(client_id, amount(dec(5000, 2))).unwrap();
    create_transaction_in_history(
        &mut history,
        transaction_id,
        client_id,
        dec(10000, 2),
        TransactionInfoType::Deposit,
        TransactionStatus::WithoutDisputes,
    );

    let dispute = Dispute { client_id, transaction_id };
    let result = dispute.execute(&mut account_storage, &mut history);

    assert!(result.is_err());
    assert_eq!(result, account_error(AccountError::InsufficientMoney));

    let transaction_info = history.find_transaction(transaction_id).unwrap();
    assert_eq!(transaction_info.status, TransactionStatus::WithoutDisputes);
}

#[test]
fn test_dispute_execute_locked_account() {
    let mut account_storage = InMemoryAccountsStorage::new();
    let mut history = InMemoryTransactionStorage::new();
    let client_id = 1;
    let transaction_id = 100;
    let amount_in = dec(5000, 2);

    account_storage.add_money(client_id, amount(amount_in)).unwrap();
    account_storage.block_account(client_id).unwrap();
    create_transaction_in_history(
        &mut history,
        transaction_id,
        client_id,
        amount_in,
        TransactionInfoType::Deposit,
        TransactionStatus::WithoutDisputes,
    );

    let dispute = Dispute { client_id, transaction_id };
    let result = dispute.execute(&mut account_storage, &mut history);

    assert!(result.is_err());
    assert_eq!(result, account_error(AccountError::AccountLocked));
}

#[test]
fn test_resolve_successful_for_disputed_deposit() {
    let mut storage = InMemoryAccountsStorage::new();
    let mut history = InMemoryTransactionStorage::new();
    let client_id = 1;
    let transaction_id = 100_u64;
    let amount_in = dec(500, 1);

    storage.create_user(client_id);
    storage.add_money(client_id, amount(amount_in)).unwrap();
    storage.hold_money(client_id, amount(amount_in)).unwrap();
    create_transaction_in_history(
        &mut history,
        transaction_id,
        client_id,
        amount_in,
        TransactionInfoType::Deposit,
        TransactionStatus::Disputed,
    );

    let resolve = Resolve { client_id, transaction_id };
    let result = resolve.execute(&mut storage, &mut history);
    assert!(result.is_ok());

    let transaction_info = history.find_transaction(transaction_id).unwrap();
    assert_eq!(transaction_info.status, TransactionStatus::Resolved);

    let account = storage.accounts.get(&client_id).unwrap();
    assert_eq!(value(account.available_balance()), amount_in);
    assert_eq!(value(account.held_balance()), dec(0, 0));
}

#[test]
fn test_resolve_successful_for_disputed_withdrawal() {
    let mut storage = InMemoryAccountsStorage::new();
    let mut history = InMemoryTransactionStorage::new();
    let client_id = 1;
    let transaction_id = 100_u64;
    let amount_in = dec(300, 1);

    storage.create_user(client_id);
    storage.add_money(client_id, amount(amount_in * dec(2, 0))).unwrap();
    storage.hold_money(client_id, amount(amount_in)).unwrap();
    create_transaction_in_history(
        &mut history,
        transaction_id,
        client_id,
        amount_in,
        TransactionInfoType::Withdrawal,
        TransactionStatus::Disputed,
    );

    let resolve = Resolve { client_id, transaction_id };
    let result = resolve.execute(&mut storage, &mut history);
    assert!(result.is_ok());

    let transaction_info = history.find_transaction(transaction_id).unwrap();
    assert_eq!(transaction_info.status, TransactionStatus::Resolved);

    let account = storage.accounts.get(&client_id).unwrap();
    assert_eq!(value(account.held_balance()), dec(0, 0));
    assert_eq!(value(account.available_balance()), amount_in * dec(2, 0));
}

#[test]
fn test_resolve_transaction_not_found() {
    let mut storage = InMemoryAccountsStorage::new();
    let mut history = InMemoryTransactionStorage::new();
    let client_id = 1;

    storage.create_user(client_id);
    let resolve = Resolve { client_id, transaction_id: 999 };
    let result = resolve.execute(&mut storage, &mut history);

    assert!(result.is_err());
    assert_eq!(result, transaction_error(TransactionError::OriginTransactionNotFound));
}

fn resolve_with_status(status: TransactionStatus, amount_in: Decimal) -> Result<(), EngineError> {
    let mut storage = InMemoryAccountsStorage::new();
    let mut history = InMemoryTransactionStorage::new();
    let client_id = 1;
    let transaction_id = 100;

    storage.create_user(client_id);
    let transaction_info = TransactionInfo {
        client_id,
        transaction_id,
        amount: amount(amount_in),
        status,
        transaction_type: TransactionInfoType::Deposit,
    };
    history.add_transaction(transaction_info).unwrap();

    let resolve = Resolve { client_id, transaction_id };
    resolve.execute(&mut storage, &mut history)
}

#[test]
fn test_resolve_transaction_not_disputed() {
    let result = resolve_with_status(TransactionStatus::WithoutDisputes, dec(250, 1));
    assert!(result.is_err());
    assert_eq!(result, transaction_error(TransactionError::TransactionNotDisputed));
}

#[test]
fn test_resolve_transaction_already_resolved() {
    let result = resolve_with_status(TransactionStatus::Resolved, dec(400, 1));
    assert!(result.is_err());
    assert_eq!(result, transaction_error(TransactionError::TransactionNotDisputed));
}

#[test]
fn test_resolve_transaction_chargebacked() {
    let result = resolve_with_status(TransactionStatus::Chargebacked, dec(600, 1));
    assert!(result.is_err());
    assert_eq!(result, transaction_error(TransactionError::TransactionNotDisputed));
}

#[test]
fn test_resolve_unhold_money_error_propagation() {
    let mut storage = InMemoryAccountsStorage::new();
    let mut history = InMemoryTransactionStorage::new();
    let client_id = 1;
    let transaction_id = 100;

    storage.create_user(client_id);
    create_transaction_in_history(
        &mut history,
        transaction_id,
        client_id,
        dec(1000, 1),
        TransactionInfoType::Deposit,
        TransactionStatus::Disputed,
    );

    let resolve = Resolve { client_id, transaction_id };
    let result = resolve.execute(&mut storage, &mut history);

    assert!(result.is_err());
    assert_eq!(result, account_error(AccountError::InsufficientMoney));
}

#[test]
fn test_chargeback_successful_for_disputed_deposit() {
    let mut storage = InMemoryAccountsStorage::new();
    let mut history = InMemoryTransactionStorage::new();
    let client_id = 1;
    let transaction_id = 100;
    let amount_in = dec(500, 1);

    storage.create_user(client_id);
    storage.add_money(client_id, amount(amount_in * dec(2, 0))).unwrap();
    storage.hold_money(client_id, amount(amount_in)).unwrap();
    create_transaction_in_history(
        &mut history,
        transaction_id,
        client_id,
        amount_in,
        TransactionInfoType::Deposit,
        TransactionStatus::Disputed,
    );

    let chargeback = Chargeback { client_id, transaction_id };
    let result = chargeback.execute(&mut storage, &mut history);
    assert!(result.is_ok());

    let transaction_info = history.find_transaction(transaction_id).unwrap();
    assert_eq!(transaction_info.status, TransactionStatus::Chargebacked);

    let account = storage.accounts.get(&client_id).unwrap();
    assert_eq!(value(account.held_balance()), dec(0, 0));
    assert_eq!(value(account.available_balance()), amount_in);
    assert!(account.is_locked());
}

#[test]
fn test_chargeback_successful_for_disputed_withdrawal() {
    let mut storage = InMemoryAccountsStorage::new();
    let mut history = InMemoryTransactionStorage::new();
    let client_id = 1;
    let transaction_id = 100;
    let amount_in = dec(300, 1);

    storage.create_user(client_id);
    storage.add_money(client_id, amount(amount_in * dec(3, 0))).unwrap();
    storage.hold_money(client_id, amount(amount_in)).unwrap();
    create_transaction_in_history(
        &mut history,
        transaction_id,
        client_id,
        amount_in,
        TransactionInfoType::Withdrawal,
        TransactionStatus::Disputed,
    );

    let chargeback = Chargeback { client_id, transaction_id };
    let result = chargeback.execute(&mut storage, &mut history);
    assert!(result.is_ok());

    let transaction_info = history.find_transaction(transaction_id).unwrap();
    assert_eq!(transaction_info.status, TransactionStatus::Chargebacked);

    let account = storage.accounts.get(&client_id).unwrap();
    assert_eq!(value(account.held_balance()), dec(0, 0));
    assert_eq!(value(account.available_balance()), amount_in * dec(2, 0));
    assert!(account.is_locked());
}

#[test]
fn test_chargeback_transaction_not_found() {
    let mut storage = InMemoryAccountsStorage::new();
    let mut history = InMemoryTransactionStorage::new();
    let client_id = 1;

    storage.create_user(client_id);
    let chargeback = Chargeback { client_id, transaction_id: 999 };
    let result = chargeback.execute(&mut storage, &mut history);

    assert!(result.is_err());
    assert_eq!(result, transaction_error(TransactionError::OriginTransactionNotFound));
}

fn chargeback_with_status(status: TransactionStatus, amount_in: Decimal) -> Result<(), EngineError> {
    let mut storage = InMemoryAccountsStorage::new();
    let mut history = InMemoryTransactionStorage::new();
    let client_id = 1;
    let transaction_id = 100;

    storage.create_user(client_id);
    create_transaction_in_history(
        &mut history,
        transaction_id,
        client_id,
        amount_in,
        TransactionInfoType::Deposit,
        status,
    );

    let chargeback = Chargeback { client_id, transaction_id };
    chargeback.execute(&mut storage, &mut history)
}

#[test]
fn test_chargeback_transaction_not_disputed() {
    let result = chargeback_with_status(TransactionStatus::WithoutDisputes, dec(250, 1));
    assert!(result.is_err());
    assert_eq!(result, transaction_error(TransactionError::TransactionNotDisputed));
}

#[test]
fn test_chargeback_transaction_already_resolved() {
    let result = chargeback_with_status(TransactionStatus::Resolved, dec(400, 1));
    assert!(result.is_err());
    assert_eq!(result, transaction_error(TransactionError::TransactionNotDisputed));
}

#[test]
fn test_chargeback_transaction_already_chargebacked() {
    let result = chargeback_with_status(TransactionStatus::Chargebacked, dec(600, 1));
    assert!(result.is_err());
    assert_eq!(result, transaction_error(TransactionError::TransactionNotDisputed));
}

#[test]
fn test_chargeback_unhold_money_error_propagation() {
    let mut storage = InMemoryAccountsStorage::new();
    let mut history = InMemoryTransactionStorage::new();
    let client_id = 1;
    let transaction_id = 100;
    let amount_in = dec(1000, 1);

    storage.create_user(client_id);
    storage.add_money(client_id, amount(amount_in)).unwrap();
    create_transaction_in_history(
        &mut history,
        transaction_id,
        client_id,
        amount_in,
        TransactionInfoType::Deposit,
        TransactionStatus::Disputed,
    );

    let chargeback = Chargeback { client_id, transaction_id };
    let result = chargeback.execute(&mut storage, &mut history);

    assert!(result.is_err());
    assert_eq!(result, account_error(AccountError::InsufficientMoney));
}

#[test]
fn test_chargeback_withdraw_money_error_propagation() {
    let mut storage = InMemoryAccountsStorage::new();
    let mut history = InMemoryTransactionStorage::new();
    let client_id = 1;
    let transaction_id = 100;
    let amount_in = dec(1000, 1);

    storage.create_user(client_id);
    storage.add_money(client_id, amount(amount_in / dec(2, 0))).unwrap();
    storage.hold_money(client_id, amount(amount_in / dec(2, 0))).unwrap();
    create_transaction_in_history(
        &mut history,
        transaction_id,
        client_id,
        amount_in,
        TransactionInfoType::Deposit,
        TransactionStatus::Disputed,
    );

    let chargeback = Chargeback { client_id, transaction_id };
    let result = chargeback.execute(&mut storage, &mut history);

    assert!(result.is_err());
    assert_eq!(result, account_error(AccountError::InsufficientMoney));
}

#[test]
fn deposit_of_zero_is_refused() {
    let mut storage = InMemoryAccountsStorage::new();
    let mut history = InMemoryTransactionStorage::new();
    let deposit = Deposit { client_id: 4, transaction_id: 1, amount: amount(dec(0, 2)) };
    assert_eq!(
        deposit.execute(&mut storage, &mut history),
        transaction_error(TransactionError::NegativeAmount)
    );
    assert_eq!(balance(&storage, 4), None);
    assert!(history.find_transaction(1).is_none());
}

#[test]
fn deposit_with_taken_transaction_id_keeps_balance_change() {
    let mut storage = InMemoryAccountsStorage::new();
    let mut history = InMemoryTransactionStorage::new();
    let first = Deposit { client_id: 1, transaction_id: 5, amount: amount(dec(10, 0)) };
    let second = Deposit { client_id: 1, transaction_id: 5, amount: amount(dec(3, 0)) };
    assert_eq!(first.execute(&mut storage, &mut history), Ok(()));
    assert_eq!(
        second.execute(&mut storage, &mut history),
        Err(EngineError::History(
            payments_engine::errors::TransactionHistoryError::TransactionAlreadyExists
        ))
    );
    assert_eq!(balance(&storage, 1), Some(dec(13, 0)));
    assert_eq!(value(history.find_transaction(5).unwrap().amount), dec(10, 0));
}

#[test]
fn deposit_near_maximum_overflows() {
    let mut storage = InMemoryAccountsStorage::new();
    let mut history = InMemoryTransactionStorage::new();
    let first = Deposit { client_id: 1, transaction_id: 1, amount: amount(Decimal::MAX) };
    let second = Deposit { client_id: 1, transaction_id: 2, amount: amount(dec(1, 0)) };
    assert_eq!(first.execute(&mut storage, &mut history), Ok(()));
    assert_eq!(
        second.execute(&mut storage, &mut history),
        account_error(AccountError::BalanceOverflow)
    );
    assert_eq!(balance(&storage, 1), Some(Decimal::MAX));
    assert!(history.find_transaction(2).is_none());
}
