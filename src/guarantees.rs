//! What holds of every step of the engine, and of some sequences of steps.
use vstd::prelude::*;

use crate::amount::{adds_exactly, subtracts_exactly, Amount};
use crate::errors::{AccountError, EngineError, TransactionError};
use crate::history::{add_transaction_spec, find_spec, history_wf, update_status_spec};
use crate::storage::{
    accounts_wf, add_money_spec, block_account_spec, hold_money_spec, unhold_money_spec,
    withdraw_money_spec, ClientId, UserAccount,
};
use crate::transactions::{
    run, Accounts, Chargeback, Deposit, Dispute, ExecTransaction, Records, Resolve, Transaction,
    TransactionId, Withdrawal,
};
use crate::transactions_processor::{
    legal_transition, TransactionInfo, TransactionInfoType, TransactionStatus,
};

verus! {

/// Every locked account of `m1` is in `m2`, unchanged.
pub open spec fn locked_accounts_kept(m1: Accounts, m2: Accounts) -> bool {
    forall|c: ClientId| #[trigger]
        m1.contains_key(c) && m1[c].locked ==> m2.contains_key(c) && m2[c] == m1[c]
}

/// Every record of `h1` is in `h2`, with the same fields and a status that is
/// the same or one edge of the status machine further; every record that `h2`
/// adds is undisputed.
pub open spec fn history_moves_along_edges(h1: Records, h2: Records) -> bool {
    &&& forall|tx: TransactionId| #[trigger]
        h1.contains_key(tx) ==> h2.contains_key(tx) && h2[tx].client_id == h1[tx].client_id
            && h2[tx].amount == h1[tx].amount && h2[tx].transaction_type
            == h1[tx].transaction_type && (h2[tx].status == h1[tx].status || legal_transition(
            h1[tx].status,
            h2[tx].status,
        ))
    &&& forall|tx: TransactionId| #[trigger]
        h2.contains_key(tx) && !h1.contains_key(tx) ==> h2[tx].status
            == TransactionStatus::WithoutDisputes
}

proof fn lemma_account_ops_keep_locked(m: Accounts, c: ClientId, a: Amount)
    ensures
        locked_accounts_kept(m, add_money_spec(m, c, a).0),
        locked_accounts_kept(m, withdraw_money_spec(m, c, a).0),
        locked_accounts_kept(m, hold_money_spec(m, c, a).0),
        locked_accounts_kept(m, unhold_money_spec(m, c, a).0),
        locked_accounts_kept(m, block_account_spec(m, c).0),
        locked_accounts_kept(m, m),
{
}

proof fn lemma_locked_kept_transitive(m1: Accounts, m2: Accounts, m3: Accounts)
    requires
        locked_accounts_kept(m1, m2),
        locked_accounts_kept(m2, m3),
    ensures
        locked_accounts_kept(m1, m3),
{
    assert forall|c: ClientId| #[trigger] m1.contains_key(c) && m1[c].locked implies m3.contains_key(
        c,
    ) && m3[c] == m1[c] by {
        assert(m2.contains_key(c) && m2[c].locked);
    }
}

/// A locked account keeps its balances and its lock through every event.
pub proof fn lemma_locked_account_frozen(t: Transaction, accounts: Accounts, history: Records)
    ensures
        locked_accounts_kept(accounts, t.effect(accounts, history).0),
{
    match t {
        Transaction::Deposit(d) => {
            lemma_account_ops_keep_locked(accounts, d.client_id, d.amount);
        },
        Transaction::Withdrawal(w) => {
            lemma_account_ops_keep_locked(accounts, w.client_id, w.amount);
        },
        Transaction::Dispute(d) => {
            lemma_account_ops_keep_locked(accounts, d.client_id, Amount { mantissa: 0, scale: 0 });
            if let Some(info) = find_spec(history, d.transaction_id) {
                let c = d.client_id;
                let a = info.amount;
                lemma_account_ops_keep_locked(accounts, c, a);
                let m1 = add_money_spec(accounts, c, a).0;
                lemma_account_ops_keep_locked(m1, c, a);
                lemma_locked_kept_transitive(accounts, m1, hold_money_spec(m1, c, a).0);
            }
        },
        Transaction::Resolve(r) => {
            lemma_account_ops_keep_locked(accounts, r.client_id, Amount { mantissa: 0, scale: 0 });
            if let Some(info) = find_spec(history, r.transaction_id) {
                lemma_account_ops_keep_locked(accounts, r.client_id, info.amount);
            }
        },
        Transaction::Chargeback(cb) => {
            lemma_account_ops_keep_locked(accounts, cb.client_id, Amount { mantissa: 0, scale: 0 });
            if let Some(info) = find_spec(history, cb.transaction_id) {
                let c = cb.client_id;
                let a = info.amount;
                lemma_account_ops_keep_locked(accounts, c, a);
                let m1 = unhold_money_spec(accounts, c, a).0;
                lemma_account_ops_keep_locked(m1, c, a);
                let m2 = withdraw_money_spec(m1, c, a).0;
                lemma_account_ops_keep_locked(m2, c, a);
                lemma_locked_kept_transitive(accounts, m1, m2);
                lemma_locked_kept_transitive(accounts, m2, block_account_spec(m2, c).0);
            }
        },
    }
}

/// Once locked, an account keeps its balances and its lock through any
/// sequence of events.
pub proof fn lemma_locked_account_frozen_run(
    accounts: Accounts,
    history: Records,
    events: Seq<Transaction>,
)
    ensures
        locked_accounts_kept(accounts, run(accounts, history, events).0),
    decreases events.len(),
{
    if events.len() == 0 {
        lemma_account_ops_keep_locked(accounts, 0, Amount { mantissa: 0, scale: 0 });
    } else {
        lemma_locked_account_frozen_run(accounts, history, events.drop_last());
        let (m, h) = run(accounts, history, events.drop_last());
        lemma_locked_account_frozen(events.last(), m, h);
        lemma_locked_kept_transitive(accounts, m, run(accounts, history, events).0);
    }
}

proof fn lemma_edges_reflexive(h: Records)
    ensures
        history_moves_along_edges(h, h),
{
}

proof fn lemma_update_moves_along_edges(h: Records, tx: TransactionId, status: TransactionStatus)
    ensures
        history_moves_along_edges(h, update_status_spec(h, tx, status).0),
{
}

proof fn lemma_add_moves_along_edges(h: Records, info: TransactionInfo)
    requires
        info.status == TransactionStatus::WithoutDisputes,
    ensures
        history_moves_along_edges(h, add_transaction_spec(h, info).0),
{
}

/// Every event leaves each record's status where it was or moves it along
/// one edge of the status machine, and adds only undisputed records; so every
/// status in the history is reached from undisputed by legal edges.
pub proof fn lemma_history_follows_status_machine(
    t: Transaction,
    accounts: Accounts,
    history: Records,
)
    ensures
        history_moves_along_edges(history, t.effect(accounts, history).1),
{
    lemma_edges_reflexive(history);
    match t {
        Transaction::Deposit(d) => {
            lemma_add_moves_along_edges(history, d.info());
        },
        Transaction::Withdrawal(w) => {
            lemma_add_moves_along_edges(history, w.info());
        },
        Transaction::Dispute(d) => {
            lemma_update_moves_along_edges(history, d.transaction_id, TransactionStatus::Disputed);
        },
        Transaction::Resolve(r) => {
            lemma_update_moves_along_edges(history, r.transaction_id, TransactionStatus::Resolved);
        },
        Transaction::Chargeback(c) => {
            lemma_update_moves_along_edges(
                history,
                c.transaction_id,
                TransactionStatus::Chargebacked,
            );
        },
    }
}

/// A deposit or withdrawal of a zero or negative amount is refused with
/// `NegativeAmount` and changes nothing.
pub proof fn lemma_nonpositive_amount_refused(
    client_id: ClientId,
    transaction_id: TransactionId,
    amount: Amount,
    accounts: Accounts,
    history: Records,
)
    requires
        amount.value() <= 0,
    ensures
        (Deposit { client_id, transaction_id, amount }).effect(accounts, history) == (
            accounts,
            history,
            Err::<(), EngineError>(EngineError::Transaction(TransactionError::NegativeAmount)),
        ),
        (Withdrawal { client_id, transaction_id, amount }).effect(accounts, history) == (
            accounts,
            history,
            Err::<(), EngineError>(EngineError::Transaction(TransactionError::NegativeAmount)),
        ),
{
}

/// A dispute, resolve or chargeback of a transaction that is not in the
/// history is refused with `OriginTransactionNotFound` and changes nothing.
pub proof fn lemma_unknown_transaction_refused(
    client_id: ClientId,
    transaction_id: TransactionId,
    accounts: Accounts,
    history: Records,
)
    requires
        !history.contains_key(transaction_id),
    ensures
        (Dispute { client_id, transaction_id }).effect(accounts, history) == (
            accounts,
            history,
            Err::<(), EngineError>(
                EngineError::Transaction(TransactionError::OriginTransactionNotFound),
            ),
        ),
        (Resolve { client_id, transaction_id }).effect(accounts, history) == (
            accounts,
            history,
            Err::<(), EngineError>(
                EngineError::Transaction(TransactionError::OriginTransactionNotFound),
            ),
        ),
        (Chargeback { client_id, transaction_id }).effect(accounts, history) == (
            accounts,
            history,
            Err::<(), EngineError>(
                EngineError::Transaction(TransactionError::OriginTransactionNotFound),
            ),
        ),
{
}

/// A dispute of a transaction that is disputed, resolved or charged back is
/// refused with `TransactionMultipleDispute` and changes nothing.
pub proof fn lemma_second_dispute_refused(
    client_id: ClientId,
    transaction_id: TransactionId,
    accounts: Accounts,
    history: Records,
)
    requires
        history.contains_key(transaction_id),
        history[transaction_id].status != TransactionStatus::WithoutDisputes,
    ensures
        (Dispute { client_id, transaction_id }).effect(accounts, history) == (
            accounts,
            history,
            Err::<(), EngineError>(
                EngineError::Transaction(TransactionError::TransactionMultipleDispute),
            ),
        ),
{
}

/// A resolve or chargeback of an undisputed transaction is refused with
/// `TransactionNotDisputed` and changes nothing.
pub proof fn lemma_undisputed_not_settled(
    client_id: ClientId,
    transaction_id: TransactionId,
    accounts: Accounts,
    history: Records,
)
    requires
        history.contains_key(transaction_id),
        history[transaction_id].status == TransactionStatus::WithoutDisputes,
    ensures
        (Resolve { client_id, transaction_id }).effect(accounts, history) == (
            accounts,
            history,
            Err::<(), EngineError>(EngineError::Transaction(TransactionError::TransactionNotDisputed)),
        ),
        (Chargeback { client_id, transaction_id }).effect(accounts, history) == (
            accounts,
            history,
            Err::<(), EngineError>(EngineError::Transaction(TransactionError::TransactionNotDisputed)),
        ),
{
}

/// A dispute of a deposit whose amount is more than the client has available
/// is refused with `InsufficientMoney` and changes nothing.
pub proof fn lemma_dispute_without_funds_refused(
    client_id: ClientId,
    transaction_id: TransactionId,
    accounts: Accounts,
    history: Records,
)
    requires
        history.contains_key(transaction_id),
        history[transaction_id].status == TransactionStatus::WithoutDisputes,
        history[transaction_id].transaction_type == TransactionInfoType::Deposit,
        history[transaction_id].amount.value() > 0,
        accounts.contains_key(client_id),
        !accounts[client_id].locked,
        accounts[client_id].available_amount.value() < history[transaction_id].amount.value(),
    ensures
        (Dispute { client_id, transaction_id }).effect(accounts, history) == (
            accounts,
            history,
            Err::<(), EngineError>(EngineError::Account(AccountError::InsufficientMoney)),
        ),
{
}

/// The sums and differences that a hold of `a` computes are exact.
pub open spec fn hold_exact(m: Accounts, c: ClientId, a: Amount) -> bool {
    m.contains_key(c) && !m[c].locked && m[c].available_amount.value() >= a.value() ==> {
        &&& subtracts_exactly(m[c].available_amount, a)
        &&& adds_exactly(m[c].held_amount, a)
    }
}

/// The sums and differences that a release of `a` computes are exact.
pub open spec fn unhold_exact(m: Accounts, c: ClientId, a: Amount) -> bool {
    m.contains_key(c) && !m[c].locked && m[c].held_amount.value() >= a.value() ==> {
        &&& subtracts_exactly(m[c].held_amount, a)
        &&& adds_exactly(m[c].available_amount, a)
    }
}

/// The sum that a deposit of `a` computes is exact.
pub open spec fn add_money_exact(m: Accounts, c: ClientId, a: Amount) -> bool {
    m.contains_key(c) && !m[c].locked ==> adds_exactly(m[c].available_amount, a)
}

/// The difference that a withdrawal of `a` computes is exact.
pub open spec fn withdraw_exact(m: Accounts, c: ClientId, a: Amount) -> bool {
    m.contains_key(c) && !m[c].locked && m[c].available_amount.value() >= a.value()
        ==> subtracts_exactly(m[c].available_amount, a)
}

/// The two maps hold the same clients, with balances of the same values and
/// the same locks.
pub open spec fn same_balances(m1: Accounts, m2: Accounts) -> bool {
    &&& m1.dom() == m2.dom()
    &&& forall|c: ClientId| #[trigger]
        m1.contains_key(c) ==> m2[c].available_amount.value() == m1[c].available_amount.value()
            && m2[c].held_amount.value() == m1[c].held_amount.value() && m2[c].locked
            == m1[c].locked
}

/// A dispute followed by a resolve of the same undisputed deposit leaves every
/// account with the balances it had before the dispute, where the decimal
/// arithmetic of the hold and the release is exact.
pub proof fn lemma_dispute_resolve_deposit_round_trip(
    client_id: ClientId,
    transaction_id: TransactionId,
    accounts: Accounts,
    history: Records,
)
    requires
        accounts_wf(accounts),
        history_wf(history),
        history.contains_key(transaction_id),
        history[transaction_id].status == TransactionStatus::WithoutDisputes,
        history[transaction_id].transaction_type == TransactionInfoType::Deposit,
        hold_exact(accounts, client_id, history[transaction_id].amount),
        unhold_exact(
            hold_money_spec(accounts, client_id, history[transaction_id].amount).0,
            client_id,
            history[transaction_id].amount,
        ),
    ensures
        ({
            let s1 = (Dispute { client_id, transaction_id }).effect(accounts, history);
            let s2 = (Resolve { client_id, transaction_id }).effect(s1.0, s1.1);
            same_balances(accounts, s2.0)
        }),
{
    let a = history[transaction_id].amount;
    let s1 = (Dispute { client_id, transaction_id }).effect(accounts, history);
    let s2 = (Resolve { client_id, transaction_id }).effect(s1.0, s1.1);
    if s1.2 is Ok && a.value() > 0 {
        let m1 = hold_money_spec(accounts, client_id, a).0;
        assert(s1.0 == m1);
        assert(s2.0 == unhold_money_spec(m1, client_id, a).0);
        assert(m1.dom() =~= accounts.dom());
        assert(s2.0.dom() =~= accounts.dom());
    } else {
        assert(s2.0 == accounts);
    }
}

/// A dispute followed by a resolve of the same undisputed withdrawal leaves
/// the client's available balance higher by the withdrawn amount, its held
/// balance as it was (zero for a new client), and every other account as it
/// was; where the client is not locked and the decimal arithmetic of the
/// deposit, the hold and the release is exact.
pub proof fn lemma_dispute_resolve_withdrawal_restores(
    client_id: ClientId,
    transaction_id: TransactionId,
    accounts: Accounts,
    history: Records,
)
    requires
        accounts_wf(accounts),
        history_wf(history),
        history.contains_key(transaction_id),
        history[transaction_id].status == TransactionStatus::WithoutDisputes,
        history[transaction_id].transaction_type == TransactionInfoType::Withdrawal,
        history[transaction_id].amount.value() > 0,
        accounts.contains_key(client_id) ==> !accounts[client_id].locked,
        ({
            let a = history[transaction_id].amount;
            let m1 = add_money_spec(accounts, client_id, a).0;
            let m2 = hold_money_spec(m1, client_id, a).0;
            add_money_exact(accounts, client_id, a) && hold_exact(m1, client_id, a) && unhold_exact(
                m2,
                client_id,
                a,
            )
        }),
    ensures
        ({
            let a = history[transaction_id].amount;
            let s1 = (Dispute { client_id, transaction_id }).effect(accounts, history);
            let s2 = (Resolve { client_id, transaction_id }).effect(s1.0, s1.1);
            let before = if accounts.contains_key(client_id) {
                accounts[client_id]
            } else {
                UserAccount::empty()
            };
            &&& s1.2 is Ok
            &&& s2.2 is Ok
            &&& s2.0.contains_key(client_id)
            &&& s2.0[client_id].available_amount.value() == before.available_amount.value()
                + a.value()
            &&& s2.0[client_id].held_amount.value() == before.held_amount.value()
            &&& !s2.0[client_id].locked
            &&& forall|c: ClientId| #[trigger]
                accounts.contains_key(c) && c != client_id ==> s2.0.contains_key(c) && s2.0[c]
                    == accounts[c]
        }),
{
    let a = history[transaction_id].amount;
    let m1 = add_money_spec(accounts, client_id, a).0;
    let m2 = hold_money_spec(m1, client_id, a).0;
    assert(m1.contains_key(client_id));
    if !accounts.contains_key(client_id) {
        assert(m1[client_id].available_amount == a);
        assert(m1[client_id].held_amount.value() == 0);
    }
    assert(hold_money_spec(m1, client_id, a).1 is Ok);
    assert(m2.contains_key(client_id));
    assert(unhold_money_spec(m2, client_id, a).1 is Ok);
}

} // verus!
