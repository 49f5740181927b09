//! The money the accounts hold in all, and how each event changes it.
use vstd::prelude::*;

use crate::errors::{EngineError, TransactionHistoryError};
use crate::guarantees::{add_money_exact, hold_exact, unhold_exact, withdraw_exact};
use crate::amount::Amount;
use crate::history::{find_spec, history_wf, update_status_spec};
use crate::storage::{
    accounts_wf, add_money_spec, block_account_spec, hold_money_spec, unhold_money_spec,
    withdraw_money_spec, ClientId, UserAccount,
};
use crate::transactions::{
    run, Accounts, Chargeback, Dispute, ExecTransaction, Records, Transaction,
};
use crate::transactions_processor::{TransactionInfoType, TransactionStatus};

verus! {

/// Available plus held, in units of `10^-28`.
pub open spec fn account_total(acc: UserAccount) -> int {
    acc.available_amount.value() + acc.held_amount.value()
}

/// The total of client `i`, or zero where it has no account.
pub open spec fn balance_at(m: Accounts, i: int) -> int {
    if 0 <= i <= u16::MAX && m.contains_key(i as u16) {
        account_total(m[i as u16])
    } else {
        0
    }
}

/// The totals of the clients below `n`, added up.
pub open spec fn ledger_below(m: Accounts, n: nat) -> int
    decreases n,
{
    if n == 0 {
        0
    } else {
        ledger_below(m, (n - 1) as nat) + balance_at(m, n - 1)
    }
}

/// The totals of all accounts, added up.
pub open spec fn ledger_total(m: Accounts) -> int {
    ledger_below(m, 0x10000)
}

proof fn lemma_ledger_below_insert(m: Accounts, c: ClientId, acc: UserAccount, n: nat)
    ensures
        ledger_below(m.insert(c, acc), n) == ledger_below(m, n) + if (c as int) < n {
            account_total(acc) - balance_at(m, c as int)
        } else {
            0
        },
    decreases n,
{
    if n > 0 {
        lemma_ledger_below_insert(m, c, acc, (n - 1) as nat);
    }
}

/// Replacing one account changes the ledger by the change of its total.
pub proof fn lemma_ledger_insert(m: Accounts, c: ClientId, acc: UserAccount)
    ensures
        ledger_total(m.insert(c, acc)) == ledger_total(m) + account_total(acc) - balance_at(
            m,
            c as int,
        ),
{
    lemma_ledger_below_insert(m, c, acc, 0x10000);
}

proof fn lemma_add_money_ledger(m: Accounts, c: ClientId, a: Amount)
    requires
        add_money_exact(m, c, a),
    ensures
        add_money_spec(m, c, a).1 is Ok ==> ledger_total(add_money_spec(m, c, a).0) == ledger_total(m)
            + a.value(),
        add_money_spec(m, c, a).1 is Err ==> add_money_spec(m, c, a).0 == m,
{
    if add_money_spec(m, c, a).1 is Ok {
        lemma_ledger_insert(m, c, add_money_spec(m, c, a).0[c]);
        assert(add_money_spec(m, c, a).0 == m.insert(c, add_money_spec(m, c, a).0[c]));
    }
}

proof fn lemma_withdraw_ledger(m: Accounts, c: ClientId, a: Amount)
    requires
        withdraw_exact(m, c, a),
    ensures
        withdraw_money_spec(m, c, a).1 is Ok ==> ledger_total(withdraw_money_spec(m, c, a).0)
            == ledger_total(m) - a.value(),
        withdraw_money_spec(m, c, a).1 is Err ==> withdraw_money_spec(m, c, a).0 == m,
{
    if withdraw_money_spec(m, c, a).1 is Ok {
        lemma_ledger_insert(m, c, withdraw_money_spec(m, c, a).0[c]);
        assert(withdraw_money_spec(m, c, a).0 == m.insert(c, withdraw_money_spec(m, c, a).0[c]));
    }
}

proof fn lemma_hold_ledger(m: Accounts, c: ClientId, a: Amount)
    requires
        hold_exact(m, c, a),
    ensures
        hold_money_spec(m, c, a).1 is Ok ==> ledger_total(hold_money_spec(m, c, a).0)
            == ledger_total(m),
        hold_money_spec(m, c, a).1 is Err ==> hold_money_spec(m, c, a).0 == m,
        m.contains_key(c) && !m[c].locked && m[c].available_amount.value() >= a.value()
            ==> hold_money_spec(m, c, a).1 is Ok,
{
    if hold_money_spec(m, c, a).1 is Ok {
        lemma_ledger_insert(m, c, hold_money_spec(m, c, a).0[c]);
        assert(hold_money_spec(m, c, a).0 == m.insert(c, hold_money_spec(m, c, a).0[c]));
    }
}

proof fn lemma_unhold_ledger(m: Accounts, c: ClientId, a: Amount)
    requires
        unhold_exact(m, c, a),
    ensures
        unhold_money_spec(m, c, a).1 is Ok ==> ledger_total(unhold_money_spec(m, c, a).0)
            == ledger_total(m),
        unhold_money_spec(m, c, a).1 is Err ==> unhold_money_spec(m, c, a).0 == m,
{
    if unhold_money_spec(m, c, a).1 is Ok {
        lemma_ledger_insert(m, c, unhold_money_spec(m, c, a).0[c]);
        assert(unhold_money_spec(m, c, a).0 == m.insert(c, unhold_money_spec(m, c, a).0[c]));
    }
}

proof fn lemma_block_ledger(m: Accounts, c: ClientId)
    ensures
        ledger_total(block_account_spec(m, c).0) == ledger_total(m),
{
    if m.contains_key(c) {
        lemma_ledger_insert(m, c, block_account_spec(m, c).0[c]);
    }
}

/// How much an event that succeeds adds to the ledger: a deposit its amount,
/// a withdrawal minus its amount, a dispute of a withdrawal the amount it
/// restores, a chargeback minus the amount it removes.
pub open spec fn ledger_delta(t: Transaction, history: Records) -> int {
    match t {
        Transaction::Deposit(d) => d.amount.value(),
        Transaction::Withdrawal(w) => -w.amount.value(),
        Transaction::Dispute(d) => match find_spec(history, d.transaction_id) {
            Some(info) => if info.transaction_type == TransactionInfoType::Withdrawal {
                info.amount.value()
            } else {
                0
            },
            None => 0,
        },
        Transaction::Resolve(_) => 0,
        Transaction::Chargeback(c) => match find_spec(history, c.transaction_id) {
            Some(info) => -info.amount.value(),
            None => 0,
        },
    }
}

/// The decimal sums and differences that the event computes are exact.
pub open spec fn step_exact(t: Transaction, accounts: Accounts, history: Records) -> bool {
    match t {
        Transaction::Deposit(d) => add_money_exact(accounts, d.client_id, d.amount),
        Transaction::Withdrawal(w) => withdraw_exact(accounts, w.client_id, w.amount),
        Transaction::Dispute(d) => match find_spec(history, d.transaction_id) {
            Some(info) => match info.transaction_type {
                TransactionInfoType::Deposit => hold_exact(accounts, d.client_id, info.amount),
                TransactionInfoType::Withdrawal => add_money_exact(
                    accounts,
                    d.client_id,
                    info.amount,
                ) && hold_exact(
                    add_money_spec(accounts, d.client_id, info.amount).0,
                    d.client_id,
                    info.amount,
                ),
            },
            None => true,
        },
        Transaction::Resolve(r) => match find_spec(history, r.transaction_id) {
            Some(info) => unhold_exact(accounts, r.client_id, info.amount),
            None => true,
        },
        Transaction::Chargeback(c) => match find_spec(history, c.transaction_id) {
            Some(info) => unhold_exact(accounts, c.client_id, info.amount) && withdraw_exact(
                unhold_money_spec(accounts, c.client_id, info.amount).0,
                c.client_id,
                info.amount,
            ),
            None => true,
        },
    }
}

/// What the ledger must be after an event: moved by the event's amount where
/// it succeeded, unchanged where it failed, but for a deposit or withdrawal
/// whose record could not be added after the balance had changed.
pub open spec fn ledger_audited(t: Transaction, accounts: Accounts, history: Records) -> bool {
    let (m, _, r) = t.effect(accounts, history);
    &&& r is Ok ==> ledger_total(m) == ledger_total(accounts) + ledger_delta(t, history)
    &&& r is Err && r != Err::<(), EngineError>(
        EngineError::History(TransactionHistoryError::TransactionAlreadyExists),
    ) ==> ledger_total(m) == ledger_total(accounts)
}

proof fn lemma_ledger_dispute(d: Dispute, accounts: Accounts, history: Records)
    requires
        accounts_wf(accounts),
        history_wf(history),
        step_exact(Transaction::Dispute(d), accounts, history),
    ensures
        ledger_audited(Transaction::Dispute(d), accounts, history),
{
    if let Some(info) = find_spec(history, d.transaction_id) {
        let c = d.client_id;
        let a = info.amount;
        if info.status == TransactionStatus::WithoutDisputes && a.value() > 0 {
            match info.transaction_type {
                TransactionInfoType::Deposit => {
                    lemma_hold_ledger(accounts, c, a);
                },
                TransactionInfoType::Withdrawal => {
                    lemma_add_money_ledger(accounts, c, a);
                    let m1 = add_money_spec(accounts, c, a).0;
                    lemma_hold_ledger(m1, c, a);
                    if add_money_spec(accounts, c, a).1 is Ok {
                        assert(m1.contains_key(c) && !m1[c].locked);
                        assert(m1[c].available_amount.value() >= a.value());
                    }
                },
            }
            assert(update_status_spec(history, d.transaction_id, TransactionStatus::Disputed).1 is Ok);
        }
    }
}

proof fn lemma_ledger_chargeback(cb: Chargeback, accounts: Accounts, history: Records)
    requires
        accounts_wf(accounts),
        history_wf(history),
        step_exact(Transaction::Chargeback(cb), accounts, history),
    ensures
        ledger_audited(Transaction::Chargeback(cb), accounts, history),
{
    if let Some(info) = find_spec(history, cb.transaction_id) {
        let c = cb.client_id;
        let a = info.amount;
        if info.status == TransactionStatus::Disputed && a.value() > 0 {
            lemma_unhold_ledger(accounts, c, a);
            let m1 = unhold_money_spec(accounts, c, a).0;
            lemma_withdraw_ledger(m1, c, a);
            let m2 = withdraw_money_spec(m1, c, a).0;
            lemma_block_ledger(m2, c);
            if unhold_money_spec(accounts, c, a).1 is Ok {
                assert(m1.contains_key(c) && !m1[c].locked);
                assert(m1[c].available_amount.value() >= a.value());
                assert(withdraw_money_spec(m1, c, a).1 is Ok);
                assert(m2.contains_key(c));
            }
            assert(update_status_spec(history, cb.transaction_id, TransactionStatus::Chargebacked).1 is Ok);
        }
    }
}

/// Audit of one event: a successful event moves the sum of all totals by
/// its own amount (see `ledger_delta`), a failed one leaves it as it was,
/// except a deposit or withdrawal whose transaction id was already taken;
/// where the decimal arithmetic of the event is exact.
pub proof fn lemma_ledger_audit(t: Transaction, accounts: Accounts, history: Records)
    requires
        accounts_wf(accounts),
        history_wf(history),
        t.wf(),
        step_exact(t, accounts, history),
    ensures
        ledger_audited(t, accounts, history),
{
    match t {
        Transaction::Deposit(d) => {
            lemma_add_money_ledger(accounts, d.client_id, d.amount);
        },
        Transaction::Withdrawal(w) => {
            lemma_withdraw_ledger(accounts, w.client_id, w.amount);
        },
        Transaction::Dispute(d) => {
            lemma_ledger_dispute(d, accounts, history);
        },
        Transaction::Resolve(r) => {
            if let Some(info) = find_spec(history, r.transaction_id) {
                lemma_unhold_ledger(accounts, r.client_id, info.amount);
            }
        },
        Transaction::Chargeback(cb) => {
            lemma_ledger_chargeback(cb, accounts, history);
        },
    }
}

/// What the events that succeeded add to the ledger, each by `ledger_delta`.
pub open spec fn run_delta(accounts: Accounts, history: Records, events: Seq<Transaction>) -> int
    decreases events.len(),
{
    if events.len() == 0 {
        0
    } else {
        let (m, h) = run(accounts, history, events.drop_last());
        let r = events.last().effect(m, h).2;
        run_delta(accounts, history, events.drop_last()) + if r is Ok {
            ledger_delta(events.last(), h)
        } else {
            0
        }
    }
}

/// Before each event the stores are well formed, the event is well formed,
/// its decimal arithmetic is exact, and it is not a deposit or withdrawal
/// that reuses a transaction id.
pub open spec fn run_audited(accounts: Accounts, history: Records, events: Seq<Transaction>) -> bool
    decreases events.len(),
{
    if events.len() == 0 {
        true
    } else {
        let (m, h) = run(accounts, history, events.drop_last());
        let t = events.last();
        &&& run_audited(accounts, history, events.drop_last())
        &&& accounts_wf(m)
        &&& history_wf(h)
        &&& t.wf()
        &&& step_exact(t, m, h)
        &&& t.effect(m, h).2 != Err::<(), EngineError>(
            EngineError::History(TransactionHistoryError::TransactionAlreadyExists),
        )
    }
}

/// Global audit: after a sequence of events the money in all accounts is
/// what was there before, plus the deposits that succeeded, minus the
/// withdrawals that succeeded, plus what disputes of withdrawals restored,
/// minus what chargebacks removed.
pub proof fn lemma_ledger_run(accounts: Accounts, history: Records, events: Seq<Transaction>)
    requires
        run_audited(accounts, history, events),
    ensures
        ledger_total(run(accounts, history, events).0) == ledger_total(accounts) + run_delta(
            accounts,
            history,
            events,
        ),
    decreases events.len(),
{
    if events.len() > 0 {
        lemma_ledger_run(accounts, history, events.drop_last());
        let (m, h) = run(accounts, history, events.drop_last());
        lemma_ledger_audit(events.last(), m, h);
    }
}

} // verus!
