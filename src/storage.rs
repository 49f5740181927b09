//! The account store: one account per client, with balance-changing operations
//! that keep both balances non-negative and leave a locked account as it is.
use std::collections::HashMap;
use vstd::prelude::*;

use crate::amount::{
    checked_add, checked_sub, decimal_difference, decimal_sum, lemma_equal_values_subtract_to_zero,
    less_than, overflow_value, sum_fits, Amount,
};
use crate::errors::AccountError;

verus! {

broadcast use vstd::std_specs::hash::group_hash_axioms;

pub type ClientId = u16;

#[derive(Clone, Copy, Debug, PartialEq, Eq, Structural)]
pub struct UserAccount {
    pub available_amount: Amount,
    pub held_amount: Amount,
    pub locked: bool,
}

impl UserAccount {
    /// Both balances are valid decimals and neither is negative.
    pub open spec fn wf(self) -> bool {
        &&& self.available_amount.wf()
        &&& self.held_amount.wf()
        &&& self.available_amount.value() >= 0
        &&& self.held_amount.value() >= 0
    }

    /// An account with nothing in it, unlocked.
    pub open spec fn empty() -> UserAccount {
        UserAccount {
            available_amount: Amount { mantissa: 0, scale: 0 },
            held_amount: Amount { mantissa: 0, scale: 0 },
            locked: false,
        }
    }

    /// The total, where the two balances add up within range.
    pub fn total_balance(&self) -> (r: Amount)
        requires
            self.wf(),
            decimal_sum(self.available_amount, self.held_amount) is Some,
        ensures
            r == decimal_sum(self.available_amount, self.held_amount)->0,
    {
        match checked_add(self.available_amount, self.held_amount) {
            Some(total) => total,
            None => {
                proof {
                    assert(false);
                }
                self.available_amount
            },
        }
    }

    /// The total, or `None` where the two balances do not add up within range.
    pub fn checked_total_balance(&self) -> (r: Option<Amount>)
        requires
            self.wf(),
        ensures
            r == decimal_sum(self.available_amount, self.held_amount),
            sum_fits(self.available_amount, self.held_amount) ==> r is Some && r->0.value()
                == self.available_amount.value() + self.held_amount.value(),
    {
        let sum = checked_add(self.available_amount, self.held_amount);
        if sum.is_some() {
            Some(self.total_balance())
        } else {
            None
        }
    }

    pub fn available_balance(&self) -> (r: Amount)
        ensures
            r == self.available_amount,
    {
        self.available_amount
    }

    pub fn held_balance(&self) -> (r: Amount)
        ensures
            r == self.held_amount,
    {
        self.held_amount
    }

    pub fn is_locked(&self) -> (r: bool)
        ensures
            r == self.locked,
    {
        self.locked
    }
}

impl Default for UserAccount {
    fn default() -> (r: Self)
        ensures
            r == UserAccount::empty(),
    {
        UserAccount { available_amount: Amount::zero(), held_amount: Amount::zero(), locked: false }
    }
}

/// Every account in the map is well formed.
pub open spec fn accounts_wf(m: Map<ClientId, UserAccount>) -> bool {
    forall|c: ClientId| #[trigger] m.contains_key(c) ==> m[c].wf()
}

pub open spec fn create_user_spec(m: Map<ClientId, UserAccount>, c: ClientId) -> Map<
    ClientId,
    UserAccount,
> {
    if m.contains_key(c) {
        m
    } else {
        m.insert(c, UserAccount::empty())
    }
}

/// Deposit: a new client gets an account holding `a`; a known one, unless
/// locked, gets `a` added to its available balance.
pub open spec fn add_money_spec(m: Map<ClientId, UserAccount>, c: ClientId, a: Amount) -> (Map<
    ClientId,
    UserAccount,
>, Result<(), AccountError>) {
    if !m.contains_key(c) {
        (
            m.insert(
                c,
                UserAccount {
                    available_amount: a,
                    held_amount: Amount { mantissa: 0, scale: 0 },
                    locked: false,
                },
            ),
            Ok(()),
        )
    } else if m[c].locked {
        (m, Err(AccountError::AccountLocked))
    } else {
        match decimal_sum(m[c].available_amount, a) {
            None => (m, Err(AccountError::BalanceOverflow)),
            Some(s) => (m.insert(c, UserAccount { available_amount: s, ..m[c] }), Ok(())),
        }
    }
}

/// Withdrawal: `a` leaves the available balance of a known, unlocked account
/// that has at least `a` available.
pub open spec fn withdraw_money_spec(m: Map<ClientId, UserAccount>, c: ClientId, a: Amount) -> (Map<
    ClientId,
    UserAccount,
>, Result<(), AccountError>) {
    if !m.contains_key(c) {
        (m, Err(AccountError::AccountNotFound))
    } else if m[c].locked {
        (m, Err(AccountError::AccountLocked))
    } else if m[c].available_amount.value() < a.value() {
        (m, Err(AccountError::InsufficientMoney))
    } else {
        match decimal_difference(m[c].available_amount, a) {
            None => (m, Err(AccountError::BalanceOverflow)),
            Some(d) => (m.insert(c, UserAccount { available_amount: d, ..m[c] }), Ok(())),
        }
    }
}

/// Hold: `a` moves from available to held, both or neither.
pub open spec fn hold_money_spec(m: Map<ClientId, UserAccount>, c: ClientId, a: Amount) -> (Map<
    ClientId,
    UserAccount,
>, Result<(), AccountError>) {
    if !m.contains_key(c) {
        (m, Err(AccountError::AccountNotFound))
    } else if m[c].locked {
        (m, Err(AccountError::AccountLocked))
    } else if m[c].available_amount.value() < a.value() {
        (m, Err(AccountError::InsufficientMoney))
    } else {
        match (decimal_difference(m[c].available_amount, a), decimal_sum(m[c].held_amount, a)) {
            (Some(d), Some(s)) => (
                m.insert(c, UserAccount { available_amount: d, held_amount: s, locked: false }),
                Ok(()),
            ),
            _ => (m, Err(AccountError::BalanceOverflow)),
        }
    }
}

/// Release: `a` moves from held back to available, both or neither.
pub open spec fn unhold_money_spec(m: Map<ClientId, UserAccount>, c: ClientId, a: Amount) -> (Map<
    ClientId,
    UserAccount,
>, Result<(), AccountError>) {
    if !m.contains_key(c) {
        (m, Err(AccountError::AccountNotFound))
    } else if m[c].locked {
        (m, Err(AccountError::AccountLocked))
    } else if m[c].held_amount.value() < a.value() {
        (m, Err(AccountError::InsufficientMoney))
    } else {
        match (decimal_difference(m[c].held_amount, a), decimal_sum(m[c].available_amount, a)) {
            (Some(d), Some(s)) => (
                m.insert(c, UserAccount { available_amount: s, held_amount: d, locked: false }),
                Ok(()),
            ),
            _ => (m, Err(AccountError::BalanceOverflow)),
        }
    }
}

/// Lock: a known account becomes locked; one already locked stays so.
pub open spec fn block_account_spec(m: Map<ClientId, UserAccount>, c: ClientId) -> (Map<
    ClientId,
    UserAccount,
>, Result<(), AccountError>) {
    if !m.contains_key(c) {
        (m, Err(AccountError::AccountNotFound))
    } else {
        (m.insert(c, UserAccount { locked: true, ..m[c] }), Ok(()))
    }
}

/// The operations the engine performs on client accounts.
pub trait AccountStorage {
    /// The accounts, by client.
    spec fn accounts_view(&self) -> Map<ClientId, UserAccount>;

    fn create_user(&mut self, user_id: ClientId)
        requires
            accounts_wf(old(self).accounts_view()),
        ensures
            final(self).accounts_view() == create_user_spec(old(self).accounts_view(), user_id),
            accounts_wf(final(self).accounts_view()),
    ;

    fn add_money(&mut self, user_id: ClientId, amount: Amount) -> (r: Result<(), AccountError>)
        requires
            accounts_wf(old(self).accounts_view()),
            amount.wf(),
            amount.value() > 0,
        ensures
            (final(self).accounts_view(), r) == add_money_spec(
                old(self).accounts_view(),
                user_id,
                amount,
            ),
            accounts_wf(final(self).accounts_view()),
            old(self).accounts_view().contains_key(user_id) && !old(
                self,
            ).accounts_view()[user_id].locked && old(
                self,
            ).accounts_view()[user_id].available_amount.value() + amount.value()
                >= overflow_value() ==> r == Err::<(), AccountError>(AccountError::BalanceOverflow)
                && final(self).accounts_view() == old(self).accounts_view(),
    ;

    fn withdraw_money(&mut self, user_id: ClientId, amount: Amount) -> (r: Result<(), AccountError>)
        requires
            accounts_wf(old(self).accounts_view()),
            amount.wf(),
            amount.value() > 0,
        ensures
            (final(self).accounts_view(), r) == withdraw_money_spec(
                old(self).accounts_view(),
                user_id,
                amount,
            ),
            accounts_wf(final(self).accounts_view()),
            old(self).accounts_view().contains_key(user_id) && !old(
                self,
            ).accounts_view()[user_id].locked && old(
                self,
            ).accounts_view()[user_id].available_amount.value() == amount.value() ==> r is Ok
                && final(self).accounts_view()[user_id].available_amount.value() == 0,
    ;

    fn hold_money(&mut self, user_id: ClientId, amount: Amount) -> (r: Result<(), AccountError>)
        requires
            accounts_wf(old(self).accounts_view()),
            amount.wf(),
            amount.value() > 0,
        ensures
            (final(self).accounts_view(), r) == hold_money_spec(
                old(self).accounts_view(),
                user_id,
                amount,
            ),
            accounts_wf(final(self).accounts_view()),
    ;

    fn unhold_money(&mut self, user_id: ClientId, amount: Amount) -> (r: Result<(), AccountError>)
        requires
            accounts_wf(old(self).accounts_view()),
            amount.wf(),
            amount.value() > 0,
        ensures
            (final(self).accounts_view(), r) == unhold_money_spec(
                old(self).accounts_view(),
                user_id,
                amount,
            ),
            accounts_wf(final(self).accounts_view()),
    ;

    fn block_account(&mut self, user_id: ClientId) -> (r: Result<(), AccountError>)
        requires
            accounts_wf(old(self).accounts_view()),
        ensures
            (final(self).accounts_view(), r) == block_account_spec(
                old(self).accounts_view(),
                user_id,
            ),
            accounts_wf(final(self).accounts_view()),
    ;
}

/// Accounts held in a hash map keyed by client.
pub struct InMemoryAccountsStorage {
    pub accounts: HashMap<ClientId, UserAccount>,
}

impl Default for InMemoryAccountsStorage {
    fn default() -> (r: Self)
        ensures
            r.accounts@ == Map::<ClientId, UserAccount>::empty(),
    {
        Self::new()
    }
}

impl InMemoryAccountsStorage {
    pub fn new() -> (r: Self)
        ensures
            r.accounts@ == Map::<ClientId, UserAccount>::empty(),
    {
        Self { accounts: HashMap::new() }
    }

    /// Whether the client's account is locked, or `None` for an unknown client.
    pub fn is_locked(&self, user_id: ClientId) -> (r: Option<bool>)
        ensures
            r == (if self.accounts@.contains_key(user_id) {
                Some(self.accounts@[user_id].locked)
            } else {
                None
            }),
    {
        match self.accounts.get(&user_id) {
            Some(account) => Some(account.locked),
            None => None,
        }
    }

    /// The client's available balance, or `None` for an unknown client.
    pub fn get_balance(&self, user_id: ClientId) -> (r: Option<Amount>)
        ensures
            r == (if self.accounts@.contains_key(user_id) {
                Some(self.accounts@[user_id].available_amount)
            } else {
                None
            }),
    {
        match self.accounts.get(&user_id) {
            Some(account) => Some(account.available_amount),
            None => None,
        }
    }

    /// The client's account, or `None` for an unknown client.
    pub fn get_account(&self, user_id: ClientId) -> (r: Option<UserAccount>)
        ensures
            r == (if self.accounts@.contains_key(user_id) {
                Some(self.accounts@[user_id])
            } else {
                None
            }),
    {
        match self.accounts.get(&user_id) {
            Some(account) => Some(*account),
            None => None,
        }
    }
}

impl AccountStorage for InMemoryAccountsStorage {
    open spec fn accounts_view(&self) -> Map<ClientId, UserAccount> {
        self.accounts@
    }

    fn create_user(&mut self, user_id: ClientId) {
        if !self.accounts.contains_key(&user_id) {
            self.accounts.insert(user_id, UserAccount::default());
        }
    }

    fn add_money(&mut self, user_id: ClientId, amount: Amount) -> (r: Result<(), AccountError>) {
        match self.accounts.get(&user_id) {
            None => {
                self.accounts.insert(
                    user_id,
                    UserAccount { available_amount: amount, held_amount: Amount::zero(), locked: false },
                );
                Ok(())
            },
            Some(account) => {
                let account = *account;
                if account.locked {
                    return Err(AccountError::AccountLocked);
                }
                match checked_add(account.available_amount, amount) {
                    Some(new_balance) => {
                        self.accounts.insert(
                            user_id,
                            UserAccount { available_amount: new_balance, ..account },
                        );
                        Ok(())
                    },
                    None => Err(AccountError::BalanceOverflow),
                }
            },
        }
    }

    fn withdraw_money(&mut self, user_id: ClientId, amount: Amount) -> (r: Result<(), AccountError>) {
        match self.accounts.get(&user_id) {
            None => Err(AccountError::AccountNotFound),
            Some(account) => {
                let account = *account;
                if account.locked {
                    return Err(AccountError::AccountLocked);
                }
                if less_than(account.available_amount, amount) {
                    return Err(AccountError::InsufficientMoney);
                }
                proof {
                    if account.available_amount.value() == amount.value() {
                        lemma_equal_values_subtract_to_zero(account.available_amount, amount);
                    }
                }
                match checked_sub(account.available_amount, amount) {
                    Some(new_balance) => {
                        self.accounts.insert(
                            user_id,
                            UserAccount { available_amount: new_balance, ..account },
                        );
                        Ok(())
                    },
                    None => Err(AccountError::BalanceOverflow),
                }
            },
        }
    }

    fn hold_money(&mut self, user_id: ClientId, amount: Amount) -> (r: Result<(), AccountError>) {
        match self.accounts.get(&user_id) {
            None => Err(AccountError::AccountNotFound),
            Some(account) => {
                let account = *account;
                if account.locked {
                    return Err(AccountError::AccountLocked);
                }
                if less_than(account.available_amount, amount) {
                    return Err(AccountError::InsufficientMoney);
                }
                let available = checked_sub(account.available_amount, amount);
                let held = checked_add(account.held_amount, amount);
                match (available, held) {
                    (Some(available), Some(held)) => {
                        self.accounts.insert(
                            user_id,
                            UserAccount { available_amount: available, held_amount: held, locked: false },
                        );
                        Ok(())
                    },
                    _ => Err(AccountError::BalanceOverflow),
                }
            },
        }
    }

    fn unhold_money(&mut self, user_id: ClientId, amount: Amount) -> (r: Result<(), AccountError>) {
        match self.accounts.get(&user_id) {
            None => Err(AccountError::AccountNotFound),
            Some(account) => {
                let account = *account;
                if account.locked {
                    return Err(AccountError::AccountLocked);
                }
                if less_than(account.held_amount, amount) {
                    return Err(AccountError::InsufficientMoney);
                }
                let held = checked_sub(account.held_amount, amount);
                let available = checked_add(account.available_amount, amount);
                match (held, available) {
                    (Some(held), Some(available)) => {
                        self.accounts.insert(
                            user_id,
                            UserAccount { available_amount: available, held_amount: held, locked: false },
                        );
                        Ok(())
                    },
                    _ => Err(AccountError::BalanceOverflow),
                }
            },
        }
    }

    fn block_account(&mut self, user_id: ClientId) -> (r: Result<(), AccountError>) {
        match self.accounts.get(&user_id) {
            None => Err(AccountError::AccountNotFound),
            Some(account) => {
                let account = *account;
                self.accounts.insert(user_id, UserAccount { locked: true, ..account });
                Ok(())
            },
        }
    }
}

} // verus!
