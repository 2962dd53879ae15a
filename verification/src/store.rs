//! The account store: the accounts of the ledger, each under its id.

use vstd::prelude::*;
use std::collections::hash_map::Entry;
use std::collections::HashMap;
use crate::domain::{
    failure, Account, AccountOperation, AccountTransactionError, AccountView, ErrorView,
    TransferErrorKind,
};
use crate::model::{keyed, leg, within_range};
use crate::roles::{CheckingAccount, SavingsAccount, SynchronizedAccount};

verus! {

broadcast use vstd::std_specs::hash::group_hash_axioms;

/// The accounts of the ledger. No two accounts share an id.
pub struct AccountStore {
    accounts: HashMap<u64, Account>,
}

impl View for AccountStore {
    type V = Map<u64, AccountView>;

    closed spec fn view(&self) -> Map<u64, AccountView> {
        self.accounts@.map_values(|account: Account| account@)
    }
}

impl AccountStore {
    /// A store without accounts.
    pub fn new() -> (store: AccountStore)
        ensures
            store@ == Map::<u64, AccountView>::empty(),
    {
        let store = AccountStore { accounts: HashMap::new() };
        assert(store@ =~= Map::<u64, AccountView>::empty());
        store
    }

    /// A store holds finitely many accounts.
    pub proof fn lemma_finite(&self)
        ensures
            self@.dom().finite(),
    {
        assert(self@.dom() =~= self.accounts@.dom());
    }

    /// Every balance in a store fits the machine's range.
    pub proof fn lemma_within_range(&self)
        ensures
            within_range(self@),
    {
    }

    /// Files the account under its id. An account that was filed under that
    /// id before is replaced and handed back.
    pub fn insert(&mut self, account: Account) -> (replaced: Option<Account>)
        ensures
            final(self)@ == old(self)@.insert(account@.id, account@),
            match replaced {
                Some(before) => old(self)@.contains_key(account@.id) && before@ == old(self)@[account@.id],
                None => !old(self)@.contains_key(account@.id),
            },
            keyed(old(self)@) ==> keyed(final(self)@),
    {
        let id = account.id();
        let replaced = self.accounts.insert(id, account);
        assert(self@ =~= old(self)@.insert(account@.id, account@));
        replaced
    }

    /// Whether an account is filed under the id.
    pub fn contains(&self, account_id: u64) -> (found: bool)
        ensures
            found == self@.contains_key(account_id),
    {
        self.accounts.contains_key(&account_id)
    }

    /// The number of accounts.
    pub fn len(&self) -> (count: usize)
        ensures
            count == self@.dom().len(),
    {
        assert(self@.dom() =~= self.accounts@.dom());
        self.accounts.len()
    }

    /// The account under the id, to read.
    pub fn get(&self, account_id: u64) -> (found: Option<&Account>)
        ensures
            match found {
                Some(account) => self@.contains_key(account_id) && account@ == self@[account_id],
                None => !self@.contains_key(account_id),
            },
    {
        self.accounts.get(&account_id)
    }

    /// The balance of the account under the id.
    pub fn balance_of(&self, account_id: u64) -> (balance: Option<i64>)
        ensures
            match balance {
                Some(amount) => self@.contains_key(account_id) && amount == self@[account_id].balance,
                None => !self@.contains_key(account_id),
            },
    {
        match self.accounts.get(&account_id) {
            Some(account) => Some(account.balance()),
            None => None,
        }
    }

    /// The account under the id, for exclusive mutation. While the reference
    /// lives the store cannot be reached, and what the account holds when the
    /// reference ends is what the store holds under the id.
    pub fn get_mutable(&mut self, account_id: u64) -> (found: Result<
        &mut Account,
        AccountTransactionError,
    >)
        ensures
            match found {
                Ok(account) => {
                    &&& old(self)@.contains_key(account_id)
                    &&& account@ == old(self)@[account_id]
                    &&& final(self)@ == old(self)@.insert(account_id, final(account)@)
                },
                Err(error) => {
                    &&& !old(self)@.contains_key(account_id)
                    &&& error@ == failure(TransferErrorKind::AccountNotFound, account_id)
                    &&& final(self)@ == old(self)@
                },
            },
    {
        match self.accounts.entry(account_id) {
            Entry::Occupied(entry) => Ok(entry.into_mut()),
            Entry::Vacant(_) => {
                Err(AccountTransactionError::of_kind(TransferErrorKind::AccountNotFound, account_id))
            },
        }
    }

    /// One leg of a transfer: the account is looked up and locked, the
    /// operation is applied to its balance, and the lock is released. Returns
    /// the new balance.
    ///
    /// Where the account is missing, the amount is not positive, the lock is
    /// already held, or the new balance cannot be represented, the leg fails
    /// and the store is as it was.
    pub fn apply(&mut self, operation: AccountOperation, account_id: u64, amount: i64) -> (balance:
        Result<i64, AccountTransactionError>)
        ensures
            leg(old(self)@, operation, account_id, amount as int) == (
                final(self)@,
                match balance {
                    Ok(after) => Ok::<int, ErrorView>(after as int),
                    Err(error) => Err::<int, ErrorView>(error@),
                },
            ),
    {
        let account = match self.get_mutable(account_id) {
            Ok(account) => account,
            Err(error) => {
                return Err(error);
            },
        };
        if amount <= 0 {
            return Err(AccountTransactionError::of_kind(TransferErrorKind::InvalidAmount, account_id));
        }
        if !Account::lock(account) {
            return Err(AccountTransactionError::of_kind(TransferErrorKind::AccountLocked, account_id));
        }
        let moved = match operation {
            AccountOperation::Deposit => Account::deposit(account, amount),
            AccountOperation::Withdrawal => Account::withdrawal(account, amount),
        };
        Account::unlock(account);
        match moved {
            Some(after) => Ok(after),
            None => Err(
                AccountTransactionError::of_kind(TransferErrorKind::BalanceOutOfRange, account_id),
            ),
        }
    }
}

} // verus!
