//! The roles that an account plays in a transfer: it takes a deposit, gives a
//! withdrawal, and is locked for the time of either.

use vstd::prelude::*;
use crate::context::{AccountOperationContext, BankContext, BankOperationContext};
use crate::domain::{Account, AccountOperation, AccountTransaction, AccountView, BankOperation};
use crate::model::{account_operation_entry, bank_operation_entry};

verus! {

/// A balance that fits the machine's range.
pub open spec fn representable(balance: int) -> bool {
    i64::MIN <= balance <= i64::MAX
}

/// An account that takes a deposit.
pub trait CheckingAccount {
    /// Adds `amount` to the balance and returns the new balance. Where the new
    /// balance cannot be represented, the account is left as it was.
    fn deposit(account: &mut Account, amount: i64) -> (balance: Option<i64>)
        ensures
            match balance {
                Some(after) => {
                    &&& after == old(account)@.balance + amount
                    &&& final(account)@ == (AccountView { balance: after as int, ..old(account)@ })
                },
                None => {
                    &&& !representable(old(account)@.balance + amount)
                    &&& final(account)@ == old(account)@
                },
            },
    ;
}

impl CheckingAccount for Account {
    fn deposit(account: &mut Account, amount: i64) -> (balance: Option<i64>) {
        match account.balance.checked_add(amount) {
            Some(after) => {
                account.balance = after;
                Some(account.balance())
            },
            None => None,
        }
    }
}

/// An account that gives a withdrawal.
pub trait SavingsAccount {
    /// Takes `amount` from the balance and returns the new balance, which may
    /// be negative. Where the new balance cannot be represented, the account
    /// is left as it was.
    fn withdrawal(account: &mut Account, amount: i64) -> (balance: Option<i64>)
        ensures
            match balance {
                Some(after) => {
                    &&& after == old(account)@.balance - amount
                    &&& final(account)@ == (AccountView { balance: after as int, ..old(account)@ })
                },
                None => {
                    &&& !representable(old(account)@.balance - amount)
                    &&& final(account)@ == old(account)@
                },
            },
    ;
}

impl SavingsAccount for Account {
    fn withdrawal(account: &mut Account, amount: i64) -> (balance: Option<i64>) {
        match account.balance.checked_sub(amount) {
            Some(after) => {
                account.balance = after;
                Some(account.balance())
            },
            None => None,
        }
    }
}

/// An account with a business lock. The lock is not re-entrant: taking it
/// twice fails the second time.
pub trait SynchronizedAccount {
    /// Takes the lock. Returns whether it was free; if it was not, nothing
    /// changes.
    fn lock(account: &mut Account) -> (acquired: bool)
        ensures
            acquired == !old(account)@.locked,
            final(account)@ == (AccountView { locked: true, ..old(account)@ }),
    ;

    /// Releases the lock. Returns whether it was held; if it was not, nothing
    /// changes.
    fn unlock(account: &mut Account) -> (released: bool)
        ensures
            released == old(account)@.locked,
            final(account)@ == (AccountView { locked: false, ..old(account)@ }),
    ;
}

impl SynchronizedAccount for Account {
    fn lock(account: &mut Account) -> (acquired: bool) {
        if !account.locked() {
            account.locked = true;
            return true;
        }
        false
    }

    fn unlock(account: &mut Account) -> (released: bool) {
        if account.locked() {
            account.locked = false;
            return true;
        }
        false
    }
}

/// The bank as the auditor of account operations: deposits and withdrawals.
pub trait AccountOperationLogger {
    /// What is to be logged of one leg of a completed transfer: the account of
    /// that leg, the amount, and the balance after it. A withdrawal is the
    /// source's side of the transaction, a deposit the destination's.
    fn log(operation: &AccountOperation, transaction: &AccountTransaction) -> (entry:
        AccountOperationContext)
        ensures
            entry@ == account_operation_entry(*operation, transaction@),
    ;
}

impl AccountOperationLogger for BankContext {
    fn log(operation: &AccountOperation, transaction: &AccountTransaction) -> (entry:
        AccountOperationContext) {
        match operation {
            AccountOperation::Deposit => {
                AccountOperationContext::new(
                    *operation,
                    transaction.destination_account_id(),
                    transaction.amount(),
                    transaction.destination_balance_after(),
                )
            },
            AccountOperation::Withdrawal => {
                AccountOperationContext::new(
                    *operation,
                    transaction.source_account_id(),
                    transaction.amount(),
                    transaction.source_balance_after(),
                )
            },
        }
    }
}

/// The bank as the auditor of its own operations: transfers.
pub trait BankOperationLogger {
    /// What is to be logged of a completed transfer as a whole: the amount and
    /// the two accounts.
    fn log(operation: &BankOperation, transaction: &AccountTransaction) -> (entry:
        BankOperationContext)
        ensures
            entry@ == bank_operation_entry(*operation, transaction@),
    ;
}

impl BankOperationLogger for BankContext {
    fn log(operation: &BankOperation, transaction: &AccountTransaction) -> (entry:
        BankOperationContext) {
        match operation {
            BankOperation::MoneyTransfer => {
                BankOperationContext::new(
                    transaction.amount(),
                    transaction.source_account_id(),
                    transaction.destination_account_id(),
                )
            },
        }
    }
}

} // verus!
