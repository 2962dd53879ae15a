//! The data of the ledger: accounts, transaction records, transfer errors and
//! the names of the audited operations.

use vstd::prelude::*;
use crate::text::{failure_message, failure_text};

verus! {

/// A bank account.
///
/// `balance` counts the smallest unit of money and may be negative: the ledger
/// enforces no floor. `locked` is the business lock, set while an operation is
/// in flight on the account.
#[derive(Debug)]
pub struct Account {
    pub(crate) id: u64,
    pub(crate) balance: i64,
    pub(crate) locked: bool,
}

/// What an [`Account`] stands for in contracts.
pub struct AccountView {
    pub id: u64,
    pub balance: int,
    pub locked: bool,
}

impl View for Account {
    type V = AccountView;

    open(crate) spec fn view(&self) -> AccountView {
        AccountView { id: self.id, balance: self.balance as int, locked: self.locked }
    }
}

impl Account {
    pub fn new(id: u64, balance: i64, locked: bool) -> (account: Account)
        ensures
            account@ == (AccountView { id, balance: balance as int, locked }),
    {
        return Account { id, balance, locked };
    }

    pub fn id(&self) -> (id: u64)
        ensures
            id == self@.id,
    {
        self.id
    }

    pub fn balance(&self) -> (balance: i64)
        ensures
            balance == self@.balance,
    {
        self.balance
    }

    pub fn locked(&self) -> (locked: bool)
        ensures
            locked == self@.locked,
    {
        self.locked
    }
}

/// The two operations that change one account.
#[derive(Clone, Copy, Debug, PartialEq, Eq, Structural)]
pub enum AccountOperation {
    Deposit,
    Withdrawal,
}

/// The operations that the bank performs between accounts.
#[derive(Clone, Copy, Debug, PartialEq, Eq, Structural)]
pub enum BankOperation {
    MoneyTransfer,
}

/// An operation that has a name under which it is audited.
pub trait OperationFormat {
    /// The name of the operation, as a sequence of characters.
    spec fn label(&self) -> Seq<char>;

    fn format(&self) -> (name: String)
        ensures
            name@ == self.label(),
    ;
}

impl OperationFormat for AccountOperation {
    open spec fn label(&self) -> Seq<char> {
        match self {
            AccountOperation::Deposit => "account:deposit"@,
            AccountOperation::Withdrawal => "account:withdrawal"@,
        }
    }

    fn format(&self) -> (name: String) {
        match *self {
            AccountOperation::Deposit => "account:deposit".to_owned(),
            AccountOperation::Withdrawal => "account:withdrawal".to_owned(),
        }
    }
}

impl OperationFormat for BankOperation {
    open spec fn label(&self) -> Seq<char> {
        match self {
            BankOperation::MoneyTransfer => "bank:money_transfer"@,
        }
    }

    fn format(&self) -> (name: String) {
        match *self {
            BankOperation::MoneyTransfer => "bank:money_transfer".to_owned(),
        }
    }
}

/// The record of a completed transfer: the amount, the two accounts, and the
/// balance of each after its leg.
///
/// The balances before are not stored. They are derived from the balances
/// after, and a record only exists where both can be represented.
#[derive(Clone, Copy, Debug)]
pub struct AccountTransaction {
    amount: i64,
    source_account_id: u64,
    source_account_balance: i64,
    destination_account_id: u64,
    destination_account_balance: i64,
}

/// What an [`AccountTransaction`] stands for in contracts.
pub struct TransactionView {
    pub amount: int,
    pub source_account_id: u64,
    pub source_balance_after: int,
    pub destination_account_id: u64,
    pub destination_balance_after: int,
}

impl TransactionView {
    /// The balance of the source account before the withdrawal.
    pub open spec fn source_balance_before(self) -> int {
        self.source_balance_after + self.amount
    }

    /// The balance of the destination account before the deposit.
    pub open spec fn destination_balance_before(self) -> int {
        self.destination_balance_after - self.amount
    }

    /// Both balances before the transfer fit the machine's range.
    pub open spec fn representable(self) -> bool {
        &&& i64::MIN <= self.source_balance_before() <= i64::MAX
        &&& i64::MIN <= self.destination_balance_before() <= i64::MAX
    }
}

impl View for AccountTransaction {
    type V = TransactionView;

    closed spec fn view(&self) -> TransactionView {
        TransactionView {
            amount: self.amount as int,
            source_account_id: self.source_account_id,
            source_balance_after: self.source_account_balance as int,
            destination_account_id: self.destination_account_id,
            destination_balance_after: self.destination_account_balance as int,
        }
    }
}

impl AccountTransaction {
    #[verifier::type_invariant]
    spec fn balances_before_representable(self) -> bool {
        self@.representable()
    }

    /// A record from the amount, the two accounts and their balances after
    /// the transfer. The balances before, which the record derives, must fit
    /// the machine's range.
    pub fn new(
        amount: i64,
        source_account_id: u64,
        source_account_balance: i64,
        destination_account_id: u64,
        destination_account_balance: i64,
    ) -> (transaction: AccountTransaction)
        requires
            i64::MIN <= source_account_balance + amount <= i64::MAX,
            i64::MIN <= destination_account_balance - amount <= i64::MAX,
        ensures
            transaction@ == (TransactionView {
                amount: amount as int,
                source_account_id,
                source_balance_after: source_account_balance as int,
                destination_account_id,
                destination_balance_after: destination_account_balance as int,
            }),
    {
        AccountTransaction {
            amount,
            source_account_id,
            source_account_balance,
            destination_account_id,
            destination_account_balance,
        }
    }

    pub fn amount(&self) -> (amount: i64)
        ensures
            amount == self@.amount,
    {
        self.amount
    }

    pub fn source_account_id(&self) -> (id: u64)
        ensures
            id == self@.source_account_id,
    {
        self.source_account_id
    }

    pub fn source_balance_before(&self) -> (balance: i64)
        ensures
            balance == self@.source_balance_before(),
            self@.representable(),
    {
        proof {
            use_type_invariant(self);
        }
        self.source_account_balance + self.amount
    }

    pub fn source_balance_after(&self) -> (balance: i64)
        ensures
            balance == self@.source_balance_after,
    {
        self.source_account_balance
    }

    pub fn destination_account_id(&self) -> (id: u64)
        ensures
            id == self@.destination_account_id,
    {
        self.destination_account_id
    }

    pub fn destination_balance_before(&self) -> (balance: i64)
        ensures
            balance == self@.destination_balance_before(),
            self@.representable(),
    {
        proof {
            use_type_invariant(self);
        }
        self.destination_account_balance - self.amount
    }

    pub fn destination_balance_after(&self) -> (balance: i64)
        ensures
            balance == self@.destination_balance_after,
    {
        self.destination_account_balance
    }
}

/// Why a transfer failed.
#[derive(Clone, Copy, Debug, PartialEq, Eq, Structural)]
pub enum TransferErrorKind {
    /// The amount of the transfer is zero or negative.
    InvalidAmount,
    /// The ledger holds no account under the id.
    AccountNotFound,
    /// The business lock of the account was already held.
    AccountLocked,
    /// The new balance of the account cannot be represented.
    BalanceOutOfRange,
}

/// A transfer that failed: why, on which account, and a message for people.
#[derive(Debug)]
pub struct AccountTransactionError {
    pub(crate) kind: TransferErrorKind,
    pub(crate) account_id: u64,
    pub(crate) message: String,
}

/// What an [`AccountTransactionError`] stands for in contracts.
pub struct ErrorView {
    pub kind: TransferErrorKind,
    pub account_id: u64,
    pub message: Seq<char>,
}

impl View for AccountTransactionError {
    type V = ErrorView;

    open(crate) spec fn view(&self) -> ErrorView {
        ErrorView { kind: self.kind, account_id: self.account_id, message: self.message@ }
    }
}

/// The error of the given kind on the given account, with the message that
/// the ledger writes for it.
pub open spec fn failure(kind: TransferErrorKind, account_id: u64) -> ErrorView {
    ErrorView { kind, account_id, message: failure_text(kind, account_id) }
}

impl AccountTransactionError {
    pub fn new(kind: TransferErrorKind, account_id: u64, message: String) -> (error:
        AccountTransactionError)
        ensures
            error@ == (ErrorView { kind, account_id, message: message@ }),
    {
        AccountTransactionError { kind, account_id, message }
    }

    /// The error of the given kind on the given account, with its message
    /// written out.
    pub fn of_kind(kind: TransferErrorKind, account_id: u64) -> (error: AccountTransactionError)
        ensures
            error@ == failure(kind, account_id),
    {
        AccountTransactionError::new(kind, account_id, failure_message(kind, account_id))
    }

    pub fn kind(&self) -> (kind: TransferErrorKind)
        ensures
            kind == self@.kind,
    {
        self.kind
    }

    pub fn account_id(&self) -> (account_id: u64)
        ensures
            account_id == self@.account_id,
    {
        self.account_id
    }

    pub fn message(&self) -> (message: &str)
        ensures
            message@ == self@.message,
    {
        self.message.as_str()
    }
}

} // verus!
