//! The ledger as mathematics: what one transfer does to a map of accounts,
//! step by step, and what draining a queue of transfers adds up to.

use vstd::prelude::*;
use crate::domain::{
    failure, AccountOperation, AccountView, BankOperation, ErrorView, TransactionView,
    TransferErrorKind,
};
use crate::roles::representable;

verus! {

/// A pending instruction to move `amount` from one account to another.
pub struct TransferRequest {
    pub amount: int,
    pub source_account_id: u64,
    pub destination_account_id: u64,
}

/// Where a transfer stands. It starts as `Pending`, is `SourceDebited` between
/// its two legs, and ends as `Completed` or `Failed`. A transfer that fails
/// after its source was debited leaves that debit in the ledger.
pub enum TransferStateView {
    Pending,
    SourceDebited { source_balance_after: int },
    Completed { record: TransactionView },
    Failed { error: ErrorView },
}

impl TransferStateView {
    /// The transfer has ended.
    pub open spec fn is_terminal(self) -> bool {
        self is Completed || self is Failed
    }
}

/// A ledger together with the state of the transfer that is being applied to
/// it.
pub struct Progress {
    pub ledger: Map<u64, AccountView>,
    pub state: TransferStateView,
}

/// Every account is filed under its own id.
pub open spec fn keyed(ledger: Map<u64, AccountView>) -> bool {
    forall|id: u64| #[trigger] ledger.contains_key(id) ==> ledger[id].id == id
}

/// Every balance fits the machine's range.
pub open spec fn within_range(ledger: Map<u64, AccountView>) -> bool {
    forall|id: u64| #[trigger] ledger.contains_key(id) ==> representable(ledger[id].balance)
}

/// The change that an operation of `amount` makes to a balance.
pub open spec fn signed_amount(operation: AccountOperation, amount: int) -> int {
    match operation {
        AccountOperation::Deposit => amount,
        AccountOperation::Withdrawal => -amount,
    }
}

/// Why one leg cannot be applied, if it cannot. The checks are made in this
/// order: the account is missing, the amount is not positive, the lock of the
/// account is held, the new balance does not fit the machine's range.
pub open spec fn leg_error(
    ledger: Map<u64, AccountView>,
    operation: AccountOperation,
    account_id: u64,
    amount: int,
) -> Option<TransferErrorKind> {
    if !ledger.contains_key(account_id) {
        Some(TransferErrorKind::AccountNotFound)
    } else if amount <= 0 {
        Some(TransferErrorKind::InvalidAmount)
    } else if ledger[account_id].locked {
        Some(TransferErrorKind::AccountLocked)
    } else if !representable(ledger[account_id].balance + signed_amount(operation, amount)) {
        Some(TransferErrorKind::BalanceOutOfRange)
    } else {
        None
    }
}

/// The ledger after one leg: the balance of one account has moved by the
/// amount, and nothing else has changed. The lock is taken and released
/// within the leg, so it is free again afterwards.
pub open spec fn leg_applied(
    ledger: Map<u64, AccountView>,
    operation: AccountOperation,
    account_id: u64,
    amount: int,
) -> Map<u64, AccountView> {
    ledger.insert(
        account_id,
        AccountView {
            balance: ledger[account_id].balance + signed_amount(operation, amount),
            ..ledger[account_id]
        },
    )
}

/// One leg, or the failure to apply it: the ledger afterwards, and the new
/// balance of the account or the reason why nothing was done.
pub open spec fn leg(
    ledger: Map<u64, AccountView>,
    operation: AccountOperation,
    account_id: u64,
    amount: int,
) -> (Map<u64, AccountView>, Result<int, ErrorView>) {
    match leg_error(ledger, operation, account_id, amount) {
        Some(kind) => (ledger, Err(failure(kind, account_id))),
        None => (
            leg_applied(ledger, operation, account_id, amount),
            Ok(ledger[account_id].balance + signed_amount(operation, amount)),
        ),
    }
}

/// One step of a transfer.
///
/// From `Pending` the source leg is applied, a withdrawal; from
/// `SourceDebited` the destination leg, a deposit. A leg that cannot be
/// applied ends the transfer as `Failed` and changes nothing itself. A
/// transfer that has ended stays as it is.
pub open spec fn advance(
    ledger: Map<u64, AccountView>,
    request: TransferRequest,
    state: TransferStateView,
) -> Progress {
    match state {
        TransferStateView::Pending => {
            let (after, outcome) = leg(
                ledger,
                AccountOperation::Withdrawal,
                request.source_account_id,
                request.amount,
            );
            Progress {
                ledger: after,
                state: match outcome {
                    Ok(source_balance_after) => TransferStateView::SourceDebited {
                        source_balance_after,
                    },
                    Err(error) => TransferStateView::Failed { error },
                },
            }
        },
        TransferStateView::SourceDebited { source_balance_after } => {
            let (after, outcome) = leg(
                ledger,
                AccountOperation::Deposit,
                request.destination_account_id,
                request.amount,
            );
            Progress {
                ledger: after,
                state: match outcome {
                    Ok(destination_balance_after) => TransferStateView::Completed {
                        record: TransactionView {
                            amount: request.amount,
                            source_account_id: request.source_account_id,
                            source_balance_after,
                            destination_account_id: request.destination_account_id,
                            destination_balance_after,
                        },
                    },
                    Err(error) => TransferStateView::Failed { error },
                },
            }
        },
        TransferStateView::Completed { .. } | TransferStateView::Failed { .. } => Progress {
            ledger,
            state,
        },
    }
}

/// A whole transfer: both steps, from `Pending`.
pub open spec fn settle(ledger: Map<u64, AccountView>, request: TransferRequest) -> Progress {
    let debited = advance(ledger, request, TransferStateView::Pending);
    advance(debited.ledger, request, debited.state)
}

/// A transfer completes exactly where both legs can be applied: the source
/// leg on the ledger as it is, the destination leg on the ledger that the
/// source leg leaves.
pub open spec fn completes(ledger: Map<u64, AccountView>, request: TransferRequest) -> bool {
    &&& leg_error(
        ledger,
        AccountOperation::Withdrawal,
        request.source_account_id,
        request.amount,
    ) is None
    &&& leg_error(
        leg_applied(
            ledger,
            AccountOperation::Withdrawal,
            request.source_account_id,
            request.amount,
        ),
        AccountOperation::Deposit,
        request.destination_account_id,
        request.amount,
    ) is None
}

/// A transfer fails on its source leg where that leg cannot be applied.
pub open spec fn fails_on_source(ledger: Map<u64, AccountView>, request: TransferRequest) -> bool {
    leg_error(
        ledger,
        AccountOperation::Withdrawal,
        request.source_account_id,
        request.amount,
    ) is Some
}

/// A transfer fails on its destination leg where the source leg was applied
/// and the destination leg cannot be.
pub open spec fn fails_on_destination(
    ledger: Map<u64, AccountView>,
    request: TransferRequest,
) -> bool {
    !fails_on_source(ledger, request) && !completes(ledger, request)
}

/// The payload of an account-operation event: the account, the amount, and
/// the balance after the operation.
pub struct AccountOperationView {
    pub operation: AccountOperation,
    pub account_id: u64,
    pub amount: Option<int>,
    pub balance: Option<int>,
}

/// The payload of a bank-operation event: the amount and the two accounts.
pub struct BankOperationView {
    pub operation: BankOperation,
    pub source_account_id: u64,
    pub destination_account_id: u64,
    pub amount: Option<int>,
}

/// An audit event.
pub enum AuditEventView {
    AccountOperation { leg: AccountOperationView },
    BankOperation { transfer: BankOperationView },
    Failure { error: ErrorView, request: TransferRequest },
}

/// What is audited of one leg of a completed transfer. A withdrawal is the
/// source's side of the record, a deposit the destination's.
pub open spec fn account_operation_entry(
    operation: AccountOperation,
    record: TransactionView,
) -> AccountOperationView {
    match operation {
        AccountOperation::Deposit => AccountOperationView {
            operation,
            account_id: record.destination_account_id,
            amount: Some(record.amount),
            balance: Some(record.destination_balance_after),
        },
        AccountOperation::Withdrawal => AccountOperationView {
            operation,
            account_id: record.source_account_id,
            amount: Some(record.amount),
            balance: Some(record.source_balance_after),
        },
    }
}

/// What is audited of a completed transfer as a whole.
pub open spec fn bank_operation_entry(
    operation: BankOperation,
    record: TransactionView,
) -> BankOperationView {
    BankOperationView {
        operation,
        source_account_id: record.source_account_id,
        destination_account_id: record.destination_account_id,
        amount: Some(record.amount),
    }
}

/// The events of one request, in the order in which they are emitted: for a
/// completed transfer the withdrawal, the deposit and the transfer; for a
/// failed one the failure alone.
pub open spec fn events_of(request: TransferRequest, state: TransferStateView) -> Seq<
    AuditEventView,
> {
    match state {
        TransferStateView::Completed { record } => seq![
            AuditEventView::AccountOperation {
                leg: account_operation_entry(AccountOperation::Withdrawal, record),
            },
            AuditEventView::AccountOperation {
                leg: account_operation_entry(AccountOperation::Deposit, record),
            },
            AuditEventView::BankOperation {
                transfer: bank_operation_entry(BankOperation::MoneyTransfer, record),
            },
        ],
        TransferStateView::Failed { error } => seq![AuditEventView::Failure { error, request }],
        _ => Seq::empty(),
    }
}

/// A ledger together with the events that led to it.
pub struct Drained {
    pub ledger: Map<u64, AccountView>,
    pub events: Seq<AuditEventView>,
}

/// Draining a queue: each request is settled in turn, first in first out, on
/// the ledger that the requests before it left, and its events follow theirs.
/// A failed request changes nothing of this: the next one is settled all the
/// same.
pub open spec fn drain(ledger: Map<u64, AccountView>, queue: Seq<TransferRequest>) -> Drained
    decreases queue.len(),
{
    if queue.len() == 0 {
        Drained { ledger, events: Seq::empty() }
    } else {
        let head = settle(ledger, queue.first());
        let rest = drain(head.ledger, queue.drop_first());
        Drained { ledger: rest.ledger, events: events_of(queue.first(), head.state) + rest.events }
    }
}

/// The sum of all balances of a ledger with finitely many accounts.
pub open spec fn total_balance(ledger: Map<u64, AccountView>) -> int
    decreases ledger.dom().len(),
    when ledger.dom().finite()
{
    if ledger.dom().is_empty() {
        0
    } else {
        let id = ledger.dom().choose();
        ledger[id].balance + total_balance(ledger.remove(id))
    }
}

} // verus!
