//! The contexts in which accounts act: one transfer between two accounts, and
//! the bank that queues transfers and drains the queue.

use vstd::prelude::*;
use vstd::pervasive::unreached;
use std::collections::VecDeque;
use crate::domain::{
    AccountOperation, AccountTransaction, AccountTransactionError, AccountView, BankOperation,
};
use crate::domain::BankOperation::MoneyTransfer;
use crate::laws::{
    lemma_completed_record, lemma_completed_transfer_conserves_total,
    lemma_destination_failure_keeps_debit, lemma_destination_failure_loses_amount,
    lemma_settle_ends, lemma_settle_preserves_accounts, lemma_source_failure_changes_nothing,
};
use crate::model::{
    advance, completes, drain, events_of, fails_on_destination, fails_on_source, leg_applied,
    settle, signed_amount, total_balance, AccountOperationView, AuditEventView, BankOperationView,
    Drained, Progress, TransferRequest, TransferStateView,
};
use crate::roles::{representable, AccountOperationLogger, BankOperationLogger};
use crate::store::AccountStore;

verus! {

/// What is audited of a deposit or a withdrawal: the account, the amount, and
/// the balance after the operation.
#[derive(Clone, Copy, Debug)]
pub struct AccountOperationContext {
    pub operation: AccountOperation,
    pub account_id: u64,
    pub amount: Option<i64>,
    pub balance: Option<i64>,
}

impl AccountOperationView {
    /// The balance before the operation, where the amount and the balance
    /// after are both known.
    pub open spec fn balance_before(self) -> Option<int> {
        match (self.amount, self.balance) {
            (Some(amount), Some(balance)) => Some(balance - signed_amount(self.operation, amount)),
            _ => None,
        }
    }
}

impl View for AccountOperationContext {
    type V = AccountOperationView;

    open spec fn view(&self) -> AccountOperationView {
        AccountOperationView {
            operation: self.operation,
            account_id: self.account_id,
            amount: match self.amount {
                Some(amount) => Some(amount as int),
                None => None,
            },
            balance: match self.balance {
                Some(balance) => Some(balance as int),
                None => None,
            },
        }
    }
}

impl AccountOperationContext {
    pub fn new(operation: AccountOperation, account_id: u64, amount: i64, balance: i64) -> (context:
        AccountOperationContext)
        ensures
            context@ == (AccountOperationView {
                operation,
                account_id,
                amount: Some(amount as int),
                balance: Some(balance as int),
            }),
    {
        AccountOperationContext {
            operation,
            account_id,
            amount: Some(amount),
            balance: Some(balance),
        }
    }

    /// The balance before the operation: the balance after, less a deposit or
    /// plus a withdrawal. `None` where the amount or the balance is not known,
    /// or where the balance before cannot be represented.
    pub fn balance_before(&self) -> (before: Option<i64>)
        ensures
            match before {
                Some(balance) => self@.balance_before() == Some(balance as int),
                None => match self@.balance_before() {
                    Some(balance) => !representable(balance),
                    None => true,
                },
            },
    {
        match (self.amount, self.balance) {
            (Some(amount), Some(balance)) => match self.operation {
                AccountOperation::Deposit => balance.checked_sub(amount),
                AccountOperation::Withdrawal => balance.checked_add(amount),
            },
            _ => None,
        }
    }
}

/// What is audited of a transfer as a whole: the amount and the two accounts.
#[derive(Clone, Copy, Debug)]
pub struct BankOperationContext {
    pub operation: BankOperation,
    pub source_account_id: u64,
    pub destination_account_id: u64,
    pub amount: Option<i64>,
}

impl View for BankOperationContext {
    type V = BankOperationView;

    open spec fn view(&self) -> BankOperationView {
        BankOperationView {
            operation: self.operation,
            source_account_id: self.source_account_id,
            destination_account_id: self.destination_account_id,
            amount: match self.amount {
                Some(amount) => Some(amount as int),
                None => None,
            },
        }
    }
}

impl BankOperationContext {
    pub fn new(amount: i64, source_account_id: u64, destination_account_id: u64) -> (context:
        BankOperationContext)
        ensures
            context@ == (BankOperationView {
                operation: MoneyTransfer,
                source_account_id,
                destination_account_id,
                amount: Some(amount as int),
            }),
    {
        BankOperationContext {
            operation: MoneyTransfer,
            source_account_id,
            destination_account_id,
            amount: Some(amount),
        }
    }
}

/// Where a transfer stands between its steps.
#[derive(Debug)]
pub enum TransferState {
    /// Nothing has been done yet.
    Pending,
    /// The source leg is done; the balance of the source after it is kept for
    /// the record.
    SourceDebited(i64),
    /// Both legs are done.
    Completed(AccountTransaction),
    /// A leg could not be applied.
    Failed(AccountTransactionError),
}

impl View for TransferState {
    type V = TransferStateView;

    open spec fn view(&self) -> TransferStateView {
        match self {
            TransferState::Pending => TransferStateView::Pending,
            TransferState::SourceDebited(balance) => TransferStateView::SourceDebited {
                source_balance_after: *balance as int,
            },
            TransferState::Completed(transaction) => TransferStateView::Completed {
                record: transaction@,
            },
            TransferState::Failed(error) => TransferStateView::Failed { error: error@ },
        }
    }
}

/// A transfer of money from one account to another, not yet applied.
#[derive(Clone, Copy, Debug)]
pub struct MoneyTransferContext {
    source_account_id: u64,
    destination_account_id: u64,
    amount: i64,
}

impl View for MoneyTransferContext {
    type V = TransferRequest;

    closed spec fn view(&self) -> TransferRequest {
        TransferRequest {
            amount: self.amount as int,
            source_account_id: self.source_account_id,
            destination_account_id: self.destination_account_id,
        }
    }
}

impl MoneyTransferContext {
    pub fn new(amount: i64, source_account_id: u64, destination_account_id: u64) -> (transfer:
        MoneyTransferContext)
        ensures
            transfer@ == (TransferRequest {
                amount: amount as int,
                source_account_id,
                destination_account_id,
            }),
    {
        MoneyTransferContext { source_account_id, destination_account_id, amount }
    }

    pub fn amount(&self) -> (amount: i64)
        ensures
            amount == self@.amount,
    {
        self.amount
    }

    pub fn source_account_id(&self) -> (id: u64)
        ensures
            id == self@.source_account_id,
    {
        self.source_account_id
    }

    pub fn destination_account_id(&self) -> (id: u64)
        ensures
            id == self@.destination_account_id,
    {
        self.destination_account_id
    }

    /// Takes the transfer one step further on the accounts.
    ///
    /// A pending transfer has its amount checked and its source debited; a
    /// transfer whose source is debited has its destination credited. A leg
    /// that cannot be applied fails the transfer, and what was done before
    /// stays done. A transfer that has ended is handed back as it is.
    ///
    /// The balance that a `SourceDebited` state carries is the one that the
    /// step from `Pending` returned: with the amount added back it must fit
    /// the machine's range, as the balance before the withdrawal did.
    pub fn advance(&self, state: TransferState, accounts: &mut AccountStore) -> (next:
        TransferState)
        requires
            state matches TransferState::SourceDebited(balance) ==> representable(
                balance + self@.amount,
            ),
        ensures
            advance(old(accounts)@, self@, state@) == (Progress {
                ledger: final(accounts)@,
                state: next@,
            }),
    {
        proof {
            accounts.lemma_within_range();
        }
        match state {
            TransferState::Pending => {
                match accounts.apply(
                    AccountOperation::Withdrawal,
                    self.source_account_id,
                    self.amount,
                ) {
                    Ok(balance) => TransferState::SourceDebited(balance),
                    Err(error) => TransferState::Failed(error),
                }
            },
            TransferState::SourceDebited(source_balance_after) => {
                match accounts.apply(
                    AccountOperation::Deposit,
                    self.destination_account_id,
                    self.amount,
                ) {
                    Ok(balance) => TransferState::Completed(
                        AccountTransaction::new(
                            self.amount,
                            self.source_account_id,
                            source_balance_after,
                            self.destination_account_id,
                            balance,
                        ),
                    ),
                    Err(error) => TransferState::Failed(error),
                }
            },
            TransferState::Completed(transaction) => TransferState::Completed(transaction),
            TransferState::Failed(error) => TransferState::Failed(error),
        }
    }

    /// Applies the transfer to the accounts, one leg after the other, and
    /// returns its record.
    ///
    /// The source is looked up, locked, debited and unlocked; then the
    /// destination is looked up, locked, credited and unlocked. The two legs
    /// are not one atomic step: where the destination leg fails, the source
    /// stays debited and nothing is rolled back. A transfer from an account to
    /// itself runs both legs on that account in turn.
    pub fn transfer(&mut self, accounts: &mut AccountStore) -> (outcome: Result<
        AccountTransaction,
        AccountTransactionError,
    >)
        ensures
            final(self)@ == old(self)@,
            // The accounts and the outcome are those of the model.
            final(accounts)@ == settle(old(accounts)@, old(self)@).ledger,
            match outcome {
                Ok(transaction) => settle(old(accounts)@, old(self)@).state == (
                TransferStateView::Completed { record: transaction@ }),
                Err(error) => settle(old(accounts)@, old(self)@).state == (
                TransferStateView::Failed { error: error@ }),
            },
            ({
                let request = old(self)@;
                let source = old(self)@.source_account_id;
                let destination = old(self)@.destination_account_id;
                let before = old(accounts)@;
                let after = final(accounts)@;
                // The transfer completes exactly where both legs can be
                // applied.
                &&& outcome is Ok <==> completes(before, request)
                // The record of a completed transfer is exact, and the sum of
                // all balances is as it was.
                &&& outcome matches Ok(transaction) ==> {
                    &&& transaction@.amount == request.amount
                    &&& transaction@.source_account_id == source
                    &&& transaction@.destination_account_id == destination
                    &&& transaction@.source_balance_after + transaction@.amount
                        == before[source].balance
                    &&& transaction@.destination_balance_after == after[destination].balance
                    &&& source != destination ==> {
                        &&& transaction@.destination_balance_after - transaction@.amount
                            == before[destination].balance
                        &&& transaction@.source_balance_after == after[source].balance
                    }
                    &&& total_balance(after) == total_balance(before)
                }
                // A failure on the source leg changes nothing; one on the
                // destination leg leaves the source debited.
                &&& outcome matches Err(error) ==> {
                    &&& fails_on_source(before, request) ==> {
                        &&& error@.account_id == source
                        &&& after == before
                    }
                    &&& fails_on_destination(before, request) ==> {
                        &&& error@.account_id == destination
                        &&& after == leg_applied(
                            before,
                            AccountOperation::Withdrawal,
                            source,
                            request.amount,
                        )
                        &&& total_balance(after) == total_balance(before) - request.amount
                    }
                }
                // No account is opened, closed or renumbered, and every lock
                // is left as it was found.
                &&& after.dom() == before.dom()
                &&& forall|id: u64| #[trigger]
                    before.contains_key(id) ==> {
                        &&& after[id].id == before[id].id
                        &&& after[id].locked == before[id].locked
                    }
            }),
    {
        proof {
            accounts.lemma_within_range();
            accounts.lemma_finite();
            lemma_settle_ends(accounts@, self@);
            lemma_settle_preserves_accounts(accounts@, self@);
            if completes(accounts@, self@) {
                lemma_completed_record(accounts@, self@);
                lemma_completed_transfer_conserves_total(accounts@, self@);
            }
            if fails_on_source(accounts@, self@) {
                lemma_source_failure_changes_nothing(accounts@, self@);
            }
            if fails_on_destination(accounts@, self@) {
                lemma_destination_failure_keeps_debit(accounts@, self@);
                lemma_destination_failure_loses_amount(accounts@, self@);
            }
        }
        let debited = self.advance(TransferState::Pending, accounts);
        match self.advance(debited, accounts) {
            TransferState::Completed(transaction) => Ok(transaction),
            TransferState::Failed(error) => Err(error),
            // Two steps end every transfer.
            TransferState::Pending | TransferState::SourceDebited(_) => unreached(),
        }
    }
}

/// An event for the audit logger. Events are plain data: how they are written
/// out is the logger's business.
#[derive(Debug)]
pub enum AuditEvent {
    /// One leg of a completed transfer.
    AccountOperation(AccountOperationContext),
    /// A completed transfer as a whole.
    BankOperation(BankOperationContext),
    /// A transfer that failed, with the request that it came from.
    Failure { error: AccountTransactionError, request: MoneyTransferContext },
}

impl View for AuditEvent {
    type V = AuditEventView;

    open spec fn view(&self) -> AuditEventView {
        match self {
            AuditEvent::AccountOperation(context) => AuditEventView::AccountOperation {
                leg: context@,
            },
            AuditEvent::BankOperation(context) => AuditEventView::BankOperation {
                transfer: context@,
            },
            AuditEvent::Failure { error, request } => AuditEventView::Failure {
                error: error@,
                request: request@,
            },
        }
    }
}

/// What a sequence of events stands for in contracts.
pub open spec fn events_view(events: Seq<AuditEvent>) -> Seq<AuditEventView> {
    events.map_values(|event: AuditEvent| event@)
}

/// The queue of transfers that wait to be applied, oldest first.
pub type MoneyTransferQueue = VecDeque<MoneyTransferContext>;

/// What a queue of transfers stands for in contracts.
pub open spec fn requests_view(queue: Seq<MoneyTransferContext>) -> Seq<TransferRequest> {
    queue.map_values(|transfer: MoneyTransferContext| transfer@)
}

/// A bank: the accounts, and the transfers that wait to be applied to them.
pub struct BankContext {
    accounts: AccountStore,
    transfer_queue: MoneyTransferQueue,
}

/// What a [`BankContext`] stands for in contracts.
pub struct BankView {
    pub accounts: Map<u64, AccountView>,
    pub queue: Seq<TransferRequest>,
}

impl View for BankContext {
    type V = BankView;

    closed spec fn view(&self) -> BankView {
        BankView { accounts: self.accounts@, queue: requests_view(self.transfer_queue@) }
    }
}

impl BankContext {
    pub fn new(accounts: AccountStore, transfer_queue: MoneyTransferQueue) -> (bank: BankContext)
        ensures
            bank@ == (BankView { accounts: accounts@, queue: requests_view(transfer_queue@) }),
    {
        BankContext { accounts, transfer_queue }
    }

    /// The accounts as they stand.
    pub fn accounts(&self) -> (accounts: &AccountStore)
        ensures
            accounts@ == self@.accounts,
    {
        &self.accounts
    }

    /// The number of transfers that wait.
    pub fn pending(&self) -> (count: usize)
        ensures
            count == self@.queue.len(),
    {
        self.transfer_queue.len()
    }

    /// Queues a transfer behind those that wait already. Nothing is checked
    /// here: what is wrong with a transfer shows when it is applied.
    pub fn account_transfer(&mut self, transfer: MoneyTransferContext)
        ensures
            final(self)@ == (BankView {
                accounts: old(self)@.accounts,
                queue: old(self)@.queue.push(transfer@),
            }),
    {
        self.transfer_queue.push_back(transfer);
        assert(requests_view(self.transfer_queue@) =~= requests_view(
            old(self).transfer_queue@,
        ).push(transfer@));
    }

    /// Applies the transfer that has waited longest and returns its events in
    /// the order in which they are to be logged: for a completed transfer the
    /// withdrawal, the deposit and the transfer itself; for a failed one the
    /// failure. Returns `None` where no transfer waits.
    pub fn apply_next_transfer(&mut self) -> (events: Option<Vec<AuditEvent>>)
        ensures
            match events {
                Some(events) => {
                    &&& old(self)@.queue.len() > 0
                    &&& final(self)@.accounts == settle(
                        old(self)@.accounts,
                        old(self)@.queue.first(),
                    ).ledger
                    &&& final(self)@.queue == old(self)@.queue.drop_first()
                    &&& events_view(events@) == events_of(
                        old(self)@.queue.first(),
                        settle(old(self)@.accounts, old(self)@.queue.first()).state,
                    )
                },
                None => old(self)@.queue.len() == 0 && final(self)@ == old(self)@,
            },
    {
        let mut money_transfer_context = match self.transfer_queue.pop_front() {
            Some(transfer) => transfer,
            None => {
                return None;
            },
        };
        assert(requests_view(self.transfer_queue@) =~= requests_view(
            old(self).transfer_queue@,
        ).drop_first());
        let request = money_transfer_context;
        let mut events: Vec<AuditEvent> = Vec::new();
        match money_transfer_context.transfer(&mut self.accounts) {
            Err(error) => {
                events.push(AuditEvent::Failure { error, request });
            },
            Ok(transaction) => {
                events.push(
                    AuditEvent::AccountOperation(
                        <BankContext as AccountOperationLogger>::log(
                            &AccountOperation::Withdrawal,
                            &transaction,
                        ),
                    ),
                );
                events.push(
                    AuditEvent::AccountOperation(
                        <BankContext as AccountOperationLogger>::log(
                            &AccountOperation::Deposit,
                            &transaction,
                        ),
                    ),
                );
                events.push(
                    AuditEvent::BankOperation(
                        <BankContext as BankOperationLogger>::log(&MoneyTransfer, &transaction),
                    ),
                );
            },
        }
        assert(events_view(events@) =~= events_of(
            old(self)@.queue.first(),
            settle(old(self)@.accounts, old(self)@.queue.first()).state,
        ));
        Some(events)
    }

    /// Drains the queue: applies every transfer that waits, oldest first,
    /// and returns the events of all of them in that order. A transfer that
    /// fails is audited and dropped, and the next one is applied all the same.
    pub fn apply_a2a_transfers(&mut self) -> (events: Vec<AuditEvent>)
        ensures
            final(self)@.queue.len() == 0,
            final(self)@.accounts == drain(old(self)@.accounts, old(self)@.queue).ledger,
            events_view(events@) == drain(old(self)@.accounts, old(self)@.queue).events,
    {
        let mut events: Vec<AuditEvent> = Vec::new();
        while self.transfer_queue.len() > 0
            invariant
                self@.queue.len() == self.transfer_queue@.len(),
                drain(old(self)@.accounts, old(self)@.queue) == (Drained {
                    ledger: drain(self@.accounts, self@.queue).ledger,
                    events: events_view(events@) + drain(self@.accounts, self@.queue).events,
                }),
            decreases self.transfer_queue@.len(),
        {
            let ghost before = self@;
            let ghost logged = events@;
            match self.apply_next_transfer() {
                Some(mut step) => {
                    let ghost added = events_view(step@);
                    events.append(&mut step);
                    proof {
                        let rest = drain(self@.accounts, self@.queue);
                        assert(events_view(events@) =~= events_view(logged) + added);
                        assert(drain(before.accounts, before.queue).events == added + rest.events);
                        assert(events_view(logged) + (added + rest.events) =~= (events_view(logged)
                            + added) + rest.events);
                    }
                },
                None => {},
            }
        }
        events
    }
}

} // verus!
