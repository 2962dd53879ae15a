use bank_ledger::context::{
    AccountOperationContext, AuditEvent, BankContext, BankOperationContext, MoneyTransferContext,
    MoneyTransferQueue,
};
use bank_ledger::domain::{
    Account, AccountOperation, AccountTransaction, BankOperation, TransferErrorKind,
};
use bank_ledger::roles::{AccountOperationLogger, BankOperationLogger};
use bank_ledger::store::AccountStore;

fn million_each() -> AccountStore {
    let mut accounts = AccountStore::new();
    accounts.insert(Account::new(7777, 1_000_000, false));
    accounts.insert(Account::new(8888, 1_000_000, false));
    accounts.insert(Account::new(9999, 1_000_000, false));
    accounts
}

fn account_leg(event: &AuditEvent) -> AccountOperationContext {
    match event {
        AuditEvent::AccountOperation(context) => *context,
        other => panic!("not an account operation: {:?}", other),
    }
}

fn bank_leg(event: &AuditEvent) -> BankOperationContext {
    match event {
        AuditEvent::BankOperation(context) => *context,
        other => panic!("not a bank operation: {:?}", other),
    }
}

#[test]
fn three_transfers_end_to_end() {
    let mut bank = BankContext::new(million_each(), MoneyTransferQueue::new());
    bank.account_transfer(MoneyTransferContext::new(42_000, 7777, 9999));
    bank.account_transfer(MoneyTransferContext::new(69_000, 8888, 9999));
    bank.account_transfer(MoneyTransferContext::new(96_000, 9999, 7777));
    assert_eq!(bank.pending(), 3);
    let events = bank.apply_a2a_transfers();
    assert_eq!(bank.pending(), 0);
    assert_eq!(bank.accounts().balance_of(7777), Some(1_054_000));
    assert_eq!(bank.accounts().balance_of(8888), Some(931_000));
    assert_eq!(bank.accounts().balance_of(9999), Some(1_015_000));
    assert_eq!(events.len(), 9);
    let transfers: Vec<BankOperationContext> = events
        .iter()
        .filter(|event| matches!(event, AuditEvent::BankOperation(_)))
        .map(bank_leg)
        .collect();
    assert_eq!(transfers.len(), 3);
    assert_eq!(transfers[0].amount, Some(42_000));
    assert_eq!(transfers[1].amount, Some(69_000));
    assert_eq!(transfers[2].amount, Some(96_000));
}

#[test]
fn three_transfers_give_three_exact_records() {
    let mut accounts = million_each();
    let first = MoneyTransferContext::new(42_000, 7777, 9999).transfer(&mut accounts).unwrap();
    let second = MoneyTransferContext::new(69_000, 8888, 9999).transfer(&mut accounts).unwrap();
    let third = MoneyTransferContext::new(96_000, 9999, 7777).transfer(&mut accounts).unwrap();
    for record in [first, second, third] {
        assert_eq!(
            record.source_balance_after() + record.amount(),
            record.source_balance_before()
        );
        assert_eq!(
            record.destination_balance_after() - record.amount(),
            record.destination_balance_before()
        );
    }
    assert_eq!(first.source_balance_after(), 958_000);
    assert_eq!(first.destination_balance_after(), 1_042_000);
    assert_eq!(second.source_balance_after(), 931_000);
    assert_eq!(second.destination_balance_after(), 1_111_000);
    assert_eq!(third.source_balance_after(), 1_015_000);
    assert_eq!(third.destination_balance_after(), 1_054_000);
    assert_eq!(accounts.balance_of(7777), Some(1_054_000));
    assert_eq!(accounts.balance_of(8888), Some(931_000));
    assert_eq!(accounts.balance_of(9999), Some(1_015_000));
}

#[test]
fn completed_transfer_emits_withdrawal_deposit_transfer() {
    let mut bank = BankContext::new(million_each(), MoneyTransferQueue::new());
    bank.account_transfer(MoneyTransferContext::new(42_000, 7777, 9999));
    let events = bank.apply_a2a_transfers();
    assert_eq!(events.len(), 3);
    let withdrawal = account_leg(&events[0]);
    assert_eq!(withdrawal.operation, AccountOperation::Withdrawal);
    assert_eq!(withdrawal.account_id, 7777);
    assert_eq!(withdrawal.amount, Some(42_000));
    assert_eq!(withdrawal.balance, Some(958_000));
    assert_eq!(withdrawal.balance_before(), Some(1_000_000));
    let deposit = account_leg(&events[1]);
    assert_eq!(deposit.operation, AccountOperation::Deposit);
    assert_eq!(deposit.account_id, 9999);
    assert_eq!(deposit.amount, Some(42_000));
    assert_eq!(deposit.balance, Some(1_042_000));
    assert_eq!(deposit.balance_before(), Some(1_000_000));
    let transfer = bank_leg(&events[2]);
    assert_eq!(transfer.operation, BankOperation::MoneyTransfer);
    assert_eq!(transfer.source_account_id, 7777);
    assert_eq!(transfer.destination_account_id, 9999);
    assert_eq!(transfer.amount, Some(42_000));
}

#[test]
fn queue_is_drained_first_in_first_out() {
    let mut accounts = AccountStore::new();
    accounts.insert(Account::new(1, 100, false));
    accounts.insert(Account::new(2, 0, false));
    let mut bank = BankContext::new(accounts, MoneyTransferQueue::new());
    bank.account_transfer(MoneyTransferContext::new(30, 1, 2));
    bank.account_transfer(MoneyTransferContext::new(50, 2, 1));
    let events = bank.apply_a2a_transfers();
    assert_eq!(events.len(), 6);
    let first_withdrawal = account_leg(&events[0]);
    assert_eq!(first_withdrawal.account_id, 1);
    assert_eq!(first_withdrawal.balance, Some(70));
    let first_deposit = account_leg(&events[1]);
    assert_eq!(first_deposit.account_id, 2);
    assert_eq!(first_deposit.balance, Some(30));
    assert_eq!(bank_leg(&events[2]).amount, Some(30));
    let second_withdrawal = account_leg(&events[3]);
    assert_eq!(second_withdrawal.account_id, 2);
    assert_eq!(second_withdrawal.balance, Some(-20));
    assert_eq!(second_withdrawal.balance_before(), Some(30));
    let second_deposit = account_leg(&events[4]);
    assert_eq!(second_deposit.account_id, 1);
    assert_eq!(second_deposit.balance, Some(120));
    assert_eq!(second_deposit.balance_before(), Some(70));
    assert_eq!(bank_leg(&events[5]).amount, Some(50));
    assert_eq!(bank.accounts().balance_of(1), Some(120));
    assert_eq!(bank.accounts().balance_of(2), Some(-20));
}

#[test]
fn order_of_the_queue_decides_which_transfer_fits() {
    let seed = |first: MoneyTransferContext, second: MoneyTransferContext| {
        let mut accounts = AccountStore::new();
        accounts.insert(Account::new(1, i64::MAX - 10, false));
        accounts.insert(Account::new(2, 100, false));
        let mut bank = BankContext::new(accounts, MoneyTransferQueue::new());
        bank.account_transfer(first);
        bank.account_transfer(second);
        let events = bank.apply_a2a_transfers();
        (bank, events)
    };
    let gives = MoneyTransferContext::new(20, 1, 2);
    let takes = MoneyTransferContext::new(20, 2, 1);
    let (bank, events) = seed(gives, takes);
    assert_eq!(events.len(), 6);
    assert_eq!(bank.accounts().balance_of(1), Some(i64::MAX - 10));
    assert_eq!(bank.accounts().balance_of(2), Some(100));
    let (bank, events) = seed(takes, gives);
    assert_eq!(events.len(), 4);
    assert!(matches!(events[0], AuditEvent::Failure { .. }));
    assert_eq!(bank.accounts().balance_of(1), Some(i64::MAX - 30));
    assert_eq!(bank.accounts().balance_of(2), Some(100));
}

#[test]
fn failed_transfer_does_not_halt_the_drain() {
    let mut bank = BankContext::new(million_each(), MoneyTransferQueue::new());
    let unknown = MoneyTransferContext::new(5, 1234, 7777);
    bank.account_transfer(unknown);
    bank.account_transfer(MoneyTransferContext::new(0, 7777, 8888));
    bank.account_transfer(MoneyTransferContext::new(10, 7777, 8888));
    let events = bank.apply_a2a_transfers();
    assert_eq!(bank.pending(), 0);
    assert_eq!(events.len(), 5);
    match &events[0] {
        AuditEvent::Failure { error, request } => {
            assert_eq!(error.kind(), TransferErrorKind::AccountNotFound);
            assert_eq!(error.account_id(), 1234);
            assert_eq!(error.message(), "account#1234 not found");
            assert_eq!(request.amount(), 5);
            assert_eq!(request.source_account_id(), 1234);
            assert_eq!(request.destination_account_id(), 7777);
        }
        other => panic!("not a failure: {:?}", other),
    }
    match &events[1] {
        AuditEvent::Failure { error, request } => {
            assert_eq!(error.kind(), TransferErrorKind::InvalidAmount);
            assert_eq!(error.account_id(), 7777);
            assert_eq!(request.amount(), 0);
        }
        other => panic!("not a failure: {:?}", other),
    }
    assert_eq!(account_leg(&events[2]).operation, AccountOperation::Withdrawal);
    assert_eq!(account_leg(&events[3]).operation, AccountOperation::Deposit);
    assert_eq!(bank_leg(&events[4]).amount, Some(10));
    assert_eq!(bank.accounts().balance_of(7777), Some(999_990));
    assert_eq!(bank.accounts().balance_of(8888), Some(1_000_010));
}

#[test]
fn enqueue_never_fails_and_changes_no_account() {
    let mut bank = BankContext::new(million_each(), MoneyTransferQueue::new());
    bank.account_transfer(MoneyTransferContext::new(-1, 1, 2));
    bank.account_transfer(MoneyTransferContext::new(0, 7777, 7777));
    assert_eq!(bank.pending(), 2);
    assert_eq!(bank.accounts().balance_of(7777), Some(1_000_000));
    assert_eq!(bank.accounts().len(), 3);
}

#[test]
fn next_transfer_is_the_oldest() {
    let mut bank = BankContext::new(million_each(), MoneyTransferQueue::new());
    bank.account_transfer(MoneyTransferContext::new(1, 7777, 8888));
    bank.account_transfer(MoneyTransferContext::new(2, 8888, 9999));
    let events = bank.apply_next_transfer().unwrap();
    assert_eq!(events.len(), 3);
    assert_eq!(bank_leg(&events[2]).amount, Some(1));
    assert_eq!(bank.pending(), 1);
    assert_eq!(bank.accounts().balance_of(7777), Some(999_999));
    assert_eq!(bank.accounts().balance_of(9999), Some(1_000_000));
    let events = bank.apply_next_transfer().unwrap();
    assert_eq!(bank_leg(&events[2]).amount, Some(2));
    assert_eq!(bank.pending(), 0);
}

#[test]
fn nothing_waits_in_an_empty_queue() {
    let mut bank = BankContext::new(million_each(), MoneyTransferQueue::new());
    assert!(bank.apply_next_transfer().is_none());
    assert!(bank.apply_a2a_transfers().is_empty());
    assert_eq!(bank.accounts().balance_of(7777), Some(1_000_000));
}

#[test]
fn bank_takes_a_queue_that_holds_transfers() {
    let mut queue = MoneyTransferQueue::new();
    queue.push_back(MoneyTransferContext::new(7, 7777, 8888));
    let mut bank = BankContext::new(million_each(), queue);
    assert_eq!(bank.pending(), 1);
    bank.apply_a2a_transfers();
    assert_eq!(bank.accounts().balance_of(8888), Some(1_000_007));
}

#[test]
fn account_logger_reads_each_side_of_the_record() {
    let record = AccountTransaction::new(120, 1, 380, 2, 190);
    let withdrawal =
        <BankContext as AccountOperationLogger>::log(&AccountOperation::Withdrawal, &record);
    assert_eq!(withdrawal.operation, AccountOperation::Withdrawal);
    assert_eq!(withdrawal.account_id, 1);
    assert_eq!(withdrawal.amount, Some(120));
    assert_eq!(withdrawal.balance, Some(380));
    assert_eq!(withdrawal.balance_before(), Some(500));
    let deposit = <BankContext as AccountOperationLogger>::log(&AccountOperation::Deposit, &record);
    assert_eq!(deposit.operation, AccountOperation::Deposit);
    assert_eq!(deposit.account_id, 2);
    assert_eq!(deposit.amount, Some(120));
    assert_eq!(deposit.balance, Some(190));
    assert_eq!(deposit.balance_before(), Some(70));
}

#[test]
fn bank_logger_reads_the_transfer() {
    let record = AccountTransaction::new(120, 1, 380, 2, 190);
    let entry = <BankContext as BankOperationLogger>::log(&BankOperation::MoneyTransfer, &record);
    assert_eq!(entry.operation, BankOperation::MoneyTransfer);
    assert_eq!(entry.source_account_id, 1);
    assert_eq!(entry.destination_account_id, 2);
    assert_eq!(entry.amount, Some(120));
}

#[test]
fn operation_contexts_keep_what_they_are_given() {
    let context = AccountOperationContext::new(AccountOperation::Deposit, 5, 10, 40);
    assert_eq!(context.operation, AccountOperation::Deposit);
    assert_eq!(context.account_id, 5);
    assert_eq!(context.amount, Some(10));
    assert_eq!(context.balance, Some(40));
    let context = BankOperationContext::new(10, 5, 6);
    assert_eq!(context.operation, BankOperation::MoneyTransfer);
    assert_eq!(context.source_account_id, 5);
    assert_eq!(context.destination_account_id, 6);
    assert_eq!(context.amount, Some(10));
}

#[test]
fn balance_before_is_checked() {
    let deposit = AccountOperationContext::new(AccountOperation::Deposit, 5, 10, 40);
    assert_eq!(deposit.balance_before(), Some(30));
    let withdrawal = AccountOperationContext::new(AccountOperation::Withdrawal, 5, 10, 40);
    assert_eq!(withdrawal.balance_before(), Some(50));
    let too_high = AccountOperationContext::new(AccountOperation::Withdrawal, 5, 1, i64::MAX);
    assert_eq!(too_high.balance_before(), None);
    let too_low = AccountOperationContext::new(AccountOperation::Deposit, 5, 1, i64::MIN);
    assert_eq!(too_low.balance_before(), None);
    let unknown = AccountOperationContext {
        operation: AccountOperation::Deposit,
        account_id: 5,
        amount: None,
        balance: Some(40),
    };
    assert_eq!(unknown.balance_before(), None);
}
