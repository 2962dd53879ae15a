//! The words of a transfer error: an account number in decimal, and the
//! sentence that says what went wrong with that account.

use vstd::prelude::*;
use vstd::string::StringExecFns;
use crate::domain::TransferErrorKind;

verus! {

/// The character that stands for one decimal digit.
pub open spec fn digit_char(digit: nat) -> char {
    if digit == 0 {
        '0'
    } else if digit == 1 {
        '1'
    } else if digit == 2 {
        '2'
    } else if digit == 3 {
        '3'
    } else if digit == 4 {
        '4'
    } else if digit == 5 {
        '5'
    } else if digit == 6 {
        '6'
    } else if digit == 7 {
        '7'
    } else if digit == 8 {
        '8'
    } else {
        '9'
    }
}

/// A number in decimal, most significant digit first, without leading zeros.
pub open spec fn decimal_text(number: nat) -> Seq<char>
    decreases number,
{
    if number < 10 {
        seq![digit_char(number)]
    } else {
        decimal_text(number / 10).push(digit_char(number % 10))
    }
}

/// What is said of the account after its number.
pub open spec fn failure_reason(kind: TransferErrorKind) -> Seq<char> {
    match kind {
        TransferErrorKind::InvalidAmount => " cannot send an amount that is not positive"@,
        TransferErrorKind::AccountNotFound => " not found"@,
        TransferErrorKind::AccountLocked => " is locked"@,
        TransferErrorKind::BalanceOutOfRange => " balance out of range"@,
    }
}

/// The message of a transfer error: `account#`, the account's number, and the
/// reason.
pub open spec fn failure_text(kind: TransferErrorKind, account_id: u64) -> Seq<char> {
    "account#"@ + decimal_text(account_id as nat) + failure_reason(kind)
}

fn digit_str(digit: u64) -> (text: &'static str)
    requires
        digit < 10,
    ensures
        text@ == seq![digit_char(digit as nat)],
{
    proof {
        reveal_strlit("0");
        reveal_strlit("1");
        reveal_strlit("2");
        reveal_strlit("3");
        reveal_strlit("4");
        reveal_strlit("5");
        reveal_strlit("6");
        reveal_strlit("7");
        reveal_strlit("8");
        reveal_strlit("9");
    }
    let text = if digit == 0 {
        "0"
    } else if digit == 1 {
        "1"
    } else if digit == 2 {
        "2"
    } else if digit == 3 {
        "3"
    } else if digit == 4 {
        "4"
    } else if digit == 5 {
        "5"
    } else if digit == 6 {
        "6"
    } else if digit == 7 {
        "7"
    } else if digit == 8 {
        "8"
    } else {
        "9"
    };
    assert(text@ =~= seq![digit_char(digit as nat)]);
    text
}

/// Writes a number in decimal.
pub fn decimal_string(number: u64) -> (text: String)
    ensures
        text@ == decimal_text(number as nat),
    decreases number,
{
    if number < 10 {
        digit_str(number).to_owned()
    } else {
        let mut text = decimal_string(number / 10);
        text.append(digit_str(number % 10));
        text
    }
}

/// Writes the message of a transfer error.
pub fn failure_message(kind: TransferErrorKind, account_id: u64) -> (message: String)
    ensures
        message@ == failure_text(kind, account_id),
{
    let mut message = "account#".to_owned();
    let number = decimal_string(account_id);
    message.append(number.as_str());
    match kind {
        TransferErrorKind::InvalidAmount => message.append(
            " cannot send an amount that is not positive",
        ),
        TransferErrorKind::AccountNotFound => message.append(" not found"),
        TransferErrorKind::AccountLocked => message.append(" is locked"),
        TransferErrorKind::BalanceOutOfRange => message.append(" balance out of range"),
    }
    message
}

} // verus!
