//! The ways in which an operation on an invoice is refused.

use vstd::prelude::*;

verus! {

/// Why an operation was refused. A refused operation changes nothing.
#[derive(Clone, Copy, Debug, PartialEq, Eq, Structural)]
pub enum ErrorCode {
    /// The debtor holds less than the amount that the payment would move.
    NotEnoughSOL,
    /// Settlement was confirmed while something is still owed.
    UnsettledConfirmAttempt,
    /// Settlement was confirmed before.
    AlreadySettled,
    /// The caller did not sign, or the parties named are not those on the record.
    Unauthorized,
    /// The creditor and the debtor are one and the same.
    SameParty,
    /// The address already holds an invoice.
    AddressAlreadyInUse,
    /// The address is not the one that the parties and the project derive.
    InvalidAddress,
    /// The address holds no invoice.
    AccountNotInitialized,
    /// The memo is longer than the limit in force.
    MemoTooLong,
    /// The movement of funds did not go through.
    TransferFailed,
    /// The clock reads zero, which on a record stands for not settled.
    ZeroTimestamp,
}

impl ErrorCode {
    /// A short description of the refusal.
    pub fn message(&self) -> (text: &'static str)
        ensures
            text@ == match *self {
                ErrorCode::NotEnoughSOL => "Not enough SOL"@,
                ErrorCode::UnsettledConfirmAttempt => "Tried to confirm an unsettled invoice"@,
                ErrorCode::AlreadySettled => "Invoice already settled"@,
                ErrorCode::Unauthorized => "Caller is not the expected party"@,
                ErrorCode::SameParty => "Creditor and debtor are the same"@,
                ErrorCode::AddressAlreadyInUse => "Invoice already issued"@,
                ErrorCode::InvalidAddress => "Address does not belong to the invoice"@,
                ErrorCode::AccountNotInitialized => "No invoice at this address"@,
                ErrorCode::MemoTooLong => "Memo too long"@,
                ErrorCode::TransferFailed => "Transfer failed"@,
                ErrorCode::ZeroTimestamp => "Clock reads zero"@,
            },
    {
        match self {
            ErrorCode::NotEnoughSOL => "Not enough SOL",
            ErrorCode::UnsettledConfirmAttempt => "Tried to confirm an unsettled invoice",
            ErrorCode::AlreadySettled => "Invoice already settled",
            ErrorCode::Unauthorized => "Caller is not the expected party",
            ErrorCode::SameParty => "Creditor and debtor are the same",
            ErrorCode::AddressAlreadyInUse => "Invoice already issued",
            ErrorCode::InvalidAddress => "Address does not belong to the invoice",
            ErrorCode::AccountNotInitialized => "No invoice at this address",
            ErrorCode::MemoTooLong => "Memo too long",
            ErrorCode::TransferFailed => "Transfer failed",
            ErrorCode::ZeroTimestamp => "Clock reads zero",
        }
    }
}

} // verus!
