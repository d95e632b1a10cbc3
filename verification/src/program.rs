//! The three operations on an invoice: issue, pay, confirm settlement.
//!
//! Each operation checks its guards in a fixed order and is refused with the
//! error of the first guard that fails, leaving everything as it was. Only
//! when every guard holds does it change the record.

use vstd::prelude::*;
use crate::accounts::{ConfirmSettlement, InvoiceAccount, Issue, Party, Pay};
use crate::address::{
    canonical_address, derived_address, find_invoice_address, invoice_address,
};
use crate::error::ErrorCode;
use crate::invoice::{text_bytes, transfer_amount, Invoice};
use crate::key::Key;
use crate::system::{is_transfer, transfer, Instruction};

verus! {

/// How the movement of funds that a payment ordered has ended.
#[derive(Clone, Copy, Debug, PartialEq, Eq, Structural)]
pub enum Transfer {
    /// The funds have moved.
    Completed,
    /// The funds have not moved.
    Failed,
}

/// The address is the one that the record's parties, project and bump derive.
pub open spec fn derives(program_id: Key, address: Key, record: Invoice) -> bool {
    derived_address(
        record.creditor@,
        record.debtor@,
        text_bytes(record.project_id@),
        record.bump,
        program_id@,
    ) == Some(address@)
}

/// The first reason, if any, for which `caller` may not act on the invoice as
/// one of its parties: there is no invoice; the caller did not sign; the
/// parties named are not those on the record; the address is not the record's.
pub open spec fn access_guard(
    program_id: Key,
    invoice: InvoiceAccount,
    caller: Party,
    creditor: Party,
    debtor: Party,
) -> Option<ErrorCode> {
    match invoice.record {
        None => Some(ErrorCode::AccountNotInitialized),
        Some(record) => {
            if !caller.is_signer {
                Some(ErrorCode::Unauthorized)
            } else if record.creditor@ != creditor.key@ || record.debtor@ != debtor.key@ {
                Some(ErrorCode::Unauthorized)
            } else if !derives(program_id, invoice.address, record) {
                Some(ErrorCode::InvalidAddress)
            } else {
                None
            }
        },
    }
}

/// Checks that `caller` may act on the invoice as one of its parties.
pub fn check_access(
    program_id: &Key,
    invoice: &InvoiceAccount,
    caller: &Party,
    creditor: &Party,
    debtor: &Party,
) -> (r: Result<(), ErrorCode>)
    ensures
        r == match access_guard(*program_id, *invoice, *caller, *creditor, *debtor) {
            Some(e) => Err::<(), ErrorCode>(e),
            None => Ok::<(), ErrorCode>(()),
        },
{
    match &invoice.record {
        None => Err(ErrorCode::AccountNotInitialized),
        Some(record) => {
            if !caller.is_signer {
                return Err(ErrorCode::Unauthorized);
            }
            if !record.creditor.same(&creditor.key) || !record.debtor.same(&debtor.key) {
                return Err(ErrorCode::Unauthorized);
            }
            let project_id = record.project_id.as_str();
            match invoice_address(&creditor.key, &debtor.key, project_id, record.bump, program_id) {
                None => Err(ErrorCode::InvalidAddress),
                Some(derived) => {
                    if derived.same(&invoice.address) {
                        Ok(())
                    } else {
                        Err(ErrorCode::InvalidAddress)
                    }
                },
            }
        },
    }
}

/// The first reason, if any, for which a payment of `amount` is refused: the
/// debtor may not act on the invoice; the invoice is settled; the debtor holds
/// less than the payment would move.
pub open spec fn pay_guard(ctx: Pay, amount: u64) -> Option<ErrorCode> {
    match access_guard(ctx.program_id, ctx.invoice, ctx.debtor, ctx.creditor, ctx.debtor) {
        Some(e) => Some(e),
        None => {
            let record = ctx.invoice.record->0;
            if record.confirmed_at != 0 {
                Some(ErrorCode::AlreadySettled)
            } else if ctx.debtor.lamports < transfer_amount(amount, record.balance) {
                Some(ErrorCode::NotEnoughSOL)
            } else {
                None
            }
        },
    }
}

/// The first step of a payment of `amount`: what it has to move, as an
/// instruction for the caller to carry out. The instruction moves, from the
/// debtor to the creditor, the amount asked for but no more than is owed. It
/// is refused exactly when `pay` refuses the payment whatever became of the
/// funds. Nothing is recorded yet.
pub fn transfer_order(ctx: &Pay, amount: u64) -> (r: Result<Instruction, ErrorCode>)
    ensures
        match pay_guard(*ctx, amount) {
            Some(e) => r == Err::<Instruction, ErrorCode>(e),
            None => r matches Ok(ix) && is_transfer(
                ix,
                ctx.debtor.key@,
                ctx.creditor.key@,
                transfer_amount(amount, ctx.invoice.record->0.balance),
            ),
        },
{
    match check_access(&ctx.program_id, &ctx.invoice, &ctx.debtor, &ctx.creditor, &ctx.debtor) {
        Err(e) => Err(e),
        Ok(()) => match &ctx.invoice.record {
            None => Err(ErrorCode::AccountNotInitialized),
            Some(record) => {
                if record.confirmed_at != 0 {
                    return Err(ErrorCode::AlreadySettled);
                }
                let lamports = record.transfer_amount(amount);
                if ctx.debtor.lamports < lamports {
                    Err(ErrorCode::NotEnoughSOL)
                } else {
                    Ok(transfer(&ctx.debtor.key, &ctx.creditor.key, lamports))
                }
            },
        },
    }
}

/// What a payment of `amount` does, given how the movement of funds ended.
/// A refused payment, or one whose funds did not move, changes nothing. One
/// whose funds moved lowers the balance by what was moved, and returns it. A
/// payment on a settled invoice is always refused.
pub open spec fn pay_spec(
    pre: Pay,
    post: Pay,
    amount: u64,
    transfer: Transfer,
    r: Result<u64, ErrorCode>,
) -> bool {
    match pay_guard(pre, amount) {
        Some(e) => r == Err::<u64, ErrorCode>(e) && post == pre,
        None => match transfer {
            Transfer::Failed => r == Err::<u64, ErrorCode>(ErrorCode::TransferFailed) && post
                == pre,
            Transfer::Completed => {
                let record = pre.invoice.record->0;
                let moved = transfer_amount(amount, record.balance);
                &&& r == Ok::<u64, ErrorCode>(moved)
                &&& post == (Pay {
                    invoice: InvoiceAccount {
                        record: Some(
                            Invoice { balance: (record.balance - moved) as u64, ..record },
                        ),
                        ..pre.invoice
                    },
                    ..pre
                })
            },
        },
    }
}

/// The second step of a payment of `amount` by the debtor: records it, once
/// the instruction of `transfer_order` has been carried out and `transfer`
/// says how that ended. Returns what was moved.
pub fn pay(ctx: &mut Pay, amount: u64, transfer: Transfer) -> (r: Result<u64, ErrorCode>)
    ensures
        pay_spec(*old(ctx), *final(ctx), amount, transfer, r),
{
    match check_access(&ctx.program_id, &ctx.invoice, &ctx.debtor, &ctx.creditor, &ctx.debtor) {
        Err(e) => Err(e),
        Ok(()) => match &mut ctx.invoice.record {
            None => Err(ErrorCode::AccountNotInitialized),
            Some(record) => {
                if record.confirmed_at != 0 {
                    return Err(ErrorCode::AlreadySettled);
                }
                let lamports = record.transfer_amount(amount);
                if ctx.debtor.lamports < lamports {
                    return Err(ErrorCode::NotEnoughSOL);
                }
                match transfer {
                    Transfer::Failed => Err(ErrorCode::TransferFailed),
                    Transfer::Completed => {
                        record.balance = record.balance - lamports;
                        Ok(lamports)
                    },
                }
            },
        },
    }
}

/// The first reason, if any, for which an issue is refused: the creditor did
/// not sign; the creditor is the debtor; the storage is not at the canonical
/// address of the parties and the project; the storage already holds an
/// invoice; the bump is not the canonical one; the memo is over the limit.
pub open spec fn issue_guard(
    ctx: Issue,
    bump: u8,
    memo: Seq<char>,
    project_id: Seq<char>,
) -> Option<ErrorCode> {
    let canonical = canonical_address(
        ctx.creditor.key@,
        ctx.debtor.key@,
        text_bytes(project_id),
        ctx.program_id@,
    );
    if !ctx.creditor.is_signer {
        Some(ErrorCode::Unauthorized)
    } else if ctx.creditor.key@ == ctx.debtor.key@ {
        Some(ErrorCode::SameParty)
    } else if !(canonical matches Some((address, _)) && address == ctx.invoice.address@) {
        Some(ErrorCode::InvalidAddress)
    } else if ctx.invoice.record is Some {
        Some(ErrorCode::AddressAlreadyInUse)
    } else if !(canonical matches Some((_, canonical_bump)) && canonical_bump == bump) {
        Some(ErrorCode::InvalidAddress)
    } else if ctx.memo_limit matches Some(limit) && text_bytes(memo).len() > limit {
        Some(ErrorCode::MemoTooLong)
    } else {
        None
    }
}

/// What an issue does. A refused issue changes nothing. An accepted one fills
/// the storage with a record of the parties, the balance, the memo and the
/// project, issued now and not yet settled, and returns the address of the
/// storage as the handle of the invoice.
pub open spec fn issue_spec(
    pre: Issue,
    post: Issue,
    bump: u8,
    balance: u64,
    memo: String,
    project_id: String,
    r: Result<Key, ErrorCode>,
) -> bool {
    match issue_guard(pre, bump, memo@, project_id@) {
        Some(e) => r == Err::<Key, ErrorCode>(e) && post == pre,
        None => {
            &&& r == Ok::<Key, ErrorCode>(pre.invoice.address)
            &&& post == (Issue {
                invoice: InvoiceAccount {
                    record: Some(
                        Invoice {
                            project_id,
                            creditor: pre.creditor.key,
                            debtor: pre.debtor.key,
                            balance,
                            memo,
                            issued_at: pre.clock.unix_timestamp,
                            confirmed_at: 0,
                            bump,
                        },
                    ),
                    ..pre.invoice
                },
                ..pre
            })
        },
    }
}

/// Issues an invoice of `balance` by the creditor against the debtor.
pub fn issue(ctx: &mut Issue, bump: u8, balance: u64, memo: String, project_id: String) -> (r:
    Result<Key, ErrorCode>)
    ensures
        issue_spec(*old(ctx), *final(ctx), bump, balance, memo, project_id, r),
{
    if !ctx.creditor.is_signer {
        return Err(ErrorCode::Unauthorized);
    }
    if ctx.creditor.key.same(&ctx.debtor.key) {
        return Err(ErrorCode::SameParty);
    }
    let canonical_bump = match find_invoice_address(
        &ctx.creditor.key,
        &ctx.debtor.key,
        project_id.as_str(),
        &ctx.program_id,
    ) {
        None => {
            return Err(ErrorCode::InvalidAddress);
        },
        Some((address, canonical_bump)) => {
            if !address.same(&ctx.invoice.address) {
                return Err(ErrorCode::InvalidAddress);
            }
            canonical_bump
        },
    };
    if ctx.invoice.record.is_some() {
        return Err(ErrorCode::AddressAlreadyInUse);
    }
    if canonical_bump != bump {
        return Err(ErrorCode::InvalidAddress);
    }
    if let Some(limit) = ctx.memo_limit {
        if memo.as_str().as_bytes().len() > limit {
            return Err(ErrorCode::MemoTooLong);
        }
    }
    ctx.invoice.record = Some(
        Invoice {
            project_id,
            creditor: ctx.creditor.key,
            debtor: ctx.debtor.key,
            balance,
            memo,
            issued_at: ctx.clock.unix_timestamp,
            confirmed_at: 0,
            bump,
        },
    );
    Ok(ctx.invoice.address)
}

/// The first reason, if any, for which a confirmation is refused: the creditor
/// may not act on the invoice; settlement was confirmed before; something is
/// still owed; the clock reads zero, which would leave the record unsettled.
pub open spec fn confirm_guard(ctx: ConfirmSettlement) -> Option<ErrorCode> {
    match access_guard(ctx.program_id, ctx.invoice, ctx.creditor, ctx.creditor, ctx.debtor) {
        Some(e) => Some(e),
        None => {
            let record = ctx.invoice.record->0;
            if record.confirmed_at != 0 {
                Some(ErrorCode::AlreadySettled)
            } else if record.balance > 0 {
                Some(ErrorCode::UnsettledConfirmAttempt)
            } else if ctx.clock.unix_timestamp == 0 {
                Some(ErrorCode::ZeroTimestamp)
            } else {
                None
            }
        },
    }
}

/// What a confirmation does. A refused one changes nothing. An accepted one
/// stamps the record with the time of the confirmation, which is not zero, so
/// that the record is settled from then on.
pub open spec fn confirm_spec(
    pre: ConfirmSettlement,
    post: ConfirmSettlement,
    r: Result<(), ErrorCode>,
) -> bool {
    match confirm_guard(pre) {
        Some(e) => r == Err::<(), ErrorCode>(e) && post == pre,
        None => {
            let record = pre.invoice.record->0;
            &&& r == Ok::<(), ErrorCode>(())
            &&& post == (ConfirmSettlement {
                invoice: InvoiceAccount {
                    record: Some(
                        Invoice { confirmed_at: pre.clock.unix_timestamp, ..record },
                    ),
                    ..pre.invoice
                },
                ..pre
            })
        },
    }
}

/// Confirms, by the creditor, that the invoice is settled.
pub fn confirm_settlement(ctx: &mut ConfirmSettlement) -> (r: Result<(), ErrorCode>)
    ensures
        confirm_spec(*old(ctx), *final(ctx), r),
{
    match check_access(&ctx.program_id, &ctx.invoice, &ctx.creditor, &ctx.creditor, &ctx.debtor) {
        Err(e) => Err(e),
        Ok(()) => match &mut ctx.invoice.record {
            None => Err(ErrorCode::AccountNotInitialized),
            Some(record) => {
                if record.confirmed_at != 0 {
                    return Err(ErrorCode::AlreadySettled);
                }
                if record.balance > 0 {
                    return Err(ErrorCode::UnsettledConfirmAttempt);
                }
                if ctx.clock.unix_timestamp == 0 {
                    return Err(ErrorCode::ZeroTimestamp);
                }
                record.confirmed_at = ctx.clock.unix_timestamp;
                Ok(())
            },
        },
    }
}

} // verus!
