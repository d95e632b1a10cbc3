//! What an operation is handed: the accounts it works on, as plain values.

use vstd::prelude::*;
use crate::invoice::Invoice;
use crate::key::Key;

verus! {

/// A party to an operation: who it is, what it holds, and whether it signed.
#[derive(Clone, Copy, Debug)]
pub struct Party {
    /// The party's identity.
    pub key: Key,
    /// What the party can spend.
    pub lamports: u64,
    /// The party signed the request.
    pub is_signer: bool,
}

/// The time as the ledger tells it.
#[derive(Clone, Copy, Debug)]
pub struct Clock {
    pub unix_timestamp: i64,
}

/// The storage at one address: the invoice kept there, if any.
#[derive(Debug)]
pub struct InvoiceAccount {
    /// The address of the storage.
    pub address: Key,
    /// The invoice that the address holds.
    pub record: Option<Invoice>,
}

/// The accounts of an issue: the storage for the new invoice, the creditor who
/// issues it, and the debtor it is issued against.
#[derive(Debug)]
pub struct Issue {
    /// The program under which addresses are derived.
    pub program_id: Key,
    pub invoice: InvoiceAccount,
    pub creditor: Party,
    pub debtor: Party,
    pub clock: Clock,
    /// The most bytes that a memo may have; `None` for no limit.
    pub memo_limit: Option<usize>,
}

/// The accounts of a payment: the invoice, the debtor who pays, and the
/// creditor who is paid.
#[derive(Debug)]
pub struct Pay {
    /// The program under which addresses are derived.
    pub program_id: Key,
    pub invoice: InvoiceAccount,
    pub creditor: Party,
    pub debtor: Party,
}

/// The accounts of a confirmation: the invoice, the creditor who confirms, and
/// the debtor.
#[derive(Debug)]
pub struct ConfirmSettlement {
    /// The program under which addresses are derived.
    pub program_id: Key,
    pub invoice: InvoiceAccount,
    pub creditor: Party,
    pub debtor: Party,
    pub clock: Clock,
}

} // verus!
