//! The invoice record and what holds of it throughout its life.

use vstd::prelude::*;
use crate::key::Key;

verus! {

/// One invoice: what a debtor owes a creditor for a project.
#[derive(Debug)]
pub struct Invoice {
    /// The project that the invoice is for; part of what derives its address.
    pub project_id: String,
    /// The party that is owed.
    pub creditor: Key,
    /// The party that owes.
    pub debtor: Key,
    /// What is still owed.
    pub balance: u64,
    /// A note set when the invoice was issued.
    pub memo: String,
    /// When the invoice was issued.
    pub issued_at: i64,
    /// When settlement was confirmed; zero until then.
    pub confirmed_at: i64,
    /// The bump under which the address was derived.
    pub bump: u8,
}

/// An invoice as a mathematical value.
pub struct InvoiceView {
    pub project_id: Seq<char>,
    pub creditor: Seq<u8>,
    pub debtor: Seq<u8>,
    pub balance: u64,
    pub memo: Seq<char>,
    pub issued_at: i64,
    pub confirmed_at: i64,
    pub bump: u8,
}

impl View for Invoice {
    type V = InvoiceView;

    open spec fn view(&self) -> InvoiceView {
        InvoiceView {
            project_id: self.project_id@,
            creditor: self.creditor@,
            debtor: self.debtor@,
            balance: self.balance,
            memo: self.memo@,
            issued_at: self.issued_at,
            confirmed_at: self.confirmed_at,
            bump: self.bump,
        }
    }
}

/// The bytes in which a text is stored and fed to the derivation of an address.
pub open spec fn text_bytes(text: Seq<char>) -> Seq<u8> {
    vstd::utf8::encode_utf8(text)
}

/// What one payment moves: the amount asked for, but no more than is owed.
pub open spec fn transfer_amount(amount: u64, balance: u64) -> u64 {
    if amount <= balance {
        amount
    } else {
        balance
    }
}

/// What payments of `amounts`, one after the other, move in all when `balance`
/// is owed before the first.
pub open spec fn total_moved(balance: u64, amounts: Seq<u64>) -> int
    decreases amounts.len(),
{
    if amounts.len() == 0 {
        0
    } else {
        let moved = transfer_amount(amounts[0], balance);
        moved + total_moved((balance - moved) as u64, amounts.drop_first())
    }
}

/// The sum of `amounts`.
pub open spec fn total(amounts: Seq<u64>) -> int
    decreases amounts.len(),
{
    if amounts.len() == 0 {
        0
    } else {
        amounts[0] + total(amounts.drop_first())
    }
}

impl InvoiceView {
    /// Settlement has been confirmed.
    pub open spec fn is_settled(self) -> bool {
        self.confirmed_at != 0
    }

    /// The parties are two, and a settled invoice owes nothing.
    pub open spec fn wf(self) -> bool {
        &&& self.creditor != self.debtor
        &&& self.is_settled() ==> self.balance == 0
    }

    /// The invoice after a payment of `amount` has been asked for and moved.
    pub open spec fn paid(self, amount: u64) -> InvoiceView {
        InvoiceView {
            balance: (self.balance - transfer_amount(amount, self.balance)) as u64,
            ..self
        }
    }

    /// The invoice after payments of `amounts` have been asked for and moved, one
    /// after the other.
    pub open spec fn paid_all(self, amounts: Seq<u64>) -> InvoiceView
        decreases amounts.len(),
    {
        if amounts.len() == 0 {
            self
        } else {
            self.paid(amounts[0]).paid_all(amounts.drop_first())
        }
    }

    /// The invoice after settlement has been confirmed at `now`.
    pub open spec fn confirmed(self, now: i64) -> InvoiceView {
        InvoiceView { confirmed_at: now, ..self }
    }
}

/// The bytes of a record that do not depend on its strings: a tag of 8, the two
/// parties, the balance, the two timestamps, the bump, and a length prefix of 4
/// for each string.
pub const FIXED_SPACE: usize = 105;

/// The storage that a record with a memo and a project id of the given byte
/// lengths needs.
pub open spec fn record_space(memo_len: nat, project_id_len: nat) -> nat {
    8 + 32 + 32 + 8 + (4 + memo_len) + 8 + 8 + 1 + (4 + project_id_len)
}

impl Invoice {
    /// What a payment request of `amount` on this record moves.
    pub fn transfer_amount(&self, amount: u64) -> (lamports: u64)
        ensures
            lamports == transfer_amount(amount, self.balance),
            lamports <= self.balance,
            lamports <= amount,
    {
        if amount <= self.balance {
            amount
        } else {
            self.balance
        }
    }

    /// The storage to reserve for a record with this memo and project id, or
    /// `None` where the size does not fit the machine's word.
    pub fn space(memo: &str, project_id: &str) -> (size: Option<usize>)
        ensures
            match size {
                Some(n) => n == record_space(
                    text_bytes(memo@).len(),
                    text_bytes(project_id@).len(),
                ),
                None => record_space(text_bytes(memo@).len(), text_bytes(project_id@).len())
                    > usize::MAX,
            },
    {
        match FIXED_SPACE.checked_add(memo.as_bytes().len()) {
            None => None,
            Some(with_memo) => with_memo.checked_add(project_id.as_bytes().len()),
        }
    }
}

} // verus!
