//! Two-party invoicing with escrow-style settlement.
//!
//! A creditor issues an invoice against a debtor, the debtor pays it off in one
//! or more installments, and the creditor confirms settlement once nothing is
//! owed. Every operation is a guarded transition on one invoice record, and each
//! guard and effect is stated in the operation's contract.

pub mod key;
pub mod error;
pub mod address;
pub mod invoice;
pub mod accounts;
pub mod system;
pub mod program;
pub mod laws;

pub use address::{find_invoice_address, id, invoice_address};
pub use accounts::{Clock, ConfirmSettlement, InvoiceAccount, Issue, Party, Pay};
pub use error::ErrorCode;
pub use invoice::Invoice;
pub use key::Key;
pub use program::{check_access, confirm_settlement, issue, pay, transfer_order, Transfer};
pub use system::{AccountMeta, Instruction};
