//! Core of an LNURL-pay gateway: deterministic tweak allocation for
//! invoice issuance, the invoice lifecycle state machine, durable
//! invoice/user records, federation routing, and startup recovery of
//! pending invoices.

pub mod directory;
pub mod errors;
pub mod hexid;
pub mod invoice_state;
pub mod issuer;
pub mod invoice_db;
pub mod invoices;
pub mod lnurl;
pub mod recovery;
pub mod tracker;
pub mod user_db;
pub mod urls;
pub mod users;

pub use errors::CoreError;
pub use invoice_state::InvoiceState;
