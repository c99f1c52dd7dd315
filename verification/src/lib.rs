//! A two-party escrow: a buyer locks funds, and the funds are later released
//! to the seller or returned to the buyer.
//!
//! The escrow is a small state machine. A record is created `Locked`, and
//! leaves that status once, for `Completed` or for `Cancelled`. Each step
//! checks its guards, makes one transfer on a ledger, and changes the record
//! only if the ledger made the transfer.

pub mod book;
pub mod context;
pub mod error;
pub mod identity;
pub mod laws;
pub mod ledger;
pub mod model;
pub mod policy;
pub mod record;
pub mod staging;

pub use book::{cancel_escrow, confirm_delivery, initialize_escrow, EscrowBook};
pub use context::{CancelEscrow, ConfirmDelivery, InitializeEscrow};
pub use error::{EscrowError, TransferError};
pub use identity::Identity;
pub use ledger::{Holding, Ledger, TransferRequest};
pub use policy::{is_authorized, is_authorized_signer, required_authorizers, Transition};
pub use record::{Escrow, EscrowStatus};
pub use staging::{stage_cancel, stage_confirm, stage_initialize, Staged};
