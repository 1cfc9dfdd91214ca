//! Escrow-based settlement: a payer locks value for a payee, and the value is
//! released, refunded or frozen under fixed rules and a time-based expiry.

pub mod identity;
pub mod status;
pub mod error;
pub mod events;
pub mod record;
pub mod operations;
pub mod book;
pub mod escrow;
pub mod history;
pub mod laws;
pub mod service_registry;
