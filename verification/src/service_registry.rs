//! The service directory: providers advertise priced endpoints, and the
//! directory counts requests and keeps a reputation score per provider.

pub mod error;
pub mod service;
pub mod events;
pub mod book;
pub mod registry;
