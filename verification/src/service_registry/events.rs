//! Notifications of the directory, as plain values for whoever delivers them.

use vstd::prelude::*;
use ink::primitives::AccountId;
use crate::identity::Balance;

verus! {

/// A new service was registered.
#[derive(Debug, PartialEq, Eq)]
pub struct ServiceRegistered {
    pub service_id: u64,
    pub provider: AccountId,
    pub name: String,
    pub price: Balance,
}

/// The status of a service was updated.
#[derive(Debug, PartialEq, Eq, Clone, Copy)]
pub struct ServiceUpdated {
    pub service_id: u64,
    pub is_active: bool,
}

/// The reputation of a provider was updated.
#[derive(Debug, PartialEq, Eq, Clone, Copy)]
pub struct ReputationUpdated {
    pub provider: AccountId,
    pub score: u32,
}

/// Any one notification of the directory.
#[derive(Debug, PartialEq, Eq)]
pub enum RegistryNotification {
    Registered(ServiceRegistered),
    Updated(ServiceUpdated),
    Reputation(ReputationUpdated),
}

} // verus!
