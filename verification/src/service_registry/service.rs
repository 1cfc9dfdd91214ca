//! A service of the directory and the rules on its fields.

use vstd::prelude::*;
use ink::primitives::AccountId;
use crate::identity::Balance;
use crate::identity::Timestamp;
use crate::identity::same_account;
use crate::service_registry::error::Error;
use crate::service_registry::events::ServiceRegistered;
use crate::service_registry::events::ServiceUpdated;

verus! {

/// The types of services an agent can offer.
#[derive(Debug, PartialEq, Eq, Clone, Copy, Structural)]
pub enum ServiceCategory {
    TextProcessing,
    ImageGeneration,
    DataAnalysis,
    Translation,
    Computation,
}

/// Service structure.
#[derive(Debug, PartialEq, Eq)]
pub struct Service {
    pub id: u64,
    pub provider: AccountId,
    pub name: String,
    pub description: String,
    pub category: ServiceCategory,
    pub price: Balance,
    pub endpoint: String,
    pub is_active: bool,
    pub total_requests: u32,
    pub successful_requests: u32,
    pub created_at: Timestamp,
    pub supports_x402: bool,
    pub x402_payment_token: Option<AccountId>,
    pub x402_payment_amount: Option<Balance>,
    pub x402_gateway_address: Option<AccountId>,
    pub x402_chain_id: Option<u64>,
}

impl Clone for Service {
    fn clone(&self) -> (r: Self)
        ensures
            r == *self,
    {
        Service {
            id: self.id,
            provider: self.provider,
            name: self.name.clone(),
            description: self.description.clone(),
            category: self.category,
            price: self.price,
            endpoint: self.endpoint.clone(),
            is_active: self.is_active,
            total_requests: self.total_requests,
            successful_requests: self.successful_requests,
            created_at: self.created_at,
            supports_x402: self.supports_x402,
            x402_payment_token: self.x402_payment_token,
            x402_payment_amount: self.x402_payment_amount,
            x402_gateway_address: self.x402_gateway_address,
            x402_chain_id: self.x402_chain_id,
        }
    }
}

/// External-channel parameters are accepted where the channel is off, or
/// where both the payment token and the payment amount are given.
pub open spec fn x402_params_accepted(
    supports_x402: bool,
    x402_payment_token: Option<AccountId>,
    x402_payment_amount: Option<Balance>,
) -> bool {
    supports_x402 ==> x402_payment_token is Some && x402_payment_amount is Some
}

/// A registration is accepted where name, description and endpoint are not
/// empty, the price is not zero, and the external-channel parameters are
/// accepted.
pub open spec fn registration_accepted(
    name: Seq<char>,
    description: Seq<char>,
    price: Balance,
    endpoint: Seq<char>,
    supports_x402: bool,
    x402_payment_token: Option<AccountId>,
    x402_payment_amount: Option<Balance>,
) -> bool {
    &&& name.len() > 0
    &&& description.len() > 0
    &&& endpoint.len() > 0
    &&& price != 0
    &&& x402_params_accepted(supports_x402, x402_payment_token, x402_payment_amount)
}

/// Checks the external-channel parameters of a service.
pub fn check_x402_params(
    supports_x402: bool,
    x402_payment_token: &Option<AccountId>,
    x402_payment_amount: &Option<Balance>,
) -> (r: Result<(), Error>)
    ensures
        r == if x402_params_accepted(supports_x402, *x402_payment_token, *x402_payment_amount) {
            Ok::<(), Error>(())
        } else {
            Err::<(), Error>(Error::InvalidInput)
        },
{
    if supports_x402 {
        if x402_payment_token.is_none() || x402_payment_amount.is_none() {
            return Err(Error::InvalidInput);
        }
    }
    Ok(())
}

/// Checks a registration: `InvalidInput` unless it is accepted.
pub fn check_registration(
    name: &String,
    description: &String,
    price: Balance,
    endpoint: &String,
    supports_x402: bool,
    x402_payment_token: &Option<AccountId>,
    x402_payment_amount: &Option<Balance>,
) -> (r: Result<(), Error>)
    ensures
        r == if registration_accepted(
            name@,
            description@,
            price,
            endpoint@,
            supports_x402,
            *x402_payment_token,
            *x402_payment_amount,
        ) {
            Ok::<(), Error>(())
        } else {
            Err::<(), Error>(Error::InvalidInput)
        },
{
    if name.as_str().is_empty() || description.as_str().is_empty() || endpoint.as_str().is_empty()
        || price == 0 {
        return Err(Error::InvalidInput);
    }
    check_x402_params(supports_x402, x402_payment_token, x402_payment_amount)
}

impl Service {
    /// The invariant of a service: what a registration checks and no update
    /// changes, and a count of successes within the count of requests.
    pub open spec fn wf(&self) -> bool {
        &&& self.name@.len() > 0
        &&& self.description@.len() > 0
        &&& self.endpoint@.len() > 0
        &&& self.successful_requests <= self.total_requests
        &&& x402_params_accepted(
            self.supports_x402,
            self.x402_payment_token,
            self.x402_payment_amount,
        )
    }

    /// The service with one more request counted, and one more success where
    /// `success` says so.
    pub open spec fn counted(&self, success: bool) -> Service {
        Service {
            total_requests: (self.total_requests + 1) as u32,
            successful_requests: if success {
                (self.successful_requests + 1) as u32
            } else {
                self.successful_requests
            },
            ..*self
        }
    }

    /// The service with new external-channel parameters.
    pub open spec fn with_x402_params(
        &self,
        supports_x402: bool,
        x402_payment_token: Option<AccountId>,
        x402_payment_amount: Option<Balance>,
        x402_gateway_address: Option<AccountId>,
        x402_chain_id: Option<u64>,
    ) -> Service {
        Service {
            supports_x402,
            x402_payment_token,
            x402_payment_amount,
            x402_gateway_address,
            x402_chain_id,
            ..*self
        }
    }

    /// Whether the service is listed: active, and on the external channel
    /// where only those are asked for.
    pub open spec fn listed(&self, x402_only: bool) -> bool {
        self.is_active && (x402_only ==> self.supports_x402)
    }

    /// The service that a registration creates.
    pub open spec fn registered(
        id: u64,
        provider: AccountId,
        now: Timestamp,
        name: String,
        description: String,
        category: ServiceCategory,
        price: Balance,
        endpoint: String,
        supports_x402: bool,
        x402_payment_token: Option<AccountId>,
        x402_payment_amount: Option<Balance>,
        x402_gateway_address: Option<AccountId>,
        x402_chain_id: Option<u64>,
    ) -> Service {
        Service {
            id,
            provider,
            name,
            description,
            category,
            price,
            endpoint,
            is_active: true,
            total_requests: 0,
            successful_requests: 0,
            created_at: now,
            supports_x402,
            x402_payment_token,
            x402_payment_amount,
            x402_gateway_address,
            x402_chain_id,
        }
    }

    /// What is notified when this service is registered.
    pub open spec fn registration_notice(&self) -> ServiceRegistered {
        ServiceRegistered {
            service_id: self.id,
            provider: self.provider,
            name: self.name,
            price: self.price,
        }
    }

    /// Registers a service of `provider` under the identifier `id`: active,
    /// with no request counted. A registration that is not accepted is
    /// refused with `InvalidInput`.
    pub fn register(
        id: u64,
        provider: AccountId,
        now: Timestamp,
        name: String,
        description: String,
        category: ServiceCategory,
        price: Balance,
        endpoint: String,
        supports_x402: bool,
        x402_payment_token: Option<AccountId>,
        x402_payment_amount: Option<Balance>,
        x402_gateway_address: Option<AccountId>,
        x402_chain_id: Option<u64>,
    ) -> (r: Result<Service, Error>)
        ensures
            r == if registration_accepted(
                name@,
                description@,
                price,
                endpoint@,
                supports_x402,
                x402_payment_token,
                x402_payment_amount,
            ) {
                Ok::<Service, Error>(
                    Service::registered(
                        id,
                        provider,
                        now,
                        name,
                        description,
                        category,
                        price,
                        endpoint,
                        supports_x402,
                        x402_payment_token,
                        x402_payment_amount,
                        x402_gateway_address,
                        x402_chain_id,
                    ),
                )
            } else {
                Err::<Service, Error>(Error::InvalidInput)
            },
            r is Ok ==> r->Ok_0.wf(),
    {
        match check_registration(
            &name,
            &description,
            price,
            &endpoint,
            supports_x402,
            &x402_payment_token,
            &x402_payment_amount,
        ) {
            Err(e) => {
                return Err(e);
            },
            Ok(_) => {},
        }
        Ok(
            Service {
                id,
                provider,
                name,
                description,
                category,
                price,
                endpoint,
                is_active: true,
                total_requests: 0,
                successful_requests: 0,
                created_at: now,
                supports_x402,
                x402_payment_token,
                x402_payment_amount,
                x402_gateway_address,
                x402_chain_id,
            },
        )
    }

    /// The notification of this service's registration.
    pub fn registration(&self) -> (r: ServiceRegistered)
        ensures
            r == self.registration_notice(),
    {
        ServiceRegistered {
            service_id: self.id,
            provider: self.provider,
            name: self.name.clone(),
            price: self.price,
        }
    }

    /// Whether `caller` is the provider of the service; anyone else is
    /// `Unauthorized`.
    pub fn check_provider(&self, caller: &AccountId) -> (r: Result<(), Error>)
        ensures
            r == if self.provider == *caller {
                Ok::<(), Error>(())
            } else {
                Err::<(), Error>(Error::Unauthorized)
            },
    {
        if !same_account(&self.provider, caller) {
            return Err(Error::Unauthorized);
        }
        Ok(())
    }

    /// Activates or deactivates the service, asked by its provider.
    pub fn set_status(&mut self, caller: AccountId, is_active: bool) -> (r: Result<
        ServiceUpdated,
        Error,
    >)
        ensures
            old(self).provider != caller ==> *final(self) == *old(self) && r == Err::<
                ServiceUpdated,
                Error,
            >(Error::Unauthorized),
            old(self).provider == caller ==> *final(self) == (Service { is_active, ..*old(self) })
                && r == Ok::<ServiceUpdated, Error>(
                ServiceUpdated { service_id: old(self).id, is_active },
            ),
            old(self).wf() ==> final(self).wf(),
    {
        match self.check_provider(&caller) {
            Err(e) => {
                return Err(e);
            },
            Ok(_) => {},
        }
        self.is_active = is_active;
        Ok(ServiceUpdated { service_id: self.id, is_active })
    }

    /// Sets the price of the service, asked by its provider. Any price is
    /// taken.
    pub fn set_price(&mut self, caller: AccountId, new_price: Balance) -> (r: Result<(), Error>)
        ensures
            old(self).provider != caller ==> *final(self) == *old(self) && r == Err::<(), Error>(
                Error::Unauthorized,
            ),
            old(self).provider == caller ==> *final(self) == (Service {
                price: new_price,
                ..*old(self)
            }) && r == Ok::<(), Error>(()),
            old(self).wf() ==> final(self).wf(),
    {
        match self.check_provider(&caller) {
            Err(e) => {
                return Err(e);
            },
            Ok(_) => {},
        }
        self.price = new_price;
        Ok(())
    }

    /// Sets the external-channel parameters of the service, asked by its
    /// provider. The caller is checked first, then the parameters.
    pub fn set_x402_params(
        &mut self,
        caller: AccountId,
        supports_x402: bool,
        x402_payment_token: Option<AccountId>,
        x402_payment_amount: Option<Balance>,
        x402_gateway_address: Option<AccountId>,
        x402_chain_id: Option<u64>,
    ) -> (r: Result<(), Error>)
        ensures
            r == if old(self).provider != caller {
                Err::<(), Error>(Error::Unauthorized)
            } else if !x402_params_accepted(supports_x402, x402_payment_token, x402_payment_amount) {
                Err::<(), Error>(Error::InvalidInput)
            } else {
                Ok::<(), Error>(())
            },
            r is Err ==> *final(self) == *old(self),
            r is Ok ==> *final(self) == old(self).with_x402_params(
                supports_x402,
                x402_payment_token,
                x402_payment_amount,
                x402_gateway_address,
                x402_chain_id,
            ),
            old(self).wf() ==> final(self).wf(),
    {
        match self.check_provider(&caller) {
            Err(e) => {
                return Err(e);
            },
            Ok(_) => {},
        }
        match check_x402_params(supports_x402, &x402_payment_token, &x402_payment_amount) {
            Err(e) => {
                return Err(e);
            },
            Ok(_) => {},
        }
        self.supports_x402 = supports_x402;
        self.x402_payment_token = x402_payment_token;
        self.x402_payment_amount = x402_payment_amount;
        self.x402_gateway_address = x402_gateway_address;
        self.x402_chain_id = x402_chain_id;
        Ok(())
    }

    /// Whether the service is listed: active, and on the external channel
    /// where only those are asked for.
    pub fn is_listed(&self, x402_only: bool) -> (r: bool)
        ensures
            r == self.listed(x402_only),
    {
        self.is_active && (!x402_only || self.supports_x402)
    }

    /// Whether one more request can be counted.
    pub fn can_count(&self) -> (r: bool)
        ensures
            r == (self.total_requests < u32::MAX),
    {
        self.total_requests < u32::MAX
    }

    /// Counts one request, and one success where `success` says so.
    pub fn count_request(&mut self, success: bool)
        requires
            old(self).total_requests < u32::MAX,
            old(self).successful_requests <= old(self).total_requests,
        ensures
            *final(self) == old(self).counted(success),
    {
        self.total_requests += 1;
        if success {
            self.successful_requests += 1;
        }
    }

    /// Counts one request that was paid through the external channel; a
    /// service that does not support the channel refuses with
    /// `InvalidInput`.
    pub fn count_x402_payment(&mut self, success: bool) -> (r: Result<(), Error>)
        requires
            old(self).supports_x402 ==> old(self).total_requests < u32::MAX,
            old(self).successful_requests <= old(self).total_requests,
        ensures
            !old(self).supports_x402 ==> *final(self) == *old(self) && r == Err::<(), Error>(
                Error::InvalidInput,
            ),
            old(self).supports_x402 ==> *final(self) == old(self).counted(success) && r == Ok::<
                (),
                Error,
            >(()),
    {
        if !self.supports_x402 {
            return Err(Error::InvalidInput);
        }
        self.count_request(success);
        Ok(())
    }
}

} // verus!
