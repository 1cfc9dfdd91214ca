//! The mathematical model of the directory: every service in the order of its
//! identifier, and the reputation score of each provider that has one.

use vstd::prelude::*;
use ink::primitives::AccountId;
use crate::service_registry::service::Service;

verus! {

/// What the directory holds. The service with identifier `id` is
/// `services[id - 1]`.
pub struct RegistryBook {
    pub services: Seq<Service>,
    pub reputation: Map<AccountId, u32>,
}

/// The identifiers of the services of `provider` among `services`, in order.
pub open spec fn services_of(services: Seq<Service>, provider: AccountId) -> Seq<u64>
    decreases services.len(),
{
    if services.len() == 0 {
        Seq::<u64>::empty()
    } else if services.last().provider == provider {
        services_of(services.drop_last(), provider).push(services.last().id)
    } else {
        services_of(services.drop_last(), provider)
    }
}

/// The listed services among `services`, in order.
pub open spec fn listed_among(services: Seq<Service>, x402_only: bool) -> Seq<Service>
    decreases services.len(),
{
    if services.len() == 0 {
        Seq::<Service>::empty()
    } else if services.last().listed(x402_only) {
        listed_among(services.drop_last(), x402_only).push(services.last())
    } else {
        listed_among(services.drop_last(), x402_only)
    }
}

impl RegistryBook {
    /// The book of a directory that holds nothing yet.
    pub open spec fn empty() -> RegistryBook {
        RegistryBook { services: Seq::<Service>::empty(), reputation: Map::<AccountId, u32>::empty() }
    }

    /// The invariant of the directory: identifiers count up from 1 and every
    /// service is well formed.
    pub open spec fn wf(self) -> bool {
        forall|i: int|
            0 <= i < self.services.len() ==> (#[trigger] self.services[i]).id == i + 1
                && self.services[i].wf()
    }

    /// The service `id`, if there is one.
    pub open spec fn service(self, id: u64) -> Option<Service> {
        if 1 <= id <= self.services.len() {
            Some(self.services[id - 1])
        } else {
            None
        }
    }

    /// The reputation of `provider`: its score, or 0 where it has none.
    pub open spec fn reputation_of(self, provider: AccountId) -> u32 {
        if self.reputation.dom().contains(provider) {
            self.reputation[provider]
        } else {
            0
        }
    }

    /// The book with `service` in the place of the service `id`.
    pub open spec fn with_service(self, id: u64, service: Service) -> RegistryBook {
        RegistryBook { services: self.services.update(id - 1, service), ..self }
    }

    /// The book with `service` added as its newest.
    pub open spec fn with_new(self, service: Service) -> RegistryBook {
        RegistryBook { services: self.services.push(service), ..self }
    }

    /// The first `limit` services, or all of them where there are fewer.
    pub open spec fn first(self, limit: u64) -> Seq<Service> {
        if limit > self.services.len() {
            self.services
        } else {
            self.services.take(limit as int)
        }
    }
}

/// One more service adds its identifier to the list of its provider, at the
/// end, and changes no other list.
pub proof fn lemma_services_of_push(services: Seq<Service>, service: Service, provider: AccountId)
    ensures
        services_of(services.push(service), provider) == if service.provider == provider {
            services_of(services, provider).push(service.id)
        } else {
            services_of(services, provider)
        },
{
    assert(services.push(service).drop_last() =~= services);
}

/// One more service comes last among the listed ones if it is listed, and
/// changes nothing if it is not.
pub proof fn lemma_listed_among_push(services: Seq<Service>, service: Service, x402_only: bool)
    ensures
        listed_among(services.push(service), x402_only) == if service.listed(x402_only) {
            listed_among(services, x402_only).push(service)
        } else {
            listed_among(services, x402_only)
        },
{
    assert(services.push(service).drop_last() =~= services);
}

} // verus!
