//! The directory itself: the store of all services and the operations on it.
//!
//! The caller's identity and the time come in as arguments; notifications go
//! out at the end of `events`.

use vstd::prelude::*;
use ink::primitives::AccountId;
use crate::identity::same_account;
use crate::identity::Balance;
use crate::identity::Timestamp;
use crate::service_registry::book::lemma_listed_among_push;
use crate::service_registry::book::lemma_services_of_push;
use crate::service_registry::book::listed_among;
use crate::service_registry::book::services_of;
use crate::service_registry::book::RegistryBook;
use crate::service_registry::error::Error;
use crate::service_registry::events::RegistryNotification;
use crate::service_registry::events::ReputationUpdated;
use crate::service_registry::events::ServiceUpdated;
use crate::service_registry::service::check_registration;
use crate::service_registry::service::registration_accepted;
use crate::service_registry::service::x402_params_accepted;
use crate::service_registry::service::Service;
use crate::service_registry::service::ServiceCategory;

verus! {

/// The score of one provider.
struct ReputationEntry {
    provider: AccountId,
    score: u32,
}

/// The scores that `entries` hold; of two entries for one provider the later
/// counts.
spec fn scores(entries: Seq<ReputationEntry>) -> Map<AccountId, u32>
    decreases entries.len(),
{
    if entries.len() == 0 {
        Map::<AccountId, u32>::empty()
    } else {
        scores(entries.drop_last()).insert(entries.last().provider, entries.last().score)
    }
}

/// No provider has two entries.
spec fn distinct(entries: Seq<ReputationEntry>) -> bool {
    forall|i: int, j: int|
        0 <= i < j < entries.len() ==> (#[trigger] entries[i]).provider != (
        #[trigger] entries[j]).provider
}

/// A provider without an entry has no score.
proof fn lemma_scores_absent(entries: Seq<ReputationEntry>, provider: AccountId)
    requires
        forall|j: int| 0 <= j < entries.len() ==> (#[trigger] entries[j]).provider != provider,
    ensures
        !scores(entries).dom().contains(provider),
    decreases entries.len(),
{
    if entries.len() > 0 {
        let rest = entries.drop_last();
        assert forall|j: int| 0 <= j < rest.len() implies (#[trigger] rest[j]).provider
            != provider by {
            assert(rest[j] == entries[j]);
        }
        lemma_scores_absent(rest, provider);
        assert(entries.last() == entries[entries.len() - 1]);
    }
}

/// Where no provider has two entries, each entry is its provider's score.
proof fn lemma_scores_at(entries: Seq<ReputationEntry>, i: int)
    requires
        distinct(entries),
        0 <= i < entries.len(),
    ensures
        scores(entries).dom().contains(entries[i].provider),
        scores(entries)[entries[i].provider] == entries[i].score,
    decreases entries.len(),
{
    let rest = entries.drop_last();
    if i < entries.len() - 1 {
        assert forall|a: int, b: int| 0 <= a < b < rest.len() implies (#[trigger] rest[a]).provider
            != (#[trigger] rest[b]).provider by {
            assert(rest[a] == entries[a] && rest[b] == entries[b]);
        }
        lemma_scores_at(rest, i);
        assert(rest[i] == entries[i]);
        assert(entries[i].provider != entries[entries.len() - 1].provider);
    }
}

/// Where no provider has two entries, overwriting a provider's entry sets
/// its score and no other.
proof fn lemma_scores_update(entries: Seq<ReputationEntry>, i: int, entry: ReputationEntry)
    requires
        distinct(entries),
        0 <= i < entries.len(),
        entries[i].provider == entry.provider,
    ensures
        distinct(entries.update(i, entry)),
        scores(entries.update(i, entry)) == scores(entries).insert(entry.provider, entry.score),
    decreases entries.len(),
{
    let after = entries.update(i, entry);
    let rest = entries.drop_last();
    assert forall|a: int, b: int| 0 <= a < b < after.len() implies (#[trigger] after[a]).provider
        != (#[trigger] after[b]).provider by {
        assert(after[a].provider == entries[a].provider);
        assert(after[b].provider == entries[b].provider);
    }
    if i == entries.len() - 1 {
        assert(after.drop_last() =~= rest);
        assert(scores(after) =~= scores(entries).insert(entry.provider, entry.score));
    } else {
        assert forall|a: int, b: int| 0 <= a < b < rest.len() implies (#[trigger] rest[a]).provider
            != (#[trigger] rest[b]).provider by {
            assert(rest[a] == entries[a] && rest[b] == entries[b]);
        }
        assert(rest[i] == entries[i]);
        lemma_scores_update(rest, i, entry);
        assert(after.drop_last() =~= rest.update(i, entry));
        assert(after.last() == entries.last());
        assert(entries[i].provider != entries[entries.len() - 1].provider);
        assert(scores(after) =~= scores(entries).insert(entry.provider, entry.score));
    }
}

/// Storage of the directory.
pub struct ServiceRegistry {
    services: Vec<Service>,
    reputation_scores: Vec<ReputationEntry>,
}

impl View for ServiceRegistry {
    type V = RegistryBook;

    closed spec fn view(&self) -> RegistryBook {
        RegistryBook { services: self.services@, reputation: scores(self.reputation_scores@) }
    }
}

impl ServiceRegistry {
    /// The invariant of the directory: that of its book, and one score at
    /// most for each provider.
    pub closed spec fn wf(&self) -> bool {
        self@.wf() && distinct(self.reputation_scores@)
    }

    /// A well-formed directory has a well-formed book.
    pub proof fn lemma_wf_book(&self)
        requires
            self.wf(),
        ensures
            self@.wf(),
    {
    }

    /// A directory without services and without scores.
    pub fn new() -> (r: Self)
        ensures
            r.wf(),
            r@ == RegistryBook::empty(),
    {
        ServiceRegistry { services: Vec::new(), reputation_scores: Vec::new() }
    }

    /// The place of the service `service_id` in the store.
    fn position(&self, service_id: u64) -> (r: Option<usize>)
        ensures
            self@.service(service_id) is None ==> r is None,
            self@.service(service_id) is Some ==> r is Some && r->Some_0 == service_id - 1,
    {
        if service_id == 0 {
            return None;
        }
        let len: usize = self.services.len();
        if service_id - 1 >= len as u64 {
            return None;
        }
        Some((service_id - 1) as usize)
    }

    /// Puts `service` in the place of the service at `i`.
    fn store(&mut self, i: usize, service: Service)
        requires
            old(self).wf(),
            i < old(self)@.services.len(),
            service.id == i + 1,
            service.wf(),
        ensures
            final(self).wf(),
            final(self)@ == old(self)@.with_service((i + 1) as u64, service),
    {
        self.services[i] = service;
        assert(self@.services =~= old(self)@.services.update(i as int, service));
    }

    /// Register a new service for `caller`, and return its identifier.
    ///
    /// Errors: `InvalidInput` where the registration is not accepted; else
    /// `Overflow` where no identifier is left. An error leaves the directory
    /// and `events` as they were. On success the service is active, has
    /// counted no request, and its registration is notified.
    pub fn register_service(
        &mut self,
        caller: AccountId,
        now: Timestamp,
        name: String,
        description: String,
        category: ServiceCategory,
        price: Balance,
        endpoint: String,
        supports_x402: bool,
        x402_payment_token: Option<AccountId>,
        x402_payment_amount: Option<Balance>,
        x402_gateway_address: Option<AccountId>,
        x402_chain_id: Option<u64>,
        events: &mut Vec<RegistryNotification>,
    ) -> (r: Result<u64, Error>)
        requires
            old(self).wf(),
        ensures
            final(self).wf(),
            r is Err ==> final(self)@ == old(self)@ && final(events)@ == old(events)@,
            !registration_accepted(
                name@,
                description@,
                price,
                endpoint@,
                supports_x402,
                x402_payment_token,
                x402_payment_amount,
            ) ==> r == Err::<u64, Error>(Error::InvalidInput),
            registration_accepted(
                name@,
                description@,
                price,
                endpoint@,
                supports_x402,
                x402_payment_token,
                x402_payment_amount,
            ) && old(self)@.services.len() >= u64::MAX ==> r == Err::<u64, Error>(Error::Overflow),
            registration_accepted(
                name@,
                description@,
                price,
                endpoint@,
                supports_x402,
                x402_payment_token,
                x402_payment_amount,
            ) && old(self)@.services.len() < u64::MAX ==> {
                let service = Service::registered(
                    (old(self)@.services.len() + 1) as u64,
                    caller,
                    now,
                    name,
                    description,
                    category,
                    price,
                    endpoint,
                    supports_x402,
                    x402_payment_token,
                    x402_payment_amount,
                    x402_gateway_address,
                    x402_chain_id,
                );
                &&& r == Ok::<u64, Error>(service.id)
                &&& final(self)@ == old(self)@.with_new(service)
                &&& final(events)@ == old(events)@.push(
                    RegistryNotification::Registered(service.registration_notice()),
                )
            },
    {
        match check_registration(
            &name,
            &description,
            price,
            &endpoint,
            supports_x402,
            &x402_payment_token,
            &x402_payment_amount,
        ) {
            Err(e) => {
                return Err(e);
            },
            Ok(_) => {},
        }
        let count: usize = self.services.len();
        let service_id: u64 = match (count as u64).checked_add(1) {
            None => {
                return Err(Error::Overflow);
            },
            Some(id) => id,
        };
        let registered = Service::register(
            service_id,
            caller,
            now,
            name,
            description,
            category,
            price,
            endpoint,
            supports_x402,
            x402_payment_token,
            x402_payment_amount,
            x402_gateway_address,
            x402_chain_id,
        );
        match registered {
            Err(e) => Err(e),
            Ok(service) => {
                let notice = service.registration();
                self.services.push(service);
                events.push(RegistryNotification::Registered(notice));
                Ok(service_id)
            },
        }
    }

    /// Get a service.
    pub fn get_service(&self, service_id: u64) -> (r: Result<Service, Error>)
        ensures
            r == match self@.service(service_id) {
                Some(s) => Ok::<Service, Error>(s),
                None => Err::<Service, Error>(Error::ServiceNotFound),
            },
    {
        match self.position(service_id) {
            None => Err(Error::ServiceNotFound),
            Some(i) => Ok(self.services[i].clone()),
        }
    }

    /// Activate or deactivate a service, asked by its provider.
    ///
    /// Errors: `ServiceNotFound`; else `Unauthorized` where `caller` is not
    /// the provider. An error leaves the directory and `events` as they
    /// were. On success the update is notified.
    pub fn update_service_status(
        &mut self,
        caller: AccountId,
        service_id: u64,
        is_active: bool,
        events: &mut Vec<RegistryNotification>,
    ) -> (r: Result<(), Error>)
        requires
            old(self).wf(),
        ensures
            final(self).wf(),
            r is Err ==> final(self)@ == old(self)@ && final(events)@ == old(events)@,
            old(self)@.service(service_id) is None ==> r == Err::<(), Error>(
                Error::ServiceNotFound,
            ),
            old(self)@.service(service_id) matches Some(s) ==> {
                &&& s.provider != caller ==> r == Err::<(), Error>(Error::Unauthorized)
                &&& s.provider == caller ==> {
                    &&& r == Ok::<(), Error>(())
                    &&& final(self)@ == old(self)@.with_service(
                        service_id,
                        Service { is_active, ..s },
                    )
                    &&& final(events)@ == old(events)@.push(
                        RegistryNotification::Updated(ServiceUpdated { service_id, is_active }),
                    )
                }
            },
    {
        let i = match self.position(service_id) {
            None => {
                return Err(Error::ServiceNotFound);
            },
            Some(i) => i,
        };
        let mut service = self.services[i].clone();
        match service.set_status(caller, is_active) {
            Err(e) => Err(e),
            Ok(notice) => {
                self.store(i, service);
                events.push(RegistryNotification::Updated(notice));
                Ok(())
            },
        }
    }

    /// Count one request to a service, and one success where `success` says
    /// so. Anyone may ask.
    ///
    /// Errors: `ServiceNotFound`, which leaves the directory as it was.
    pub fn record_service_request(&mut self, service_id: u64, success: bool) -> (r: Result<
        (),
        Error,
    >)
        requires
            old(self).wf(),
            old(self)@.service(service_id) matches Some(s) ==> s.total_requests < u32::MAX,
        ensures
            final(self).wf(),
            r is Err ==> final(self)@ == old(self)@,
            old(self)@.service(service_id) is None ==> r == Err::<(), Error>(
                Error::ServiceNotFound,
            ),
            old(self)@.service(service_id) matches Some(s) ==> {
                &&& r == Ok::<(), Error>(())
                &&& final(self)@ == old(self)@.with_service(service_id, s.counted(success))
            },
    {
        let i = match self.position(service_id) {
            None => {
                return Err(Error::ServiceNotFound);
            },
            Some(i) => i,
        };
        let mut service = self.services[i].clone();
        service.count_request(success);
        self.store(i, service);
        Ok(())
    }

    /// Whether one more request to the service can be counted: a service
    /// that is there must not have counted `u32::MAX` requests.
    pub fn can_count_request(&self, service_id: u64) -> (r: bool)
        ensures
            r == (self@.service(service_id) matches Some(s) ==> s.total_requests < u32::MAX),
    {
        match self.position(service_id) {
            None => true,
            Some(i) => self.services[i].can_count(),
        }
    }

    /// Update provider reputation. Anyone may ask, and the score replaces
    /// the one before. The update is notified.
    pub fn update_reputation(
        &mut self,
        provider: AccountId,
        score: u32,
        events: &mut Vec<RegistryNotification>,
    ) -> (r: Result<(), Error>)
        requires
            old(self).wf(),
        ensures
            final(self).wf(),
            r == Ok::<(), Error>(()),
            final(self)@ == (RegistryBook {
                reputation: old(self)@.reputation.insert(provider, score),
                ..old(self)@
            }),
            final(self)@.reputation_of(provider) == score,
            final(events)@ == old(events)@.push(
                RegistryNotification::Reputation(ReputationUpdated { provider, score }),
            ),
    {
        let n: usize = self.reputation_scores.len();
        let mut i: usize = 0;
        while i < n
            invariant
                n == self.reputation_scores.len(),
                i <= n,
                self.wf(),
                self@ == old(self)@,
                events@ == old(events)@,
                forall|j: int| 0 <= j < i ==> (#[trigger] self.reputation_scores@[j]).provider
                    != provider,
            decreases n - i,
        {
            if same_account(&self.reputation_scores[i].provider, &provider) {
                proof {
                    lemma_scores_update(
                        self.reputation_scores@,
                        i as int,
                        ReputationEntry { provider, score },
                    );
                }
                self.reputation_scores[i] = ReputationEntry { provider, score };
                events.push(RegistryNotification::Reputation(ReputationUpdated { provider, score }));
                return Ok(());
            }
            i += 1;
        }
        proof {
            let before = self.reputation_scores@;
            let after = before.push(ReputationEntry { provider, score });
            assert(after.drop_last() =~= before);
            assert forall|a: int, b: int| 0 <= a < b < after.len() implies (
            #[trigger] after[a]).provider != (#[trigger] after[b]).provider by {
                if b < before.len() {
                    assert(after[a] == before[a] && after[b] == before[b]);
                } else {
                    assert(after[a] == before[a]);
                }
            }
        }
        self.reputation_scores.push(ReputationEntry { provider, score });
        events.push(RegistryNotification::Reputation(ReputationUpdated { provider, score }));
        Ok(())
    }

    /// Get provider reputation: 0 for a provider that has no score.
    pub fn get_reputation(&self, provider: AccountId) -> (r: u32)
        requires
            self.wf(),
        ensures
            r == self@.reputation_of(provider),
    {
        let n: usize = self.reputation_scores.len();
        let mut i: usize = 0;
        while i < n
            invariant
                n == self.reputation_scores.len(),
                i <= n,
                self.wf(),
                forall|j: int| 0 <= j < i ==> (#[trigger] self.reputation_scores@[j]).provider
                    != provider,
            decreases n - i,
        {
            if same_account(&self.reputation_scores[i].provider, &provider) {
                proof {
                    lemma_scores_at(self.reputation_scores@, i as int);
                }
                return self.reputation_scores[i].score;
            }
            i += 1;
        }
        proof {
            lemma_scores_absent(self.reputation_scores@, provider);
        }
        0
    }

    /// Get all services by provider: their identifiers, oldest first.
    pub fn get_provider_services(&self, provider: AccountId) -> (r: Vec<u64>)
        ensures
            r@ == services_of(self@.services, provider),
    {
        let mut found: Vec<u64> = Vec::new();
        let n: usize = self.services.len();
        let mut i: usize = 0;
        assert(self@.services.take(0) =~= Seq::<Service>::empty());
        while i < n
            invariant
                n == self.services.len(),
                i <= n,
                found@ == services_of(self@.services.take(i as int), provider),
            decreases n - i,
        {
            let service = &self.services[i];
            proof {
                let all = self@.services;
                assert(all.take(i + 1) =~= all.take(i as int).push(all[i as int]));
                lemma_services_of_push(all.take(i as int), all[i as int], provider);
            }
            if same_account(&service.provider, &provider) {
                found.push(service.id);
            }
            i += 1;
        }
        assert(self@.services.take(n as int) =~= self@.services);
        found
    }

    /// The listed services among the first `limit`, in the order of their
    /// identifiers.
    fn list_services(&self, limit: u64, x402_only: bool) -> (r: Vec<Service>)
        ensures
            r@ == listed_among(self@.first(limit), x402_only),
    {
        let mut listed: Vec<Service> = Vec::new();
        let count: usize = self.services.len();
        let max: usize = if limit > count as u64 {
            count
        } else {
            limit as usize
        };
        let mut i: usize = 0;
        assert(self@.services.take(0) =~= Seq::<Service>::empty());
        while i < max
            invariant
                count == self.services.len(),
                max <= count,
                i <= max,
                listed@ == listed_among(self@.services.take(i as int), x402_only),
            decreases max - i,
        {
            let service = &self.services[i];
            proof {
                let all = self@.services;
                assert(all.take(i + 1) =~= all.take(i as int).push(all[i as int]));
                lemma_listed_among_push(all.take(i as int), all[i as int], x402_only);
            }
            if service.is_listed(x402_only) {
                listed.push(service.clone());
            }
            i += 1;
        }
        assert(self@.services.take(count as int) =~= self@.services);
        listed
    }

    /// Get active services: those among the first `limit` services that are
    /// active.
    pub fn get_active_services(&self, limit: u64) -> (r: Vec<Service>)
        ensures
            r@ == listed_among(self@.first(limit), false),
    {
        self.list_services(limit, false)
    }

    /// Get services that support external-channel payments: those among the
    /// first `limit` services that are active and support the channel.
    pub fn get_x402_services(&self, limit: u64) -> (r: Vec<Service>)
        ensures
            r@ == listed_among(self@.first(limit), true),
    {
        self.list_services(limit, true)
    }

    /// Update service price, asked by its provider. Any price is taken.
    ///
    /// Errors: `ServiceNotFound`; else `Unauthorized` where `caller` is not
    /// the provider. An error leaves the directory as it was.
    pub fn update_service_price(&mut self, caller: AccountId, service_id: u64, new_price: Balance) -> (r:
        Result<(), Error>)
        requires
            old(self).wf(),
        ensures
            final(self).wf(),
            r is Err ==> final(self)@ == old(self)@,
            old(self)@.service(service_id) is None ==> r == Err::<(), Error>(
                Error::ServiceNotFound,
            ),
            old(self)@.service(service_id) matches Some(s) ==> {
                &&& s.provider != caller ==> r == Err::<(), Error>(Error::Unauthorized)
                &&& s.provider == caller ==> {
                    &&& r == Ok::<(), Error>(())
                    &&& final(self)@ == old(self)@.with_service(
                        service_id,
                        Service { price: new_price, ..s },
                    )
                }
            },
    {
        let i = match self.position(service_id) {
            None => {
                return Err(Error::ServiceNotFound);
            },
            Some(i) => i,
        };
        let mut service = self.services[i].clone();
        match service.set_price(caller, new_price) {
            Err(e) => Err(e),
            Ok(_) => {
                self.store(i, service);
                Ok(())
            },
        }
    }

    /// Update the external-channel parameters of a service, asked by its
    /// provider.
    ///
    /// Errors: `ServiceNotFound`; else `Unauthorized` where `caller` is not
    /// the provider; else `InvalidInput` where the parameters are not
    /// accepted. An error leaves the directory as it was.
    pub fn update_x402_params(
        &mut self,
        caller: AccountId,
        service_id: u64,
        supports_x402: bool,
        x402_payment_token: Option<AccountId>,
        x402_payment_amount: Option<Balance>,
        x402_gateway_address: Option<AccountId>,
        x402_chain_id: Option<u64>,
    ) -> (r: Result<(), Error>)
        requires
            old(self).wf(),
        ensures
            final(self).wf(),
            r is Err ==> final(self)@ == old(self)@,
            old(self)@.service(service_id) is None ==> r == Err::<(), Error>(
                Error::ServiceNotFound,
            ),
            old(self)@.service(service_id) matches Some(s) ==> {
                &&& s.provider != caller ==> r == Err::<(), Error>(Error::Unauthorized)
                &&& s.provider == caller && !x402_params_accepted(
                    supports_x402,
                    x402_payment_token,
                    x402_payment_amount,
                ) ==> r == Err::<(), Error>(Error::InvalidInput)
                &&& s.provider == caller && x402_params_accepted(
                    supports_x402,
                    x402_payment_token,
                    x402_payment_amount,
                ) ==> {
                    &&& r == Ok::<(), Error>(())
                    &&& final(self)@ == old(self)@.with_service(
                        service_id,
                        s.with_x402_params(
                            supports_x402,
                            x402_payment_token,
                            x402_payment_amount,
                            x402_gateway_address,
                            x402_chain_id,
                        ),
                    )
                }
            },
    {
        let i = match self.position(service_id) {
            None => {
                return Err(Error::ServiceNotFound);
            },
            Some(i) => i,
        };
        let mut service = self.services[i].clone();
        match service.set_x402_params(
            caller,
            supports_x402,
            x402_payment_token,
            x402_payment_amount,
            x402_gateway_address,
            x402_chain_id,
        ) {
            Err(e) => Err(e),
            Ok(_) => {
                self.store(i, service);
                Ok(())
            },
        }
    }

    /// Record an external-channel payment for a service request: one more
    /// request is counted, and one more success where `success` says so.
    /// Anyone may ask; the payment hash is not kept.
    ///
    /// Errors: `ServiceNotFound`; else `InvalidInput` where the service does
    /// not support the channel. An error leaves the directory as it was.
    pub fn record_x402_payment(
        &mut self,
        service_id: u64,
        payment_hash: ink::primitives::Hash,
        success: bool,
    ) -> (r: Result<(), Error>)
        requires
            old(self).wf(),
            old(self)@.service(service_id) matches Some(s) ==> (s.supports_x402
                ==> s.total_requests < u32::MAX),
        ensures
            final(self).wf(),
            r is Err ==> final(self)@ == old(self)@,
            old(self)@.service(service_id) is None ==> r == Err::<(), Error>(
                Error::ServiceNotFound,
            ),
            old(self)@.service(service_id) matches Some(s) ==> {
                &&& !s.supports_x402 ==> r == Err::<(), Error>(Error::InvalidInput)
                &&& s.supports_x402 ==> {
                    &&& r == Ok::<(), Error>(())
                    &&& final(self)@ == old(self)@.with_service(service_id, s.counted(success))
                }
            },
    {
        let i = match self.position(service_id) {
            None => {
                return Err(Error::ServiceNotFound);
            },
            Some(i) => i,
        };
        let mut service = self.services[i].clone();
        match service.count_x402_payment(success) {
            Err(e) => Err(e),
            Ok(_) => {
                self.store(i, service);
                Ok(())
            },
        }
    }

    /// Get total service count.
    pub fn get_service_count(&self) -> (r: u64)
        ensures
            r == self@.services.len(),
    {
        let len: usize = self.services.len();
        len as u64
    }
}

} // verus!
