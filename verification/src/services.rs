//! Service requests and the statistics over them.

use crate::entity_store::EntityStore;
use crate::errors::ActionError;
use crate::identity::same_principal;
use crate::providers::{Provider, ProviderRegistry};
use crate::seq_lemmas::{lemma_filter_next, lemma_filter_none};
use candid::Principal;
use vstd::prelude::*;

verus! {

/// The kinds of service that the platform arranges.
#[derive(Clone, Copy, Debug, PartialEq, Eq, Structural)]
pub enum ServiceType {
    Legal,
    Medical,
    Counseling,
    Police,
}

/// Counts for one kind of service.
#[derive(Clone, Copy, Debug, PartialEq, Eq, Structural)]
pub struct ServiceStats {
    pub total_requests: u64,
    pub active_requests: u64,
    pub available_providers: u64,
}

/// Where a request stands. Any status may follow any other.
#[derive(Clone, Copy, Debug, PartialEq, Eq, Structural)]
pub enum RequestStatus {
    Pending,
    InProgress,
    Completed,
    Cancelled,
}

/// How urgent a request is.
#[derive(Clone, Copy, Debug, PartialEq, Eq, Structural)]
pub enum Priority {
    Emergency,
    High,
    Medium,
    Low,
}

/// What a caller hands in to ask for a service.
#[derive(Debug, PartialEq, Eq)]
pub struct ServiceRequestInput {
    pub service_type: ServiceType,
    pub description: String,
    pub priority: Priority,
    pub notes: String,
    pub preferred_contact: String,
    pub contact_details: String,
    pub date_time: u64,
}

/// A stored service request.
#[derive(Debug, PartialEq, Eq)]
pub struct ServiceRequest {
    pub id: u64,
    pub user: Principal,
    pub service_type: ServiceType,
    pub description: String,
    pub priority: Priority,
    pub notes: String,
    pub preferred_contact: String,
    pub contact_details: String,
    pub date_time: u64,
    pub status: RequestStatus,
    pub timestamp: u64,
}

impl Clone for ServiceRequest {
    fn clone(&self) -> (copy: Self)
        ensures
            copy == *self,
    {
        ServiceRequest {
            id: self.id,
            user: self.user,
            service_type: self.service_type,
            description: self.description.clone(),
            priority: self.priority,
            notes: self.notes.clone(),
            preferred_contact: self.preferred_contact.clone(),
            contact_details: self.contact_details.clone(),
            date_time: self.date_time,
            status: self.status,
            timestamp: self.timestamp,
        }
    }
}

/// Every request carries the id it is stored under.
pub open spec fn requests_carry_their_ids(requests: Map<u64, ServiceRequest>) -> bool {
    forall|id: u64| #[trigger] requests.contains_key(id) ==> requests[id].id == id
}

/// The request that `submit_service_request` stores for `request`.
pub open spec fn new_service_request(
    id: u64,
    caller: Principal,
    now: u64,
    request: ServiceRequestInput,
) -> ServiceRequest {
    ServiceRequest {
        id,
        user: caller,
        service_type: request.service_type,
        description: request.description,
        priority: request.priority,
        notes: request.notes,
        preferred_contact: request.preferred_contact,
        contact_details: request.contact_details,
        date_time: request.date_time,
        status: RequestStatus::Pending,
        timestamp: now,
    }
}

/// The predicate "this request was made by `user`".
pub open spec fn requested_by(user: Principal) -> spec_fn(ServiceRequest) -> bool {
    |request: ServiceRequest| request.user == user
}

/// The predicate "this request asks for `service_type`".
pub open spec fn asks_for(service_type: ServiceType) -> spec_fn(ServiceRequest) -> bool {
    |request: ServiceRequest| request.service_type == service_type
}

/// The predicate "this request asks for `service_type` and is in progress".
pub open spec fn active_for(service_type: ServiceType) -> spec_fn(ServiceRequest) -> bool {
    |request: ServiceRequest|
        request.service_type == service_type && request.status == RequestStatus::InProgress
}

/// The predicate "this provider offers `service_type` and is available".
pub open spec fn available_for(service_type: ServiceType) -> spec_fn(Provider) -> bool {
    |provider: Provider| provider.service_type == service_type && provider.is_available
}

/// Stores a new pending request of `caller` under the next request id and
/// returns that id. Always succeeds.
pub fn submit_service_request(
    requests: &mut EntityStore<ServiceRequest>,
    caller: Principal,
    now: u64,
    request: ServiceRequestInput,
) -> (result: Result<u64, ActionError>)
    ensures
        requests_carry_their_ids(old(requests)@) ==> requests_carry_their_ids(final(requests)@),
        result == Ok::<u64, ActionError>(old(requests).next_id() as u64),
        final(requests).next_id() == old(requests).next_id() + 1,
        final(requests)@ == old(requests)@.insert(
            old(requests).next_id() as u64,
            new_service_request(old(requests).next_id() as u64, caller, now, request),
        ),
{
    let request_id = requests.upcoming_id();
    let service_request = ServiceRequest {
        id: request_id,
        user: caller,
        service_type: request.service_type,
        description: request.description,
        priority: request.priority,
        notes: request.notes,
        preferred_contact: request.preferred_contact,
        contact_details: request.contact_details,
        date_time: request.date_time,
        status: RequestStatus::Pending,
        timestamp: now,
    };
    requests.add(service_request);
    Ok(request_id)
}

/// The request stored under `id`, if there is one.
pub fn get_service_request(requests: &EntityStore<ServiceRequest>, id: u64) -> (found: Option<
    ServiceRequest,
>)
    ensures
        found == if requests@.contains_key(id) {
            Some(requests@[id])
        } else {
            None
        },
{
    match requests.get(id) {
        Some(request) => Some(request.clone()),
        None => None,
    }
}

/// The requests of `user`, in the order of their ids.
pub fn get_user_service_requests(requests: &EntityStore<ServiceRequest>, user: Principal) -> (found:
    Vec<ServiceRequest>)
    ensures
        found@ == requests.records().filter(requested_by(user)),
{
    let mut found: Vec<ServiceRequest> = Vec::new();
    let count = requests.upcoming_id();
    let mut id: u64 = 0;
    proof {
        assert(requests.records().take(0) =~= Seq::<ServiceRequest>::empty());
        lemma_filter_none(requested_by(user));
    }
    while id < count
        invariant
            count == requests.next_id(),
            id <= count,
            found@ == requests.records().take(id as int).filter(requested_by(user)),
        decreases count - id,
    {
        match requests.get(id) {
            Some(request) => {
                proof {
                    lemma_filter_next(requests.records(), id as int, requested_by(user));
                }
                if same_principal(&request.user, &user) {
                    found.push(request.clone());
                }
            },
            None => {},
        }
        id = id + 1;
    }
    assert(requests.records().take(count as int) =~= requests.records());
    found
}

/// Sets the status of the request stored under `id`, whatever its status
/// was. Returns whether there is such a request.
pub fn update_request_status(
    requests: &mut EntityStore<ServiceRequest>,
    id: u64,
    status: RequestStatus,
) -> (updated: bool)
    ensures
        requests_carry_their_ids(old(requests)@) ==> requests_carry_their_ids(final(requests)@),
        updated == old(requests)@.contains_key(id),
        final(requests).next_id() == old(requests).next_id(),
        final(requests)@ == if updated {
            old(requests)@.insert(id, ServiceRequest { status, ..old(requests)@[id] })
        } else {
            old(requests)@
        },
{
    let current = match requests.get(id) {
        Some(request) => Some(request.clone()),
        None => None,
    };
    match current {
        Some(request) => {
            let mut request = request;
            request.status = status;
            requests.replace(id, request)
        },
        None => false,
    }
}

/// All requests, in the order of their ids.
pub fn get_service_requests(requests: &EntityStore<ServiceRequest>) -> (all: Vec<ServiceRequest>)
    ensures
        all@ == requests.records(),
{
    let mut all: Vec<ServiceRequest> = Vec::new();
    let count = requests.upcoming_id();
    let mut id: u64 = 0;
    while id < count
        invariant
            count == requests.next_id(),
            id <= count,
            all@ == requests.records().take(id as int),
        decreases count - id,
    {
        match requests.get(id) {
            Some(request) => {
                all.push(request.clone());
                assert(requests.records().take(id + 1) =~= requests.records().take(
                    id as int,
                ).push(requests.records()[id as int]));
            },
            None => {},
        }
        id = id + 1;
    }
    assert(requests.records().take(count as int) =~= requests.records());
    all
}

/// Counts, for `service_type`, the requests, the requests in progress and
/// the available providers.
pub fn get_service_stats(
    requests: &EntityStore<ServiceRequest>,
    providers: &ProviderRegistry,
    service_type: ServiceType,
) -> (stats: ServiceStats)
    ensures
        stats.total_requests == requests.records().filter(asks_for(service_type)).len(),
        stats.active_requests == requests.records().filter(active_for(service_type)).len(),
        stats.available_providers == providers.values().filter(
            available_for(service_type),
        ).len(),
{
    let mut total_requests: u64 = 0;
    let mut active_requests: u64 = 0;
    let mut available_providers: u64 = 0;

    let count = requests.upcoming_id();
    let mut id: u64 = 0;
    proof {
        assert(requests.records().take(0) =~= Seq::<ServiceRequest>::empty());
        lemma_filter_none(asks_for(service_type));
        lemma_filter_none(active_for(service_type));
    }
    while id < count
        invariant
            count == requests.next_id(),
            id <= count,
            total_requests == requests.records().take(id as int).filter(
                asks_for(service_type),
            ).len(),
            active_requests == requests.records().take(id as int).filter(
                active_for(service_type),
            ).len(),
        decreases count - id,
    {
        proof {
            lemma_filter_next(requests.records(), id as int, asks_for(service_type));
            lemma_filter_next(requests.records(), id as int, active_for(service_type));
            requests.records().take(id as int).lemma_filter_len(asks_for(service_type));
            requests.records().take(id as int).lemma_filter_len(active_for(service_type));
        }
        match requests.get(id) {
            Some(request) => {
                if request.service_type == service_type {
                    total_requests = total_requests + 1;
                    if request.status == RequestStatus::InProgress {
                        active_requests = active_requests + 1;
                    }
                }
            },
            None => {},
        }
        id = id + 1;
    }
    assert(requests.records().take(count as int) =~= requests.records());

    let provider_count = providers.len();
    let mut i: u64 = 0;
    proof {
        assert(providers.values().take(0) =~= Seq::<Provider>::empty());
        lemma_filter_none(available_for(service_type));
    }
    while i < provider_count
        invariant
            provider_count == providers.values().len(),
            i <= provider_count,
            available_providers == providers.values().take(i as int).filter(
                available_for(service_type),
            ).len(),
        decreases provider_count - i,
    {
        proof {
            lemma_filter_next(providers.values(), i as int, available_for(service_type));
            providers.values().take(i as int).lemma_filter_len(available_for(service_type));
        }
        match providers.get(i) {
            Some(provider) => {
                if provider.service_type == service_type && provider.is_available {
                    available_providers = available_providers + 1;
                }
            },
            None => {},
        }
        i = i + 1;
    }
    assert(providers.values().take(provider_count as int) =~= providers.values());

    ServiceStats { total_requests, active_requests, available_providers }
}

} // verus!
