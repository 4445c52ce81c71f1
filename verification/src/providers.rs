//! Service providers.
//!
//! The registry assigns the id of each provider from a counter of its own,
//! so that no two providers ever share an id and registering one provider
//! never displaces another.

use crate::entity_store::EntityStore;
use crate::errors::ActionError;
use crate::services::ServiceType;
use vstd::prelude::*;

verus! {

/// The rating that a new provider starts with, in tenths of a point.
pub const INITIAL_RATING_TENTHS: u32 = 50;

/// A registered provider of one kind of service.
#[derive(Debug, PartialEq, Eq)]
pub struct Provider {
    /// The id that the registry assigned.
    pub id: u64,
    pub name: String,
    pub service_type: ServiceType,
    pub is_available: bool,
    pub current_load: u64,
    pub total_cases: u64,
    /// The rating in tenths of a point: 50 stands for 5.0.
    pub rating_tenths: u32,
}

impl Clone for Provider {
    fn clone(&self) -> (copy: Self)
        ensures
            copy == *self,
    {
        Provider {
            id: self.id,
            name: self.name.clone(),
            service_type: self.service_type,
            is_available: self.is_available,
            current_load: self.current_load,
            total_cases: self.total_cases,
            rating_tenths: self.rating_tenths,
        }
    }
}

/// The short form of a provider.
#[derive(Debug, PartialEq, Eq)]
pub struct ProviderSummary {
    pub id: u64,
    pub service_type: ServiceType,
    pub name: String,
}

/// What is asked of a new provider.
#[derive(Debug, PartialEq, Eq)]
pub struct ProviderInput {
    pub name: String,
    pub service_type: ServiceType,
}

/// Whether some provider in `providers` bears the name `name`.
pub open spec fn name_taken(providers: Seq<Provider>, name: Seq<char>) -> bool {
    exists|i: int| 0 <= i < providers.len() && (#[trigger] providers[i]).name@ == name
}

/// Every provider carries the id of its position: the ids are
/// `0, 1, 2, ...` in order.
pub open spec fn ids_are_positions(providers: Seq<Provider>) -> bool {
    forall|i: int| 0 <= i < providers.len() ==> (#[trigger] providers[i]).id == i
}

/// No two providers share an id.
pub open spec fn ids_are_distinct(providers: Seq<Provider>) -> bool {
    forall|i: int, j: int|
        0 <= i < j < providers.len() ==> (#[trigger] providers[i]).id != (
        #[trigger] providers[j]).id
}

/// The provider that `add_provider` stores for `input` under `id`.
pub open spec fn new_provider(id: u64, input: ProviderInput) -> Provider {
    Provider {
        id,
        name: input.name,
        service_type: input.service_type,
        is_available: true,
        current_load: 0,
        total_cases: 0,
        rating_tenths: INITIAL_RATING_TENTHS,
    }
}

/// The registered providers, under the ids that the registry assigned.
pub struct ProviderRegistry {
    store: EntityStore<Provider>,
}

impl ProviderRegistry {
    /// The providers in the order in which they were registered, which is
    /// the order of their ids.
    pub closed spec fn values(&self) -> Seq<Provider> {
        self.store.records()
    }

    /// Every provider carries the id it was registered under. This holds of
    /// every registry at all times.
    #[verifier::type_invariant]
    spec fn wf(&self) -> bool {
        ids_are_positions(self.store.records())
    }

    /// A registry without providers.
    pub fn new() -> (registry: Self)
        ensures
            registry.values() == Seq::<Provider>::empty(),
    {
        ProviderRegistry { store: EntityStore::new() }
    }

    /// The number of providers, which is the id that the next provider
    /// will get.
    pub fn len(&self) -> (count: u64)
        ensures
            count == self.values().len(),
            ids_are_positions(self.values()),
            ids_are_distinct(self.values()),
    {
        proof {
            use_type_invariant(self);
        }
        self.store.upcoming_id()
    }

    /// The provider with the id `id`, if there is one.
    pub fn get(&self, id: u64) -> (found: Option<&Provider>)
        ensures
            match found {
                Some(provider) => id < self.values().len() && *provider == self.values()[id as int]
                    && provider.id == id,
                None => id >= self.values().len(),
            },
    {
        proof {
            use_type_invariant(self);
        }
        self.store.get(id)
    }
}

/// Registers a provider under the next free id.
///
/// Fails with `DuplicateProviderName`, changing nothing, if a registered
/// provider already bears the name. Otherwise the new provider is appended
/// under an id that no provider has had before: every provider registered
/// earlier stays as it was.
pub fn add_provider(providers: &mut ProviderRegistry, provider_input: ProviderInput) -> (result:
    Result<(), ActionError>)
    ensures
        ids_are_positions(final(providers).values()),
        ids_are_distinct(final(providers).values()),
        name_taken(old(providers).values(), provider_input.name@) ==> {
            &&& result == Err::<(), ActionError>(ActionError::DuplicateProviderName)
            &&& final(providers).values() == old(providers).values()
        },
        !name_taken(old(providers).values(), provider_input.name@) ==> {
            &&& result == Ok::<(), ActionError>(())
            &&& final(providers).values() == old(providers).values().push(
                new_provider(old(providers).values().len() as u64, provider_input),
            )
        },
{
    let count = providers.len();
    let mut id: u64 = 0;
    while id < count
        invariant
            *providers == *old(providers),
            count == providers.values().len(),
            ids_are_positions(providers.values()),
            id <= count,
            forall|j: int| 0 <= j < id ==> (#[trigger] providers.values()[j]).name@
                != provider_input.name@,
        decreases count - id,
    {
        match providers.get(id) {
            Some(provider) => {
                if provider.name == provider_input.name {
                    return Err(ActionError::DuplicateProviderName);
                }
            },
            None => {},
        }
        id = id + 1;
    }
    let provider = Provider {
        id: count,
        name: provider_input.name,
        service_type: provider_input.service_type,
        is_available: true,
        current_load: 0,
        total_cases: 0,
        rating_tenths: INITIAL_RATING_TENTHS,
    };
    // The registry is taken apart and put together again, so that no
    // registry ever exists in which a provider lacks its id.
    let mut taken = ProviderRegistry::new();
    std::mem::swap(providers, &mut taken);
    let ProviderRegistry { store: mut store } = taken;
    store.add(provider);
    *providers = ProviderRegistry { store };
    Ok(())
}

/// All providers, in the order of their ids.
pub fn get_all_providers(providers: &ProviderRegistry) -> (all: Vec<Provider>)
    ensures
        all@ == providers.values(),
        ids_are_positions(all@),
{
    let mut all: Vec<Provider> = Vec::new();
    let count = providers.len();
    let mut id: u64 = 0;
    while id < count
        invariant
            count == providers.values().len(),
            id <= count,
            all@ == providers.values().take(id as int),
        decreases count - id,
    {
        match providers.get(id) {
            Some(provider) => {
                all.push(provider.clone());
            },
            None => {},
        }
        assert(providers.values().take(id + 1) =~= providers.values().take(id as int).push(
            providers.values()[id as int],
        ));
        id = id + 1;
    }
    assert(providers.values().take(count as int) =~= providers.values());
    all
}

} // verus!
