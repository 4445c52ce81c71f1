//! Registered users. Registering is rewarded with the initial grant.

use crate::errors::ActionError;
use crate::principal_map::PrincipalMap;
use crate::rewards::{dispatch_reward, settle, ActionOutcome, RewardKind};
use crate::token_system::Ledger;
use candid::Principal;
use vstd::prelude::*;

verus! {

/// What a caller hands in to register.
#[derive(Debug, PartialEq, Eq)]
pub struct UserRegistration {
    pub user_type: String,
    pub full_name: String,
    pub email: String,
    pub license_number: Option<String>,
    pub organization: Option<String>,
}

/// A registered user.
#[derive(Debug, PartialEq, Eq)]
pub struct User {
    pub id: Principal,
    pub user_type: String,
    pub full_name: String,
    pub email: String,
    pub license_number: Option<String>,
    pub organization: Option<String>,
    pub created_at: u64,
}

/// Every user carries the identity it is stored under.
pub open spec fn users_carry_their_ids(users: Map<Principal, User>) -> bool {
    forall|id: Principal| #[trigger] users.contains_key(id) ==> users[id].id == id
}

/// The user that `register_user` stores for `registration`.
pub open spec fn new_user(caller: Principal, now: u64, registration: UserRegistration) -> User {
    User {
        id: caller,
        user_type: registration.user_type,
        full_name: registration.full_name,
        email: registration.email,
        license_number: registration.license_number,
        organization: registration.organization,
        created_at: now,
    }
}

/// Registers `caller` as a user and grants the initial tokens.
///
/// A caller who is registered already is refused with `AlreadyRegistered`
/// before anything changes. Otherwise the user is stored, and then the
/// ledger is asked to initialize the caller's tokens. The user stays
/// registered whether or not the ledger does so: the outcome carries the
/// caller's identity either way, and the reason and a note if the
/// initialization failed.
pub fn register_user(
    users: &mut PrincipalMap<User>,
    ledger: &mut Ledger,
    caller: Principal,
    now: u64,
    registration: UserRegistration,
) -> (result: Result<ActionOutcome<Principal>, ActionError>)
    ensures
        old(ledger)@.wf(),
        final(ledger)@.wf(),
        users_carry_their_ids(old(users)@) ==> users_carry_their_ids(final(users)@),
        old(users)@.contains_key(caller) ==> {
            &&& result == Err::<ActionOutcome<Principal>, ActionError>(
                ActionError::AlreadyRegistered,
            )
            &&& final(users).keys() == old(users).keys()
            &&& final(users).values() == old(users).values()
            &&& final(ledger)@ == old(ledger)@
        },
        !old(users)@.contains_key(caller) ==> {
            let reward = RewardKind::Registration.operation(caller, now);
            &&& result is Ok
            &&& result->Ok_0.settles(caller, RewardKind::Registration, old(ledger)@.outcome(reward))
            &&& final(users)@ == old(users)@.insert(caller, new_user(caller, now, registration))
            &&& final(users).keys() == old(users).keys().push(caller)
            &&& final(users).values() == old(users).values().push(
                new_user(caller, now, registration),
            )
            &&& final(ledger)@ == old(ledger)@.apply(reward)
        },
{
    if users.contains_key(caller) {
        proof {
            use_type_invariant(&*ledger);
            ledger.lemma_view_wf();
        }
        return Err(ActionError::AlreadyRegistered);
    }
    let user = User {
        id: caller,
        user_type: registration.user_type,
        full_name: registration.full_name,
        email: registration.email,
        license_number: registration.license_number,
        organization: registration.organization,
        created_at: now,
    };
    users.insert(caller, user);
    let reward = dispatch_reward(ledger, caller, RewardKind::Registration, now);
    Ok(settle(caller, RewardKind::Registration, reward))
}

} // verus!
