//! The list of administrators.

use crate::errors::ActionError;
use crate::identity::same_principal;
use candid::Principal;
use vstd::prelude::*;

verus! {

/// Whether `user` is on the list.
pub fn check_is_admin(admins: &Vec<Principal>, user: Principal) -> (is_admin: bool)
    ensures
        is_admin == admins@.contains(user),
{
    let mut i: usize = 0;
    while i < admins.len()
        invariant
            i <= admins.len(),
            forall|j: int| 0 <= j < i ==> admins@[j] != user,
        decreases admins.len() - i,
    {
        if same_principal(&admins[i], &user) {
            return true;
        }
        i = i + 1;
    }
    false
}

/// Appends `user` to the list, whether or not it is on it already. Always
/// succeeds.
pub fn add_admin(admins: &mut Vec<Principal>, user: Principal) -> (result: Result<(), ActionError>)
    ensures
        result == Ok::<(), ActionError>(()),
        final(admins)@ == old(admins)@.push(user),
{
    admins.push(user);
    Ok(())
}

} // verus!
