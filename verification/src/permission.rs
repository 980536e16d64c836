//! Permission rule: who may resolve an open request.

use vstd::prelude::*;

verus! {

/// An actor may resolve a request exactly when they filed it themselves or
/// when they hold the board's manager role.
pub open spec fn spec_can_resolve(
    actor_id: u64,
    actor_role_ids: Seq<u64>,
    request_author_id: u64,
    manager_role_id: u64,
) -> bool {
    actor_id == request_author_id || actor_role_ids.contains(manager_role_id)
}

/// Decides whether `actor_id`, holding the roles in `actor_role_ids`, may
/// resolve a request filed by `request_author_id` on a board managed by
/// `manager_role_id`. Pure and total: true exactly for the request's author
/// and for holders of the manager role, false for every other actor.
pub fn can_resolve(
    actor_id: u64,
    actor_role_ids: &Vec<u64>,
    request_author_id: u64,
    manager_role_id: u64,
) -> (allowed: bool)
    ensures
        allowed == spec_can_resolve(actor_id, actor_role_ids@, request_author_id, manager_role_id),
{
    if actor_id == request_author_id {
        return true;
    }
    let mut i: usize = 0;
    while i < actor_role_ids.len()
        invariant
            i <= actor_role_ids.len(),
            forall|j: int| 0 <= j < i ==> actor_role_ids@[j] != manager_role_id,
        decreases actor_role_ids.len() - i,
    {
        if actor_role_ids[i] == manager_role_id {
            return true;
        }
        i = i + 1;
    }
    false
}

} // verus!
