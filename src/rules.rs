use vstd::prelude::*;

use crate::role::Role;

verus! {

/// The fewest and the most transactions one query returns.
pub const MIN_QUERY_LIMIT: u32 = 1;

pub const MAX_QUERY_LIMIT: u32 = 50;

/// Whether `role` may list, change or delete other users: only a role above
/// `Maintainer`.
pub fn can_manage_users(role: Role) -> (r: bool)
    ensures
        r == (role.rank() > Role::Maintainer.rank()),
{
    role.level() > Role::Maintainer.level()
}

/// Whether `caller` may change a user whose role is `target`: a manager may,
/// except that only an admin may change an admin.
pub fn may_update_user(caller: Role, target: Role) -> (r: bool)
    ensures
        r == (caller.rank() > Role::Maintainer.rank() && (target == Role::Admin ==> caller
            == Role::Admin)),
{
    if !can_manage_users(caller) {
        return false;
    }
    !(target == Role::Admin && caller != Role::Admin)
}

/// Whether a caller may query the transactions of `user_ids`: a plain user
/// only their own (an empty list means everyone's).
pub fn transaction_query_allowed(role: Role, caller_id: u32, user_ids: &Vec<u32>) -> (r: bool)
    ensures
        r == (role != Role::User || (user_ids@.len() > 0 && forall|i: int|
            0 <= i < user_ids@.len() ==> user_ids@[i] == caller_id)),
{
    if role != Role::User {
        return true;
    }
    if user_ids.len() == 0 {
        return false;
    }
    let mut i: usize = 0;
    while i < user_ids.len()
        invariant
            0 <= i <= user_ids@.len(),
            role == Role::User,
            user_ids@.len() > 0,
            forall|j: int| 0 <= j < i ==> user_ids@[j] == caller_id,
        decreases user_ids@.len() - i,
    {
        if user_ids[i] != caller_id {
            assert(user_ids@[i as int] != caller_id);
            return false;
        }
        i = i + 1;
    }
    true
}

/// `limit` brought into the range a query accepts.
pub fn clamp_query_limit(limit: u32) -> (r: u32)
    ensures
        r == (if limit < MIN_QUERY_LIMIT {
            MIN_QUERY_LIMIT
        } else if limit > MAX_QUERY_LIMIT {
            MAX_QUERY_LIMIT
        } else {
            limit
        }),
{
    if limit < MIN_QUERY_LIMIT {
        MIN_QUERY_LIMIT
    } else if limit > MAX_QUERY_LIMIT {
        MAX_QUERY_LIMIT
    } else {
        limit
    }
}

} // verus!
