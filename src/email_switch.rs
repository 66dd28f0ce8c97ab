use vstd::prelude::*;
use vstd::hash_map::HashMapWithView;

verus! {

broadcast use vstd::std_specs::hash::group_hash_axioms;

/// How long, in seconds, a request to switch email stays live.
pub const EMAIL_SWITCH_TTL: i64 = 60;

/// Whether `user` has a live request at `now`: one made no later than `now`
/// and less than the TTL before it.
pub open spec fn switch_live(pending: Map<u32, i64>, user: u32, now: int) -> bool {
    &&& pending.contains_key(user)
    &&& pending[user] <= now
    &&& now - pending[user] < EMAIL_SWITCH_TTL
}

/// Pending email-switch requests: at most one per user, with the time it was
/// made. Making a request again refreshes it.
pub struct EmailSwitchRequests {
    pending: HashMapWithView<u32, i64>,
}

impl View for EmailSwitchRequests {
    type V = Map<u32, i64>;

    closed spec fn view(&self) -> Map<u32, i64> {
        self.pending@
    }
}

impl EmailSwitchRequests {
    /// No pending request.
    pub fn new() -> (r: EmailSwitchRequests)
        ensures
            r@ == Map::<u32, i64>::empty(),
    {
        EmailSwitchRequests { pending: HashMapWithView::new() }
    }

    /// Records that `user` asked at `now` to switch email, replacing an
    /// earlier request.
    pub fn initiate_email_switch(&mut self, user: u32, now: i64)
        ensures
            final(self)@ == old(self)@.insert(user, now),
    {
        self.pending.insert(user, now);
    }

    /// Whether `user` has a live request at `now`.
    pub fn email_switch_exists(&self, user: u32, now: i64) -> (r: bool)
        ensures
            r == switch_live(self@, user, now as int),
    {
        match self.pending.get(&user) {
            Some(made) => *made <= now && (now as i128) - (*made as i128) < EMAIL_SWITCH_TTL as i128,
            None => false,
        }
    }

    /// Drops the request of `user`, if any.
    pub fn remove(&mut self, user: u32)
        ensures
            final(self)@ == old(self)@.remove(user),
    {
        let _ = self.pending.remove(&user);
    }
}

} // verus!
