use vstd::prelude::*;
use vstd::hash_map::StringHashMap;

use crate::error::AuthError;
use crate::outside::{random_token, weeks_in_seconds};

verus! {

/// How many weeks a session, and the cookie that carries its token, lasts.
pub const SESSION_WEEKS: i64 = 4;

/// The lifetime of a session in seconds.
pub open spec fn session_lifetime() -> int {
    SESSION_WEEKS * 604800
}

/// A session: the user it authenticates and the times it was issued and
/// stops being valid, in seconds since the Unix epoch.
#[derive(Clone, Copy, Debug, PartialEq, Eq, Structural)]
pub struct Session {
    pub id: u64,
    pub user_id: u32,
    pub created_at: i64,
    pub expires_at: i64,
}

/// The session that issuing number `id` to `user_id` at `now` gives.
pub open spec fn new_session(id: u64, user_id: u32, now: int) -> Session {
    Session { id, user_id, created_at: now as i64, expires_at: (now + session_lifetime()) as i64 }
}

/// What validating `token` at `now` gives: its session while unexpired.
pub open spec fn validated(sessions: Map<Seq<char>, Session>, token: Seq<char>, now: int) -> Option<
    Session,
> {
    if sessions.contains_key(token) && now < sessions[token].expires_at {
        Some(sessions[token])
    } else {
        None
    }
}

/// The view of an optional token.
pub open spec fn token_view(token: Option<&str>) -> Option<Seq<char>> {
    match token {
        Some(t) => Some(t@),
        None => None,
    }
}

/// Whether a session can be issued at `now` with `next_id` and `token`.
pub open spec fn can_issue(sessions: Map<Seq<char>, Session>, next_id: u64, token: Seq<char>, now: int) -> bool {
    &&& !sessions.contains_key(token)
    &&& next_id < u64::MAX
    &&& now + session_lifetime() <= i64::MAX
}

/// Whether any freshly drawn random token can be issued at `now`: no stored
/// token has a random token's length, a session number is left, and the
/// expiry fits.
pub open spec fn room_for_random_token(sessions: Map<Seq<char>, Session>, next_id: u64, now: int) -> bool {
    &&& forall|k: Seq<char>| sessions.contains_key(k) ==> k.len() != 36
    &&& next_id < u64::MAX
    &&& now + session_lifetime() <= i64::MAX
}

/// Sessions by token.
pub struct SessionStore {
    sessions: StringHashMap<Session>,
    next_id: u64,
}

impl View for SessionStore {
    type V = Map<Seq<char>, Session>;

    closed spec fn view(&self) -> Map<Seq<char>, Session> {
        self.sessions@
    }
}

/// The session lifetime in seconds.
pub fn lifetime_seconds() -> (r: i64)
    ensures
        r == session_lifetime(),
{
    weeks_in_seconds(SESSION_WEEKS)
}

impl SessionStore {
    /// The number the next session will get.
    pub closed spec fn next_id(&self) -> u64 {
        self.next_id
    }

    /// A store with no session.
    pub fn new() -> (s: SessionStore)
        ensures
            s@ == Map::<Seq<char>, Session>::empty(),
            s.next_id() == 1,
    {
        SessionStore { sessions: StringHashMap::new(), next_id: 1 }
    }

    /// Stores a session for `user_id` under `token`, issued at `now`. A token
    /// that is already in use, exhausted session numbers, or an expiry past
    /// the largest timestamp fail with `Persistence` and change nothing.
    pub fn insert_session(&mut self, user_id: u32, token: String, now: i64) -> (r: Result<
        Session,
        AuthError,
    >)
        ensures
            r is Ok <==> can_issue(old(self)@, old(self).next_id(), token@, now as int),
            r matches Ok(s) ==> {
                &&& s == new_session(old(self).next_id(), user_id, now as int)
                &&& final(self)@ == old(self)@.insert(token@, s)
                &&& final(self).next_id() == old(self).next_id() + 1
            },
            r matches Err(e) ==> {
                &&& e == AuthError::Persistence
                &&& final(self)@ == old(self)@
                &&& final(self).next_id() == old(self).next_id()
            },
    {
        if self.sessions.contains_key(token.as_str()) || self.next_id == u64::MAX {
            return Err(AuthError::Persistence);
        }
        let lifetime: i64 = lifetime_seconds();
        if now > i64::MAX - lifetime {
            return Err(AuthError::Persistence);
        }
        let session = Session {
            id: self.next_id,
            user_id,
            created_at: now,
            expires_at: now + lifetime,
        };
        self.sessions.insert(token, session);
        self.next_id = self.next_id + 1;
        Ok(session)
    }

    /// Issues a session for `user_id` at `now` under a fresh random token and
    /// returns the session's number and the token. It succeeds whenever no
    /// stored token could collide with a random one; on failure nothing
    /// changes.
    pub fn create_session(&mut self, user_id: u32, now: i64) -> (r: Result<(u64, String), AuthError>)
        ensures
            room_for_random_token(old(self)@, old(self).next_id(), now as int) ==> r is Ok,
            r matches Ok((id, token)) ==> {
                &&& can_issue(old(self)@, old(self).next_id(), token@, now as int)
                &&& id == old(self).next_id()
                &&& final(self)@ == old(self)@.insert(token@, new_session(id, user_id, now as int))
                &&& final(self).next_id() == old(self).next_id() + 1
            },
            r matches Err(e) ==> {
                &&& e == AuthError::Persistence
                &&& final(self)@ == old(self)@
                &&& final(self).next_id() == old(self).next_id()
            },
    {
        let token = random_token();
        let kept = token.clone();
        match self.insert_session(user_id, token, now) {
            Ok(session) => Ok((session.id, kept)),
            Err(e) => Err(e),
        }
    }

    /// The session that `token` stands for at `now`, if it exists and has not
    /// expired. Reads only.
    pub fn validate_session(&self, token: &str, now: i64) -> (r: Option<Session>)
        ensures
            r == validated(self@, token@, now as int),
    {
        match self.sessions.get(token) {
            Some(session) => if now < session.expires_at {
                Some(*session)
            } else {
                None
            },
            None => None,
        }
    }

    /// Deletes the session of `token`; a token with no session is no error.
    pub fn invalidate_session(&mut self, token: &str)
        ensures
            final(self)@ == old(self)@.remove(token@),
            final(self).next_id() == old(self).next_id(),
    {
        self.sessions.remove(token);
    }
}

/// A session validates, for the user it was issued to, at every time before
/// it expires, whatever the store held before it was issued.
pub proof fn lemma_validate_after_create(
    before: Map<Seq<char>, Session>,
    token: Seq<char>,
    id: u64,
    user_id: u32,
    now: int,
    later: int,
)
    requires
        now + session_lifetime() <= i64::MAX,
        i64::MIN <= now,
        later < now + session_lifetime(),
    ensures
        validated(before.insert(token, new_session(id, user_id, now)), token, later) == Some(
            new_session(id, user_id, now),
        ),
        validated(before.insert(token, new_session(id, user_id, now)), token, later).unwrap().user_id
            == user_id,
{
}

/// Issuing or invalidating another token leaves what `token` validates to
/// unchanged.
pub proof fn lemma_validate_other_token(
    sessions: Map<Seq<char>, Session>,
    token: Seq<char>,
    other: Seq<char>,
    s: Session,
    now: int,
)
    requires
        other != token,
    ensures
        validated(sessions.insert(other, s), token, now) == validated(sessions, token, now),
        validated(sessions.remove(other), token, now) == validated(sessions, token, now),
{
}

/// After invalidation a token validates to nothing, and invalidating twice
/// is the same as invalidating once.
pub proof fn lemma_invalidate(sessions: Map<Seq<char>, Session>, token: Seq<char>, now: int)
    ensures
        validated(sessions.remove(token), token, now) is None,
        sessions.remove(token).remove(token) == sessions.remove(token),
{
    assert(sessions.remove(token).remove(token) =~= sessions.remove(token));
}

} // verus!
