use vstd::prelude::*;

use crate::text::text_is;
use crate::identity::IdentityStore;
use crate::permission::{access_allowed, PermissionTable};
use crate::error::AuthError;
use crate::role::Role;
use crate::session::{token_view, validated, Session, SessionStore};
use crate::users::User;

verus! {

/// The paths that pass without a session: the login page and the entry
/// points of the OAuth provider.
pub open spec fn is_public_path(path: Seq<char>) -> bool {
    ||| path == "/login"@
    ||| path == "/api/auth/google"@
    ||| path == "/api/auth/google/callback"@
}

/// Whether `path` passes without a session.
pub fn is_public(path: &str) -> (r: bool)
    ensures
        r == is_public_path(path@),
{
    text_is(path, "/login") || text_is(path, "/api/auth/google") || text_is(
        path,
        "/api/auth/google/callback",
    )
}

/// What the session stage does with a request.
#[derive(Clone, Copy, Debug, PartialEq, Eq, Structural)]
pub enum GateDecision {
    /// Pass the request on with no identity attached.
    Proceed,
    /// Pass the request on with the caller's session attached.
    ProceedWithSession(Session),
    /// Send the caller to the login page, clearing the cookie it presented
    /// if that cookie no longer validates.
    RedirectToLogin { clear_cookie: bool },
}

/// The valid session that a presented cookie holds at `now`.
pub open spec fn cookie_session(sessions: Map<Seq<char>, Session>, cookie: Option<Seq<char>>, now: int) -> Option<Session> {
    match cookie {
        Some(t) => validated(sessions, t, now),
        None => None,
    }
}

/// The session stage's decision for `path` with the presented cookie at
/// `now`.
pub open spec fn gate_decision(
    sessions: Map<Seq<char>, Session>,
    path: Seq<char>,
    cookie: Option<Seq<char>>,
    now: int,
) -> GateDecision {
    if is_public_path(path) {
        GateDecision::Proceed
    } else {
        match cookie {
            None => GateDecision::RedirectToLogin { clear_cookie: false },
            Some(t) => match validated(sessions, t, now) {
                Some(s) => GateDecision::ProceedWithSession(s),
                None => GateDecision::RedirectToLogin { clear_cookie: true },
            },
        }
    }
}

/// The session stage: public paths pass; elsewhere a request needs a cookie
/// whose session is valid, and is sent to the login page otherwise. It only
/// reads the sessions and never creates one.
pub fn session_gate(sessions: &SessionStore, path: &str, cookie: Option<&str>, now: i64) -> (r:
    GateDecision)
    ensures
        r == gate_decision(sessions@, path@, token_view(cookie), now as int),
{
    if is_public(path) {
        return GateDecision::Proceed;
    }
    match cookie {
        None => GateDecision::RedirectToLogin { clear_cookie: false },
        Some(token) => match sessions.validate_session(token, now) {
            Some(s) => GateDecision::ProceedWithSession(s),
            None => GateDecision::RedirectToLogin { clear_cookie: true },
        },
    }
}

/// The permission stage's decision: a path the table does not list passes
/// without looking the caller up; a listed one passes when no caller is
/// known (the session stage has ruled on those) or the caller's role is high
/// enough.
pub open spec fn permission_decision(table: Map<Seq<char>, Role>, path: Seq<char>, caller: Option<Role>) -> bool {
    !table.contains_key(path) || caller is None || access_allowed(table, caller.unwrap(), path)
}

impl IdentityStore {
    /// The role of the user whose session `cookie` holds at `now`.
    pub open spec fn role_of(&self, cookie: Option<Seq<char>>, now: int) -> Option<Role> {
        match cookie_session(self.sessions@, cookie, now) {
            Some(s) => if 1 <= s.user_id <= self.users@.len() {
                Some(self.users@[s.user_id - 1].role)
            } else {
                None
            },
            None => None,
        }
    }

    /// The role of the user whose session `cookie` holds at `now`, if the
    /// session is valid and its user exists.
    pub fn caller_role(&self, cookie: Option<&str>, now: i64) -> (r: Option<Role>)
        requires
            self.wf(),
        ensures
            r == self.role_of(token_view(cookie), now as int),
    {
        match cookie {
            Some(token) => match self.sessions.validate_session(token, now) {
                Some(s) => match self.users.get(s.user_id) {
                    Some(u) => Some(u.role),
                    None => None,
                },
                None => None,
            },
            None => None,
        }
    }

    /// The permission stage for `path` and the presented cookie at `now`.
    pub fn permission_gate(&self, table: &PermissionTable, path: &str, cookie: Option<&str>, now: i64) -> (r: bool)
        requires
            self.wf(),
        ensures
            r == permission_decision(table@, path@, self.role_of(token_view(cookie), now as int)),
    {
        if !table.contains(path) {
            return true;
        }
        match self.caller_role(cookie, now) {
            Some(role) => table.check_access(role, path),
            None => true,
        }
    }

    /// The user whose session `cookie` holds at `now`; `SessionInvalid` when
    /// there is no valid session or its user is gone.
    pub fn user_from_cookie(&self, cookie: Option<&str>, now: i64) -> (r: Result<&User, AuthError>)
        requires
            self.wf(),
        ensures
            r is Ok <==> self.role_of(token_view(cookie), now as int) is Some,
            r matches Ok(u) ==> cookie_session(self.sessions@, token_view(cookie), now as int) matches Some(
                s,
            ) && *u == self.users@[s.user_id - 1],
            r matches Err(e) ==> e == AuthError::SessionInvalid,
    {
        match cookie {
            Some(token) => match self.sessions.validate_session(token, now) {
                Some(s) => match self.users.get(s.user_id) {
                    Some(u) => Ok(u),
                    None => Err(AuthError::SessionInvalid),
                },
                None => Err(AuthError::SessionInvalid),
            },
            None => Err(AuthError::SessionInvalid),
        }
    }

    /// Starts an email switch for the holder of the session in `cookie`,
    /// replacing any earlier request of theirs; `SessionInvalid` without a
    /// valid session.
    pub fn request_email_switch(&mut self, cookie: Option<&str>, now: i64) -> (r: Result<u32, AuthError>)
        requires
            old(self).wf(),
        ensures
            final(self).users == old(self).users,
            final(self).sessions == old(self).sessions,
            final(self).orders == old(self).orders,
            match cookie_session(old(self).sessions@, token_view(cookie), now as int) {
                Some(s) => {
                    &&& r == Ok::<u32, AuthError>(s.user_id)
                    &&& final(self).email_switches@ == old(self).email_switches@.insert(s.user_id, now)
                },
                None => {
                    &&& r == Err::<u32, AuthError>(AuthError::SessionInvalid)
                    &&& final(self).email_switches@ == old(self).email_switches@
                },
            },
    {
        let session = match cookie {
            Some(token) => self.sessions.validate_session(token, now),
            None => None,
        };
        match session {
            Some(s) => {
                self.email_switches.initiate_email_switch(s.user_id, now);
                Ok(s.user_id)
            },
            None => Err(AuthError::SessionInvalid),
        }
    }
}

} // verus!
