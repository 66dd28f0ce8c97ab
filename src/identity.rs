use vstd::prelude::*;

use crate::bankid::{reports_complete, reports_pending, CollectResponse};
use crate::email_switch::{switch_live, EmailSwitchRequests};
use crate::error::AuthError;
use crate::role::Role;
use crate::session::{
    can_issue, new_session, room_for_random_token, token_view, validated, Session, SessionStore,
};
use crate::users::{get_or_create_outcome, lookup_external, lookup_or_next, with_identity, User, UserDirectory};
use crate::verification::{
    status_advances, OrderBook, OrderStatus, PollAction, VerificationOrder, MAX_POLLS,
};

verus! {

/// What storing a session for `user_id` under `token` at `now` does: the
/// sessions before and after, and the result.
pub open spec fn issue_outcome(
    before: &SessionStore,
    after: &SessionStore,
    user_id: u32,
    token: Seq<char>,
    now: int,
    r: Result<Session, AuthError>,
) -> bool {
    if can_issue(before@, before.next_id(), token, now) {
        &&& r == Ok::<Session, AuthError>(new_session(before.next_id(), user_id, now))
        &&& after@ == before@.insert(token, new_session(before.next_id(), user_id, now))
        &&& after.next_id() == before.next_id() + 1
    } else {
        &&& r == Err::<Session, AuthError>(AuthError::Persistence)
        &&& after@ == before@
        &&& after.next_id() == before.next_id()
    }
}

/// The session in a finalize result; `BadRequest` where there is none.
pub open spec fn session_of(r: Result<Option<Session>, AuthError>) -> Result<Session, AuthError> {
    match r {
        Ok(Some(s)) => Ok(s),
        Ok(None) => Err(AuthError::BadRequest),
        Err(e) => Err(e),
    }
}

/// Everything the identity subsystem keeps: users, sessions, pending email
/// switches and verification orders.
pub struct IdentityStore {
    pub users: UserDirectory,
    pub sessions: SessionStore,
    pub email_switches: EmailSwitchRequests,
    pub orders: OrderBook,
}

impl IdentityStore {
    /// Users are numbered by their position.
    pub open spec fn wf(&self) -> bool {
        self.users.wf()
    }

    /// An empty store.
    pub fn new() -> (s: IdentityStore)
        ensures
            s.wf(),
            s.users@ == Seq::<User>::empty(),
            s.sessions@ == Map::<Seq<char>, Session>::empty(),
            s.sessions.next_id() == 1,
            s.email_switches@ == Map::<u32, i64>::empty(),
            s.orders@ == Map::<Seq<char>, VerificationOrder>::empty(),
    {
        IdentityStore {
            users: UserDirectory::new(),
            sessions: SessionStore::new(),
            email_switches: EmailSwitchRequests::new(),
            orders: OrderBook::new(),
        }
    }

    /// The user whose email switch an OAuth exchange for `external_id`
    /// completes: the holder of the caller's valid session, while that user
    /// has a live request and no other user holds `external_id`.
    pub open spec fn switch_target(&self, caller: Option<Seq<char>>, external_id: Seq<char>, now: int) -> Option<u32> {
        match caller {
            Some(t) => match validated(self.sessions@, t, now) {
                Some(s) => if switch_live(self.email_switches@, s.user_id, now) && 1 <= s.user_id
                    <= self.users@.len() && (lookup_external(self.users@, external_id) is None
                    || lookup_external(self.users@, external_id) == Some(s.user_id)) {
                    Some(s.user_id)
                } else {
                    None
                },
                None => None,
            },
            None => None,
        }
    }

    /// The user that an OAuth identity resolves to, or the failure.
    pub open spec fn resolved_id(&self, caller: Option<Seq<char>>, external_id: Seq<char>, now: int) -> Result<
        u32,
        AuthError,
    > {
        match self.switch_target(caller, external_id, now) {
            Some(u) => Ok(u),
            None => lookup_or_next(self.users@, external_id),
        }
    }

    /// What resolving an OAuth identity does to the users, the pending
    /// switches and the result.
    pub open spec fn oauth_resolution(
        &self,
        users_after: Seq<User>,
        switches_after: Map<u32, i64>,
        caller: Option<Seq<char>>,
        email: String,
        external_id: String,
        now: int,
        r: Result<u32, AuthError>,
    ) -> bool {
        match self.switch_target(caller, external_id@, now) {
            Some(u) => {
                &&& r == Ok::<u32, AuthError>(u)
                &&& users_after == with_identity(self.users@, u, email, external_id)
                &&& switches_after == self.email_switches@.remove(u)
            },
            None => {
                &&& switches_after == self.email_switches@
                &&& get_or_create_outcome(
                    self.users@,
                    users_after,
                    None,
                    Some(email),
                    external_id,
                    r,
                )
            },
        }
    }

    /// Maps the identity that the OAuth provider reported to a local user.
    /// When the caller holds a valid session whose user has a live email
    /// switch, that user takes the new email and external identity and the
    /// request is consumed. A switch to an identity that another user already
    /// holds is refused: the request stays and the exchange signs in as that
    /// other user. Otherwise the first user with the external identity is
    /// found, or created.
    pub fn resolve_oauth_identity(
        &mut self,
        caller: Option<&str>,
        email: String,
        external_id: String,
        now: i64,
    ) -> (r: Result<u32, AuthError>)
        requires
            old(self).wf(),
        ensures
            final(self).wf(),
            old(self).oauth_resolution(
                final(self).users@,
                final(self).email_switches@,
                token_view(caller),
                email,
                external_id,
                now as int,
                r,
            ),
            final(self).sessions@ == old(self).sessions@,
            final(self).sessions.next_id() == old(self).sessions.next_id(),
            final(self).orders@ == old(self).orders@,
    {
        let mut target: Option<u32> = None;
        if let Some(token) = caller {
            if let Some(session) = self.sessions.validate_session(token, now) {
                let u: u32 = session.user_id;
                if self.email_switches.email_switch_exists(u, now) && 1 <= u && (u as usize)
                    <= self.users.len() {
                    match self.users.find_by_external_id(&external_id) {
                        Some(holder) => if holder == u {
                            target = Some(u);
                        },
                        None => {
                            target = Some(u);
                        },
                    }
                }
            }
        }
        match target {
            Some(u) => {
                self.users.replace_identity(u, email, external_id);
                self.email_switches.remove(u);
                Ok(u)
            },
            None => self.users.get_or_create_user(None, Some(email), external_id),
        }
    }

    /// Completes an OAuth callback: resolves the identity, then stores a
    /// session for that user under `token`.
    pub fn oauth_callback_at(
        &mut self,
        caller: Option<&str>,
        email: String,
        external_id: String,
        token: String,
        now: i64,
    ) -> (r: Result<Session, AuthError>)
        requires
            old(self).wf(),
        ensures
            final(self).wf(),
            final(self).orders@ == old(self).orders@,
            old(self).oauth_resolution(
                final(self).users@,
                final(self).email_switches@,
                token_view(caller),
                email,
                external_id,
                now as int,
                old(self).resolved_id(token_view(caller), external_id@, now as int),
            ),
            match old(self).resolved_id(token_view(caller), external_id@, now as int) {
                Ok(u) => issue_outcome(&old(self).sessions, &final(self).sessions, u, token@, now as int, r),
                Err(e) => r == Err::<Session, AuthError>(e) && final(self).sessions@ == old(self).sessions@
                    && final(self).sessions.next_id() == old(self).sessions.next_id(),
            },
    {
        let ru = self.resolve_oauth_identity(caller, email, external_id, now);
        match ru {
            Ok(u) => self.sessions.insert_session(u, token, now),
            Err(e) => Err(e),
        }
    }

    /// Completes an OAuth callback under a fresh random token, and returns
    /// the token for the cookie. On success the token is new and now
    /// authenticates the resolved user. It succeeds whenever the identity
    /// resolves and no stored token could collide with a random one.
    pub fn oauth_callback(
        &mut self,
        caller: Option<&str>,
        email: String,
        external_id: String,
        now: i64,
    ) -> (r: Result<String, AuthError>)
        requires
            old(self).wf(),
        ensures
            final(self).wf(),
            final(self).orders@ == old(self).orders@,
            old(self).oauth_resolution(
                final(self).users@,
                final(self).email_switches@,
                token_view(caller),
                email,
                external_id,
                now as int,
                old(self).resolved_id(token_view(caller), external_id@, now as int),
            ),
            match (old(self).resolved_id(token_view(caller), external_id@, now as int), r) {
                (Ok(u), Ok(t)) => issue_outcome(
                    &old(self).sessions,
                    &final(self).sessions,
                    u,
                    t@,
                    now as int,
                    Ok(new_session(old(self).sessions.next_id(), u, now as int)),
                ),
                (Ok(u), Err(e)) => e == AuthError::Persistence && final(self).sessions@ == old(
                    self,
                ).sessions@,
                (Err(e1), Err(e2)) => e1 == e2 && final(self).sessions@ == old(self).sessions@,
                (Err(_), Ok(_)) => false,
            },
            old(self).resolved_id(token_view(caller), external_id@, now as int) is Ok
                && room_for_random_token(old(self).sessions@, old(self).sessions.next_id(), now as int)
                ==> r is Ok,
    {
        let token = crate::outside::random_token();
        let kept = token.clone();
        let r = self.oauth_callback_at(caller, email, external_id, token, now);
        match r {
            Ok(_) => Ok(kept),
            Err(e) => Err(e),
        }
    }

    /// What recording one collect answer for a pending order does to it,
    /// given how the identified person resolved (when the answer completes
    /// the order).
    pub open spec fn collected(
        o: VerificationOrder,
        c: CollectResponse,
        person: Result<u32, AuthError>,
    ) -> VerificationOrder {
        if o.status != OrderStatus::Pending {
            o
        } else if reports_pending(c) {
            if o.polls + 1 < MAX_POLLS {
                VerificationOrder { polls: (o.polls + 1) as u32, ..o }
            } else {
                VerificationOrder { status: OrderStatus::Failed, ..o }
            }
        } else if reports_complete(c) {
            match person {
                Ok(u) => VerificationOrder { status: OrderStatus::Complete, user_id: Some(u), ..o },
                Err(_) => VerificationOrder { status: OrderStatus::Failed, ..o },
            }
        } else {
            VerificationOrder { status: OrderStatus::Failed, ..o }
        }
    }

    /// Records one collect answer for the order of `nonce`. A pending answer
    /// keeps the order pending until the poll allowance runs out, then fails
    /// it. A completion resolves or creates the identified user and completes
    /// the order. Any other answer fails it. A terminal order is left as it
    /// is. The result tells the poller whether to go on.
    pub fn record_collect(&mut self, nonce: &str, response: &CollectResponse) -> (r: Result<
        PollAction,
        AuthError,
    >)
        requires
            old(self).wf(),
        ensures
            final(self).wf(),
            final(self).sessions@ == old(self).sessions@,
            final(self).sessions.next_id() == old(self).sessions.next_id(),
            final(self).email_switches@ == old(self).email_switches@,
            old(self).orders@.contains_key(nonce@) ==> final(self).orders@.contains_key(nonce@)
                && status_advances(
                old(self).orders@[nonce@].status,
                final(self).orders@[nonce@].status,
            ),
            old(self).orders@.contains_key(nonce@) && old(self).orders@[nonce@].status
                != OrderStatus::Pending ==> final(self).orders@ == old(self).orders@ && r == Ok::<
                PollAction,
                AuthError,
            >(PollAction::Stop),
            !old(self).orders@.contains_key(nonce@) ==> {
                &&& r == Err::<PollAction, AuthError>(AuthError::BadRequest)
                &&& final(self).orders@ == old(self).orders@
                &&& final(self).users@ == old(self).users@
            },
            old(self).orders@.contains_key(nonce@) ==> {
                let o = old(self).orders@[nonce@];
                let active = o.status == OrderStatus::Pending && !reports_pending(*response)
                    && reports_complete(*response);
                let person = response.completion_data.unwrap().user;
                let resolved = lookup_or_next(old(self).users@, person.personal_number@);
                let p = if active {
                    resolved
                } else {
                    Ok(0)
                };
                let after = Self::collected(o, *response, p);
                &&& final(self).orders@ == old(self).orders@.insert(nonce@, after)
                &&& active ==> get_or_create_outcome(
                    old(self).users@,
                    final(self).users@,
                    Some(person.name),
                    None,
                    person.personal_number,
                    resolved,
                )
                &&& !active ==> final(self).users@ == old(self).users@
                &&& r == (if active && resolved is Err {
                    Err(resolved->Err_0)
                } else if after.status == OrderStatus::Pending {
                    Ok(PollAction::Continue)
                } else {
                    Ok(PollAction::Stop)
                })
            },
    {
        let o = match self.orders.get(nonce) {
            Some(o) => o,
            None => return Err(AuthError::BadRequest),
        };
        let mut next = VerificationOrder {
            order_ref: o.order_ref.clone(),
            user_id: o.user_id,
            status: o.status,
            created_at: o.created_at,
            polls: o.polls,
        };
        let mut result: Result<PollAction, AuthError> = Ok(PollAction::Stop);
        if o.status != OrderStatus::Pending {
        } else if response.is_pending() {
            if o.polls < MAX_POLLS - 1 {
                next.polls = o.polls + 1;
                result = Ok(PollAction::Continue);
            } else {
                next.status = OrderStatus::Failed;
            }
        } else {
            match response.get_user(&mut self.users) {
                Ok(Some(u)) => {
                    next.status = OrderStatus::Complete;
                    next.user_id = Some(u);
                },
                Ok(None) => {
                    next.status = OrderStatus::Failed;
                },
                Err(e) => {
                    next.status = OrderStatus::Failed;
                    result = Err(e);
                },
            }
        }
        self.orders.put(nonce.to_owned(), next);
        assert(old(self).orders@[nonce@].status != OrderStatus::Pending ==> self.orders@ =~= old(
            self,
        ).orders@);
        result
    }

    /// Answers the browser that holds `nonce`: `None` while the order is
    /// pending; for a completed order, a session for its user stored under
    /// `token`. An unknown nonce is a `BadRequest`; a failed order is
    /// `AccessDenied`.
    pub fn finalize_verification_at(&mut self, nonce: &str, token: String, now: i64) -> (r: Result<
        Option<Session>,
        AuthError,
    >)
        requires
            old(self).wf(),
        ensures
            final(self).wf(),
            final(self).users@ == old(self).users@,
            final(self).email_switches@ == old(self).email_switches@,
            final(self).orders@ == old(self).orders@,
            ({
                let o = old(self).orders@[nonce@];
                if !old(self).orders@.contains_key(nonce@) {
                    r == Err::<Option<Session>, AuthError>(AuthError::BadRequest)
                } else if o.status == OrderStatus::Pending {
                    r == Ok::<Option<Session>, AuthError>(None)
                } else if o.status == OrderStatus::Complete && o.user_id is Some {
                    issue_outcome(
                        &old(self).sessions,
                        &final(self).sessions,
                        o.user_id.unwrap(),
                        token@,
                        now as int,
                        session_of(r),
                    )
                } else {
                    r == Err::<Option<Session>, AuthError>(AuthError::AccessDenied)
                }
            }),
            (r is Err && r != Err::<Option<Session>, AuthError>(AuthError::Persistence)) || r
                == Ok::<Option<Session>, AuthError>(None) ==> final(self).sessions@ == old(
                self,
            ).sessions@ && final(self).sessions.next_id() == old(self).sessions.next_id(),
    {
        let (status, user) = match self.orders.get(nonce) {
            Some(o) => (o.status, o.user_id),
            None => return Err(AuthError::BadRequest),
        };
        match (status, user) {
            (OrderStatus::Pending, _) => Ok(None),
            (OrderStatus::Complete, Some(u)) => match self.sessions.insert_session(u, token, now) {
                Ok(s) => Ok(Some(s)),
                Err(e) => Err(e),
            },
            _ => Err(AuthError::AccessDenied),
        }
    }

    /// Answers the browser that holds `nonce`, issuing a fresh random token
    /// for a completed order: `None` while pending, the token once complete.
    /// A completed order gets its session whenever no stored token could
    /// collide with a random one.
    pub fn finalize_verification(&mut self, nonce: &str, now: i64) -> (r: Result<Option<String>, AuthError>)
        requires
            old(self).wf(),
        ensures
            final(self).wf(),
            final(self).users@ == old(self).users@,
            final(self).orders@ == old(self).orders@,
            !old(self).orders@.contains_key(nonce@) ==> r == Err::<Option<String>, AuthError>(
                AuthError::BadRequest,
            ),
            old(self).orders@.contains_key(nonce@) ==> {
                let o = old(self).orders@[nonce@];
                &&& o.status == OrderStatus::Pending <==> r == Ok::<Option<String>, AuthError>(None)
                &&& !(o.status == OrderStatus::Pending || (o.status == OrderStatus::Complete
                    && o.user_id is Some)) ==> r == Err::<Option<String>, AuthError>(
                    AuthError::AccessDenied,
                )
                &&& r matches Ok(Some(t)) ==> o.status == OrderStatus::Complete && o.user_id is Some
                    && final(self).sessions@ == old(self).sessions@.insert(
                    t@,
                    new_session(old(self).sessions.next_id(), o.user_id.unwrap(), now as int),
                ) && !old(self).sessions@.contains_key(t@)
                &&& o.status == OrderStatus::Complete && o.user_id is Some ==> (r matches Ok(Some(_))
                    || (r == Err::<Option<String>, AuthError>(AuthError::Persistence)
                    && final(self).sessions@ == old(self).sessions@))
                &&& r == Err::<Option<String>, AuthError>(AuthError::AccessDenied) ==> !(o.status
                    == OrderStatus::Pending || (o.status == OrderStatus::Complete && o.user_id is Some))
                &&& o.status == OrderStatus::Complete && o.user_id is Some && room_for_random_token(
                    old(self).sessions@,
                    old(self).sessions.next_id(),
                    now as int,
                ) ==> r matches Ok(Some(_))
            },
    {
        let token = crate::outside::random_token();
        let kept = token.clone();
        match self.finalize_verification_at(nonce, token, now) {
            Ok(Some(_)) => Ok(Some(kept)),
            Ok(None) => Ok(None),
            Err(e) => Err(e),
        }
    }

    /// Fails the order of `nonce` if it is still pending: the poller calls
    /// this when the provider cannot be reached or answers malformed.
    pub fn abandon_order(&mut self, nonce: &str)
        ensures
            final(self).users == old(self).users,
            final(self).sessions == old(self).sessions,
            final(self).email_switches == old(self).email_switches,
            old(self).orders@.contains_key(nonce@) && old(self).orders@[nonce@].status
                == OrderStatus::Pending ==> final(self).orders@ == old(self).orders@.insert(
                nonce@,
                VerificationOrder { status: OrderStatus::Failed, ..old(self).orders@[nonce@] },
            ),
            !(old(self).orders@.contains_key(nonce@) && old(self).orders@[nonce@].status
                == OrderStatus::Pending) ==> final(self).orders@ == old(self).orders@,
    {
        let next = match self.orders.get(nonce) {
            Some(o) => if o.status == OrderStatus::Pending {
                VerificationOrder {
                    order_ref: o.order_ref.clone(),
                    user_id: o.user_id,
                    status: OrderStatus::Failed,
                    created_at: o.created_at,
                    polls: o.polls,
                }
            } else {
                return ;
            },
            None => return ,
        };
        self.orders.put(nonce.to_owned(), next);
    }
}

/// An order's status only moves forward under a poll, and a terminal order
/// is left exactly as it is, whatever the provider answers.
pub proof fn lemma_poll_keeps_terminal_orders(
    o: VerificationOrder,
    c: CollectResponse,
    person: Result<u32, AuthError>,
)
    ensures
        status_advances(o.status, IdentityStore::collected(o, c, person).status),
        o.status != OrderStatus::Pending ==> IdentityStore::collected(o, c, person) == o,
{
}

/// On an empty user table, an OAuth exchange with no session creates user 1
/// with the highest role.
pub proof fn lemma_first_oauth_user_is_admin(
    store: &IdentityStore,
    users_after: Seq<User>,
    switches_after: Map<u32, i64>,
    email: String,
    external_id: String,
    now: int,
    r: Result<u32, AuthError>,
)
    requires
        store.users@.len() == 0,
        store.oauth_resolution(users_after, switches_after, None, email, external_id, now, r),
    ensures
        r == Ok::<u32, AuthError>(1),
        users_after.len() == 1,
        users_after[0].role == Role::Admin,
        users_after[0].external_id == external_id,
{
}

/// An OAuth exchange by the holder of a valid session with a live email
/// switch, for an identity no other user holds, rebinds that user and
/// consumes the request without adding a user; once the request has expired,
/// the same exchange leaves that user as it was and adds a new one.
pub proof fn lemma_email_switch_window(
    store: &IdentityStore,
    users_after: Seq<User>,
    switches_after: Map<u32, i64>,
    caller: Seq<char>,
    email: String,
    external_id: String,
    now: int,
    r: Result<u32, AuthError>,
)
    requires
        store.wf(),
        store.users@.len() < u32::MAX,
        validated(store.sessions@, caller, now) matches Some(s) && 1 <= s.user_id <= store.users@.len(),
        lookup_external(store.users@, external_id@) is None,
        store.oauth_resolution(users_after, switches_after, Some(caller), email, external_id, now, r),
    ensures
        ({
            let u = validated(store.sessions@, caller, now).unwrap().user_id;
            if switch_live(store.email_switches@, u, now) {
                &&& r == Ok::<u32, AuthError>(u)
                &&& users_after.len() == store.users@.len()
                &&& users_after[u - 1].external_id == external_id
                &&& !switches_after.contains_key(u)
            } else {
                &&& r == Ok::<u32, AuthError>((store.users@.len() + 1) as u32)
                &&& users_after.len() == store.users@.len() + 1
                &&& users_after[u - 1] == store.users@[u - 1]
                &&& users_after.last().external_id == external_id
                &&& users_after.last().role == Role::User
            }
        }),
{
}

} // verus!
