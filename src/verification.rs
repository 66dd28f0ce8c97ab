use vstd::prelude::*;
use vstd::hash_map::StringHashMap;

use crate::error::AuthError;
use crate::outside::random_token;

verus! {

/// How many pending answers the poller accepts before it gives the order up.
pub const MAX_POLLS: u32 = 90;

/// Seconds between two polls of an order.
pub const POLL_INTERVAL_SECS: u64 = 2;

/// Where an order stands. `Complete` and `Failed` are terminal.
#[derive(Clone, Copy, Debug, PartialEq, Eq, Structural)]
pub enum OrderStatus {
    Pending,
    Complete,
    Failed,
}

/// A status moves only forward: it stays, or it leaves `Pending`.
pub open spec fn status_advances(before: OrderStatus, after: OrderStatus) -> bool {
    before == after || (before == OrderStatus::Pending && after != OrderStatus::Pending)
}

/// What the poller does next.
#[derive(Clone, Copy, Debug, PartialEq, Eq, Structural)]
pub enum PollAction {
    /// Sleep for the poll interval, then collect again.
    Continue,
    /// The order is terminal: stop polling.
    Stop,
}

/// One verification attempt, tracked under its correlation nonce.
pub struct VerificationOrder {
    pub order_ref: String,
    pub user_id: Option<u32>,
    pub status: OrderStatus,
    pub created_at: i64,
    pub polls: u32,
}

/// A fresh order as it is first stored.
pub open spec fn new_order(order_ref: String, now: int) -> VerificationOrder {
    VerificationOrder {
        order_ref,
        user_id: None,
        status: OrderStatus::Pending,
        created_at: now as i64,
        polls: 0,
    }
}

/// Orders by correlation nonce.
pub struct OrderBook {
    orders: StringHashMap<VerificationOrder>,
}

impl View for OrderBook {
    type V = Map<Seq<char>, VerificationOrder>;

    closed spec fn view(&self) -> Map<Seq<char>, VerificationOrder> {
        self.orders@
    }
}

impl OrderBook {
    /// No order.
    pub fn new() -> (b: OrderBook)
        ensures
            b@ == Map::<Seq<char>, VerificationOrder>::empty(),
    {
        OrderBook { orders: StringHashMap::new() }
    }

    /// Stores a new pending order under `nonce`. A nonce already in use fails
    /// with `Persistence` and changes nothing.
    pub fn register_order(&mut self, nonce: String, order_ref: String, now: i64) -> (r: Result<(), AuthError>)
        ensures
            r is Ok <==> !old(self)@.contains_key(nonce@),
            r is Ok ==> final(self)@ == old(self)@.insert(nonce@, new_order(order_ref, now as int)),
            r matches Err(e) ==> e == AuthError::Persistence && final(self)@ == old(self)@,
    {
        if self.orders.contains_key(nonce.as_str()) {
            return Err(AuthError::Persistence);
        }
        let order = VerificationOrder {
            order_ref,
            user_id: None,
            status: OrderStatus::Pending,
            created_at: now,
            polls: 0,
        };
        self.orders.insert(nonce, order);
        Ok(())
    }

    /// The order of `nonce`, if any.
    pub fn get(&self, nonce: &str) -> (r: Option<&VerificationOrder>)
        ensures
            r matches Some(o) ==> self@.contains_key(nonce@) && *o == self@[nonce@],
            r is None ==> !self@.contains_key(nonce@),
    {
        self.orders.get(nonce)
    }

    /// Stores `order` under `nonce`, replacing what was there.
    pub(crate) fn put(&mut self, nonce: String, order: VerificationOrder)
        ensures
            final(self)@ == old(self)@.insert(nonce@, order),
    {
        self.orders.insert(nonce, order);
    }
}

/// The return address that carries `nonce` back from the provider.
pub open spec fn return_url_of(site_domain: Seq<char>, nonce: Seq<char>) -> Seq<char> {
    site_domain + "/verify?nonce="@ + nonce
}

/// The return address that carries `nonce` back from the provider.
pub fn return_url(site_domain: &String, nonce: &String) -> (r: String)
    ensures
        r@ == return_url_of(site_domain@, nonce@),
{
    let mut url = site_domain.clone();
    url.append("/verify?nonce=");
    url.append(nonce.as_str());
    url
}

/// Begins a verification attempt for a caller at `origin`: draws a random
/// correlation nonce and the return address that carries it. A caller with
/// no known origin is refused with `BadRequest`.
pub fn prepare_verification(origin: Option<&str>, site_domain: &String) -> (r: Result<
    (String, String),
    AuthError,
>)
    ensures
        r is Err <==> origin is None,
        r matches Err(e) ==> e == AuthError::BadRequest,
        r matches Ok((nonce, url)) ==> nonce@.len() == 36 && url@ == return_url_of(
            site_domain@,
            nonce@,
        ),
{
    match origin {
        None => Err(AuthError::BadRequest),
        Some(_) => {
            let nonce = random_token();
            let url = return_url(site_domain, &nonce);
            Ok((nonce, url))
        },
    }
}

/// Status only ever moves forward, across any number of polls.
pub proof fn lemma_status_advances_transitive(a: OrderStatus, b: OrderStatus, c: OrderStatus)
    requires
        status_advances(a, b),
        status_advances(b, c),
    ensures
        status_advances(a, c),
{
}

/// A terminal status admits no other status after it.
pub proof fn lemma_terminal_is_final(a: OrderStatus, b: OrderStatus)
    requires
        a != OrderStatus::Pending,
        status_advances(a, b),
    ensures
        b == a,
{
}

} // verus!
