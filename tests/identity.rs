use kons_coin::bankid::{CollectResponse, CompletionData, User as Person};
use kons_coin::error::AuthError;
use kons_coin::identity::IdentityStore;
use kons_coin::role::Role;
use kons_coin::verification::{prepare_verification, return_url, OrderStatus, PollAction, MAX_POLLS};

const T0: i64 = 1_700_000_000;

fn collect(status: &str, person: Option<(&str, &str)>) -> CollectResponse {
    CollectResponse {
        order_ref: "ref-1".to_string(),
        status: status.to_string(),
        completion_data: person.map(|(name, pn)| CompletionData {
            user: Person { name: name.to_string(), personal_number: pn.to_string() },
        }),
    }
}

#[test]
fn first_oauth_user_becomes_admin_and_gets_a_session() {
    let mut store = IdentityStore::new();
    let token = store.oauth_callback(None, "first@x.se".to_string(), "g-1".to_string(), T0).unwrap();
    assert_eq!(store.users.len(), 1);
    let u = store.users.get(1).unwrap();
    assert_eq!(u.role, Role::Admin);
    assert_eq!(u.email.as_deref(), Some("first@x.se"));
    assert_eq!(u.external_id, "g-1");
    assert_eq!(u.balance, 0);
    assert_eq!(token.len(), 36);
    assert_eq!(store.sessions.validate_session(&token, T0 + 1).unwrap().user_id, 1);
}

#[test]
fn later_oauth_users_get_default_role() {
    let mut store = IdentityStore::new();
    store.oauth_callback_at(None, "a@x".to_string(), "g-1".to_string(), "t1".to_string(), T0).unwrap();
    let s = store.oauth_callback_at(None, "b@x".to_string(), "g-2".to_string(), "t2".to_string(), T0).unwrap();
    assert_eq!(s.user_id, 2);
    assert_eq!(store.users.get(2).unwrap().role, Role::User);
}

#[test]
fn returning_oauth_user_is_found_not_created() {
    let mut store = IdentityStore::new();
    store.oauth_callback_at(None, "a@x".to_string(), "g-1".to_string(), "t1".to_string(), T0).unwrap();
    let s = store.oauth_callback_at(None, "a@x".to_string(), "g-1".to_string(), "t2".to_string(), T0).unwrap();
    assert_eq!(s.user_id, 1);
    assert_eq!(store.users.len(), 1);
    assert_eq!(store.users.find_by_external_id(&"g-1".to_string()), Some(1));
    assert_eq!(store.users.find_by_external_id(&"g-9".to_string()), None);
}

#[test]
fn email_switch_within_ttl_rebinds_the_user() {
    let mut store = IdentityStore::new();
    store.oauth_callback_at(None, "old@x".to_string(), "g-old".to_string(), "tu".to_string(), T0 - 100).unwrap();
    store.email_switches.initiate_email_switch(1, T0);
    assert!(store.email_switches.email_switch_exists(1, T0 + 30));
    let s = store
        .oauth_callback_at(Some("tu"), "new@x".to_string(), "g-new".to_string(), "t2".to_string(), T0 + 30)
        .unwrap();
    assert_eq!(s.user_id, 1);
    assert_eq!(store.users.len(), 1);
    let u = store.users.get(1).unwrap();
    assert_eq!(u.email.as_deref(), Some("new@x"));
    assert_eq!(u.external_id, "g-new");
    assert!(!store.email_switches.email_switch_exists(1, T0 + 31));
}

#[test]
fn email_switch_after_ttl_creates_a_separate_user() {
    let mut store = IdentityStore::new();
    store.oauth_callback_at(None, "old@x".to_string(), "g-old".to_string(), "tu".to_string(), T0 - 100).unwrap();
    store.email_switches.initiate_email_switch(1, T0);
    assert!(!store.email_switches.email_switch_exists(1, T0 + 120));
    let s = store
        .oauth_callback_at(Some("tu"), "new@x".to_string(), "g-new".to_string(), "t2".to_string(), T0 + 120)
        .unwrap();
    assert_eq!(s.user_id, 2);
    assert_eq!(store.users.len(), 2);
    let u = store.users.get(1).unwrap();
    assert_eq!(u.email.as_deref(), Some("old@x"));
    assert_eq!(u.external_id, "g-old");
    assert_eq!(store.users.get(2).unwrap().external_id, "g-new");
}

#[test]
fn email_switch_window_edges() {
    let mut store = IdentityStore::new();
    store.email_switches.initiate_email_switch(3, T0);
    assert!(store.email_switches.email_switch_exists(3, T0));
    assert!(store.email_switches.email_switch_exists(3, T0 + 59));
    assert!(!store.email_switches.email_switch_exists(3, T0 + 60));
    assert!(!store.email_switches.email_switch_exists(3, T0 - 1));
    assert!(!store.email_switches.email_switch_exists(4, T0));
    store.email_switches.initiate_email_switch(3, T0 + 100);
    assert!(store.email_switches.email_switch_exists(3, T0 + 130));
}

#[test]
fn email_switch_needs_a_valid_session() {
    let mut store = IdentityStore::new();
    store.oauth_callback_at(None, "old@x".to_string(), "g-old".to_string(), "tu".to_string(), T0).unwrap();
    store.email_switches.initiate_email_switch(1, T0);
    let s = store
        .oauth_callback_at(Some("other"), "new@x".to_string(), "g-new".to_string(), "t2".to_string(), T0 + 10)
        .unwrap();
    assert_eq!(s.user_id, 2);
    assert!(store.email_switches.email_switch_exists(1, T0 + 10));
}

#[test]
fn verification_pending_then_complete() {
    let mut store = IdentityStore::new();
    store.orders.register_order("nonce-1".to_string(), "ref-1".to_string(), T0).unwrap();
    for _ in 0..3 {
        assert_eq!(store.record_collect("nonce-1", &collect("pending", None)), Ok(PollAction::Continue));
    }
    assert_eq!(store.orders.get("nonce-1").unwrap().polls, 3);
    assert_eq!(store.finalize_verification_at("nonce-1", "tok".to_string(), T0 + 6), Ok(None));
    assert_eq!(
        store.record_collect("nonce-1", &collect("complete", Some(("Anna A", "199001011234")))),
        Ok(PollAction::Stop)
    );
    assert_eq!(store.users.len(), 1);
    let order = store.orders.get("nonce-1").unwrap();
    assert_eq!(order.status, OrderStatus::Complete);
    assert_eq!(order.user_id, Some(1));
    let s = store.finalize_verification_at("nonce-1", "tok".to_string(), T0 + 8).unwrap().unwrap();
    assert_eq!(s.user_id, 1);
    assert_eq!(store.sessions.validate_session("tok", T0 + 9).unwrap().user_id, 1);
    let u = store.users.get(1).unwrap();
    assert_eq!(u.name.as_deref(), Some("Anna A"));
    assert_eq!(u.external_id, "199001011234");
    assert_eq!(u.email, None);
    assert_eq!(store.users.len(), 1);
}

#[test]
fn verification_finalize_with_random_token() {
    let mut store = IdentityStore::new();
    store.orders.register_order("n".to_string(), "r".to_string(), T0).unwrap();
    assert_eq!(store.finalize_verification("n", T0), Ok(None));
    store.record_collect("n", &collect("complete", Some(("B", "1")))).unwrap();
    let token = store.finalize_verification("n", T0 + 2).unwrap().unwrap();
    assert_eq!(store.sessions.validate_session(&token, T0 + 3).unwrap().user_id, 1);
}

#[test]
fn terminal_order_does_not_change() {
    let mut store = IdentityStore::new();
    store.orders.register_order("n".to_string(), "r".to_string(), T0).unwrap();
    assert_eq!(store.record_collect("n", &collect("failed", None)), Ok(PollAction::Stop));
    assert_eq!(store.orders.get("n").unwrap().status, OrderStatus::Failed);
    assert_eq!(store.record_collect("n", &collect("pending", None)), Ok(PollAction::Stop));
    assert_eq!(store.record_collect("n", &collect("complete", Some(("C", "2")))), Ok(PollAction::Stop));
    assert_eq!(store.orders.get("n").unwrap().status, OrderStatus::Failed);
    assert_eq!(store.users.len(), 0);
    assert_eq!(store.finalize_verification_at("n", "t".to_string(), T0), Err(AuthError::AccessDenied));
}

#[test]
fn completed_order_stays_complete() {
    let mut store = IdentityStore::new();
    store.orders.register_order("n".to_string(), "r".to_string(), T0).unwrap();
    store.record_collect("n", &collect("complete", Some(("C", "2")))).unwrap();
    assert_eq!(store.record_collect("n", &collect("failed", None)), Ok(PollAction::Stop));
    let o = store.orders.get("n").unwrap();
    assert_eq!(o.status, OrderStatus::Complete);
    assert_eq!(o.user_id, Some(1));
}

#[test]
fn complete_without_identity_fails_the_order() {
    let mut store = IdentityStore::new();
    store.orders.register_order("n".to_string(), "r".to_string(), T0).unwrap();
    assert_eq!(store.record_collect("n", &collect("complete", None)), Ok(PollAction::Stop));
    assert_eq!(store.orders.get("n").unwrap().status, OrderStatus::Failed);
}

#[test]
fn poller_gives_up_after_allowance() {
    let mut store = IdentityStore::new();
    store.orders.register_order("n".to_string(), "r".to_string(), T0).unwrap();
    for _ in 0..(MAX_POLLS - 1) {
        assert_eq!(store.record_collect("n", &collect("pending", None)), Ok(PollAction::Continue));
    }
    assert_eq!(store.record_collect("n", &collect("pending", None)), Ok(PollAction::Stop));
    assert_eq!(store.orders.get("n").unwrap().status, OrderStatus::Failed);
}

#[test]
fn unknown_nonce_is_bad_request() {
    let mut store = IdentityStore::new();
    assert_eq!(store.record_collect("x", &collect("pending", None)), Err(AuthError::BadRequest));
    assert_eq!(store.finalize_verification_at("x", "t".to_string(), T0), Err(AuthError::BadRequest));
}

#[test]
fn duplicate_nonce_is_refused() {
    let mut store = IdentityStore::new();
    store.orders.register_order("n".to_string(), "r".to_string(), T0).unwrap();
    assert_eq!(store.orders.register_order("n".to_string(), "r2".to_string(), T0), Err(AuthError::Persistence));
    assert_eq!(store.orders.get("n").unwrap().order_ref, "r");
}

#[test]
fn existing_person_is_resolved_not_created() {
    let mut store = IdentityStore::new();
    store.orders.register_order("a".to_string(), "r".to_string(), T0).unwrap();
    store.orders.register_order("b".to_string(), "r".to_string(), T0).unwrap();
    store.record_collect("a", &collect("complete", Some(("D", "77")))).unwrap();
    store.record_collect("b", &collect("complete", Some(("D", "77")))).unwrap();
    assert_eq!(store.users.len(), 1);
    assert_eq!(store.orders.get("b").unwrap().user_id, Some(1));
}

#[test]
fn verification_needs_an_origin() {
    let site = "https://shop.example".to_string();
    assert_eq!(prepare_verification(None, &site), Err(AuthError::BadRequest));
    let (nonce, url) = prepare_verification(Some("10.0.0.1"), &site).unwrap();
    assert_eq!(nonce.len(), 36);
    assert_eq!(url, format!("https://shop.example/verify?nonce={}", nonce));
    assert_eq!(return_url(&site, &"abc".to_string()), "https://shop.example/verify?nonce=abc");
}

#[test]
fn collect_get_user_only_on_completion() {
    let mut store = IdentityStore::new();
    assert_eq!(collect("pending", None).get_user(&mut store.users), Ok(None));
    assert_eq!(collect("complete", None).get_user(&mut store.users), Ok(None));
    assert_eq!(collect("complete", Some(("E", "5"))).get_user(&mut store.users), Ok(Some(1)));
    assert_eq!(collect("complete", Some(("E", "5"))).get_user(&mut store.users), Ok(Some(1)));
    assert!(collect("pending", None).is_pending());
    assert!(!collect("complete", None).is_pending());
}

#[test]
fn abandoned_pending_order_fails() {
    let mut store = IdentityStore::new();
    store.orders.register_order("n".to_string(), "r".to_string(), T0).unwrap();
    store.abandon_order("n");
    assert_eq!(store.orders.get("n").unwrap().status, OrderStatus::Failed);
    store.orders.register_order("m".to_string(), "r".to_string(), T0).unwrap();
    store.record_collect("m", &collect("complete", Some(("F", "6")))).unwrap();
    store.abandon_order("m");
    assert_eq!(store.orders.get("m").unwrap().status, OrderStatus::Complete);
}

#[test]
fn user_from_cookie_and_email_switch_request() {
    let mut store = IdentityStore::new();
    store.oauth_callback_at(None, "a@x".to_string(), "g-1".to_string(), "tok".to_string(), T0).unwrap();
    assert_eq!(store.user_from_cookie(Some("tok"), T0 + 1).unwrap().id, 1);
    assert_eq!(store.user_from_cookie(Some("nope"), T0 + 1).err(), Some(AuthError::SessionInvalid));
    assert_eq!(store.user_from_cookie(None, T0 + 1).err(), Some(AuthError::SessionInvalid));
    assert_eq!(store.request_email_switch(None, T0 + 2), Err(AuthError::SessionInvalid));
    assert!(!store.email_switches.email_switch_exists(1, T0 + 2));
    assert_eq!(store.request_email_switch(Some("tok"), T0 + 2), Ok(1));
    assert!(store.email_switches.email_switch_exists(1, T0 + 2));
}

#[test]
fn email_switch_onto_a_held_identity_is_refused() {
    let mut store = IdentityStore::new();
    store.oauth_callback_at(None, "u@x".to_string(), "g-u".to_string(), "tu".to_string(), T0).unwrap();
    store.oauth_callback_at(None, "v@x".to_string(), "g-v".to_string(), "tv".to_string(), T0).unwrap();
    store.email_switches.initiate_email_switch(1, T0);
    let s = store
        .oauth_callback_at(Some("tu"), "v2@x".to_string(), "g-v".to_string(), "t3".to_string(), T0 + 10)
        .unwrap();
    assert_eq!(s.user_id, 2);
    assert_eq!(store.users.len(), 2);
    assert_eq!(store.users.get(1).unwrap().external_id, "g-u");
    assert!(store.email_switches.email_switch_exists(1, T0 + 10));
}
