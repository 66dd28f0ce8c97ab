use kons_coin::config::{parse_bool, EnvironmentVariables};
use kons_coin::stats::TimeRange;

fn env(is_debug: bool, static_setting: Option<&str>) -> EnvironmentVariables {
    EnvironmentVariables::from_values(
        is_debug,
        static_setting,
        Some("https://shop.example".to_string()),
        "cid".to_string(),
        "secret".to_string(),
    )
    .unwrap()
}

#[test]
fn parse_bool_reads_exact_words() {
    assert_eq!(parse_bool("true"), Some(true));
    assert_eq!(parse_bool("false"), Some(false));
    assert_eq!(parse_bool("True"), None);
    assert_eq!(parse_bool(""), None);
}

#[test]
fn release_build_serves_frontend_and_needs_domain() {
    let e = env(false, Some("false"));
    assert!(e.static_frontend);
    assert_eq!(e.frontend_url, "/");
    assert_eq!(e.site_domain, "https://shop.example");
    assert!(EnvironmentVariables::from_values(false, None, None, "a".to_string(), "b".to_string()).is_none());
}

#[test]
fn debug_build_settings() {
    let e = env(true, Some("false"));
    assert!(!e.static_frontend);
    assert_eq!(e.frontend_url, "http://127.0.0.1:5173");
    assert_eq!(e.site_domain, "http://127.0.0.1:8080");
    assert!(env(true, None).static_frontend);
    assert!(!env(true, Some("yes")).static_frontend);
    assert!(env(true, Some("true")).static_frontend);
    let d = EnvironmentVariables::from_values(true, None, None, "a".to_string(), "b".to_string()).unwrap();
    assert_eq!(d.google_client_id, "a");
    assert_eq!(d.google_client_secret, "b");
}

#[test]
fn get_path_prefixes_dev_frontend() {
    assert_eq!(env(false, None).get_path("/login"), "/login");
    assert_eq!(env(true, Some("false")).get_path("/login"), "http://127.0.0.1:5173/login");
}

#[test]
fn oauth_addresses() {
    let e = env(false, None);
    assert_eq!(e.redirect_uri(), "https://shop.example/api/auth/google/callback");
    assert_eq!(
        e.authorization_url(),
        "https://accounts.google.com/o/oauth2/v2/auth?client_id=cid&redirect_uri=https://shop.example/api/auth/google/callback&response_type=code&scope=openid%20email&access_type=online"
    );
}

#[test]
fn time_range_predicates() {
    let both = TimeRange { start: Some(10), end: Some(20) };
    let upper = TimeRange { start: None, end: Some(20) };
    let lower = TimeRange { start: Some(10), end: None };
    let open = TimeRange { start: None, end: None };
    assert_eq!(both.as_predicate("WHERE "), "WHERE st.datetime BETWEEN ? AND ?");
    assert_eq!(upper.as_predicate("AND "), "AND st.datetime < ?");
    assert_eq!(lower.as_predicate("AND "), "AND st.datetime > ?");
    assert_eq!(open.as_predicate("WHERE "), "");
    assert_eq!(both.bound_values(), vec![10, 20]);
    assert_eq!(upper.bound_values(), vec![20]);
    assert_eq!(lower.bound_values(), vec![10]);
    assert!(open.bound_values().is_empty());
}
