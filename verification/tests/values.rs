use axum_oidc_client::clock::{
    LONGEST_LIFETIME, Timestamp, calculate_token_expiration, lifetime_fits, token_expiration_at,
};
use axum_extra::extract::cookie::Key;
use axum_oidc_client::config::{CodeChallengeMethod, OAuthConfiguration};
use axum_oidc_client::cookies::build_session_cookie;
use axum_oidc_client::error::{Error, write_decimal, write_status, write_variant};
use axum_oidc_client::outside::{find_value, query_value};
use axum_oidc_client::session::{AccessTokenResponse, AuthSession};
use axum_oidc_client::text::{
    join_with_spaces, names_local_path, same_text, same_text_ignoring_ascii_case,
    split_once_at_bar, trim_trailing_slashes,
};

fn limited_config(token_max_age_seconds: Option<i64>) -> OAuthConfiguration {
    OAuthConfiguration {
        private_cookie_key: Key::from(&[0u8; 64]),
        client_id: "test-client".to_string(),
        client_secret: "test-secret".to_string(),
        audience: None,
        redirect_uri: "http://localhost:8080/auth/callback".to_string(),
        token_request_redirect_uri: true,
        authorization_endpoint: "http://localhost/auth".to_string(),
        token_endpoint: "http://localhost/token".to_string(),
        end_session_endpoint: None,
        post_logout_redirect_uri: "/".to_string(),
        scopes: "openid email".to_string(),
        code_challenge_method: CodeChallengeMethod::S256,
        session_max_age_minutes: 30,
        token_max_age_seconds,
        custom_ca_cert: None,
        base_path: "/auth".to_string(),
        secure_cookies: true,
        lax_same_site: false,
    }
}

fn response(expires_in: Option<i64>) -> AccessTokenResponse {
    AccessTokenResponse {
        id_token: "id".to_string(),
        access_token: "access".to_string(),
        token_type: "Bearer".to_string(),
        expires_in,
        refresh_token: None,
        scope: Some("openid".to_string()),
    }
}

fn lifetime(expires_in: Option<i64>, token_max_age: Option<i64>) -> Option<i64> {
    let now = Timestamp { seconds: 1000, nanos: 7 };
    token_expiration_at(now, expires_in, token_max_age).map(|expires| {
        assert_eq!(expires.nanos, 7);
        expires.seconds - 1000
    })
}

#[test]
fn lifetime_is_the_smaller_of_grant_and_limit() {
    assert_eq!(lifetime(Some(3600), Some(1800)), Some(1800));
    assert_eq!(lifetime(Some(1800), Some(3600)), Some(1799));
    assert_eq!(lifetime(Some(3600), None), Some(3599));
    assert_eq!(lifetime(None, Some(1800)), Some(1800));
    assert_eq!(lifetime(None, None), None);
}

#[test]
fn lifetime_is_at_least_a_second() {
    assert_eq!(lifetime(Some(1), None), Some(1));
    assert_eq!(lifetime(Some(0), Some(60)), Some(1));
    assert_eq!(lifetime(Some(-5), None), Some(1));
    assert_eq!(lifetime(None, Some(-5)), Some(1));
    assert_eq!(lifetime(Some(2), Some(0)), Some(1));
    assert_eq!(lifetime(Some(i64::MIN), None), Some(1));
    assert_eq!(lifetime(Some(i64::MIN), Some(60)), Some(1));
    assert_eq!(lifetime(Some(i64::MIN), Some(i64::MIN)), Some(1));
    assert_eq!(lifetime(Some(0), Some(i64::MIN)), Some(1));
}

#[test]
fn lifetime_has_its_bounds() {
    assert!(lifetime_fits(None, None));
    assert!(lifetime_fits(Some(LONGEST_LIFETIME + 1), None));
    assert!(!lifetime_fits(Some(LONGEST_LIFETIME + 2), None));
    assert!(lifetime_fits(None, Some(LONGEST_LIFETIME)));
    assert!(!lifetime_fits(None, Some(LONGEST_LIFETIME + 1)));
    assert!(lifetime_fits(Some(i64::MAX), Some(60)));
    assert!(lifetime_fits(Some(60), Some(i64::MAX)));
    assert!(lifetime_fits(Some(i64::MIN), Some(60)));
    assert!(lifetime_fits(Some(i64::MIN), None));
    assert!(lifetime_fits(Some(i64::MIN), Some(i64::MAX)));
    assert!(!lifetime_fits(Some(i64::MAX), Some(i64::MAX)));
}

#[test]
fn clock_is_read() {
    assert_eq!(calculate_token_expiration(None, None), None);
    let soon = calculate_token_expiration(Some(1), None).unwrap();
    let later = calculate_token_expiration(Some(3600), Some(1800)).unwrap();
    assert!(soon.seconds > 1_700_000_000);
    assert!(soon.at_or_before(&later));
    assert!(!later.at_or_before(&soon));
    assert!((1798..=1801).contains(&(later.seconds - soon.seconds)));
}

#[test]
fn times_are_ordered_by_seconds_and_nanoseconds() {
    let time = |seconds, nanos| Timestamp { seconds, nanos };
    assert!(time(1, 5).at_or_before(&time(1, 5)));
    assert!(time(1, 5).at_or_before(&time(1, 6)));
    assert!(time(1, 5).at_or_before(&time(2, 0)));
    assert!(!time(1, 6).at_or_before(&time(1, 5)));
    assert!(!time(2, 0).at_or_before(&time(1, 5)));
}

#[test]
fn local_paths_start_with_one_slash() {
    assert!(names_local_path("/"));
    assert!(names_local_path("/a//b"));
    assert!(!names_local_path(""));
    assert!(!names_local_path("//"));
    assert!(!names_local_path("//host/path"));
    assert!(!names_local_path("a/b"));
    assert!(names_local_path("/\u{e9}"));
}

#[test]
fn state_is_split_at_its_first_bar() {
    assert_eq!(split_once_at_bar("key"), ("key".to_string(), None));
    assert_eq!(
        split_once_at_bar("key|/path"),
        ("key".to_string(), Some("/path".to_string()))
    );
    assert_eq!(
        split_once_at_bar("key|a|b"),
        ("key".to_string(), Some("a|b".to_string()))
    );
    assert_eq!(split_once_at_bar("|"), (String::new(), Some(String::new())));
    assert_eq!(split_once_at_bar(""), (String::new(), None));
}

#[test]
fn texts_are_compared_trimmed_and_joined() {
    assert!(same_text("a", "a"));
    assert!(!same_text("a", "A"));
    assert!(same_text_ignoring_ascii_case("s256", "S256"));
    assert!(!same_text_ignoring_ascii_case("S25", "S256"));
    assert!(!same_text_ignoring_ascii_case("\u{e9}", "\u{c9}"));
    assert_eq!(trim_trailing_slashes("http://h//"), "http://h");
    assert_eq!(trim_trailing_slashes("/"), "");
    assert_eq!(join_with_spaces(&vec![]), "");
    assert_eq!(join_with_spaces(&vec!["a".to_string()]), "a");
    assert_eq!(join_with_spaces(&vec!["a".to_string(), "b".to_string()]), "a b");
}

#[test]
fn form_values_are_decoded() {
    assert_eq!(query_value(Some("a=1&b=x%20y"), "b").as_deref(), Some("x y"));
    assert_eq!(query_value(Some("a=1"), "b"), None);
    assert_eq!(query_value(Some("a=1&a=2"), "a"), None);
    assert_eq!(query_value(None, "a"), None);
    let pairs = vec![
        ("a".to_string(), "1".to_string()),
        ("b".to_string(), "2".to_string()),
        ("a".to_string(), "3".to_string()),
    ];
    assert_eq!(find_value(&pairs, "a").as_deref(), Some("1"));
    assert_eq!(find_value(&pairs, "b").as_deref(), Some("2"));
    assert_eq!(find_value(&pairs, "c"), None);
}

#[test]
fn session_expires_within_the_limit() {
    let now = Timestamp { seconds: 1000, nanos: 7 };
    let config = limited_config(Some(60));
    let session = AuthSession::opened_at(now, &response(Some(3600)), &config);
    assert!(!session.expired_at(now));
    assert!(!session.expired_at(Timestamp { seconds: 1060, nanos: 6 }));
    assert!(session.expired_at(Timestamp { seconds: 1060, nanos: 7 }));
    assert_eq!(session.scope.as_deref(), Some("openid"));
    assert_eq!(session.clone().id_token, "id");
}

#[test]
fn session_without_limits_never_expires() {
    let now = Timestamp { seconds: 1000, nanos: 7 };
    let session = AuthSession::opened_at(now, &response(None), &limited_config(None));
    assert_eq!(session.expires, None);
    assert!(!session.expired_at(Timestamp { seconds: i64::MAX, nanos: 0 }));
}

#[test]
fn new_session_is_opened_now() {
    let session = AuthSession::new(&response(Some(3600)), &limited_config(None));
    let reference = calculate_token_expiration(Some(3600), None).unwrap();
    let expires = session.expires.unwrap();
    assert!(expires.at_or_before(&reference));
    assert!(reference.seconds - expires.seconds < 60);
    assert_eq!(response(None), response(None).clone());
}

#[test]
fn set_and_removed_cookies_agree() {
    let set = build_session_cookie("S", Some("v".to_string()), true, false, Some(60));
    let removed = build_session_cookie("S", None, true, false, None);
    assert_eq!(set.name, removed.name);
    assert_eq!(set.path, removed.path);
    assert_eq!(set.http_only, removed.http_only);
    assert_eq!(set.same_site, removed.same_site);
    assert_eq!(set.secure, removed.secure);
}

#[test]
fn errors_are_debugged_as_they_are_derived() {
    let text = || "a \"b\"\n\u{e9}\u{301}\\".to_string();
    for error in [
        Error::MissingPatameter(text()),
        Error::NotValidUri(text()),
        Error::InvalidCodeResponse(text()),
        Error::MissingCodeVerifier,
        Error::CacheAccessError(text()),
        Error::SessionExpired,
        Error::SessionUpdateFailed(text()),
        Error::TokenRefreshFailedAuth(text()),
        Error::AuthCacheNotConfigured,
        Error::OAuthConfigNotConfigured,
        Error::HttpClientNotConfigured,
        Error::SessionNotFound,
        Error::InvalidResponse(text()),
        Error::Request(text()),
        Error::Status { code: 65535, body: text() },
    ] {
        assert_eq!(error.debug_text(), format!("{error:?}"));
    }
    assert_eq!(
        Error::MissingPatameter("code".to_string()).debug_text(),
        "MissingPatameter(\"code\")"
    );
    assert_eq!(Error::SessionExpired.debug_text(), "SessionExpired");
}

#[test]
fn parts_of_a_debugged_error_are_written() {
    assert_eq!(write_decimal(0), "0");
    assert_eq!(write_decimal(9), "9");
    assert_eq!(write_decimal(10), "10");
    assert_eq!(write_decimal(404), "404");
    assert_eq!(write_decimal(u16::MAX), "65535");
    assert_eq!(write_variant("Name", "\"x\""), "Name(\"x\")");
    assert_eq!(
        write_status(503, "\"x\""),
        "Status { code: 503, body: \"x\" }"
    );
}
