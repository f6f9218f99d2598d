use axum::response::IntoResponse;
use axum_extra::extract::PrivateCookieJar;
use axum_extra::extract::cookie::{Cookie, Key};
use axum_oidc_client::config::{CodeChallengeMethod, OAuthConfiguration, SESSION_KEY};
use axum_oidc_client::cookies::{SameSite, build_session_cookie};
use axum_oidc_client::jar::{drop_session_cookie, read_session_id, renew_session_cookie};
use http::HeaderMap;
use http::header::{COOKIE, SET_COOKIE};

fn create_test_config() -> OAuthConfiguration {
    OAuthConfiguration {
        private_cookie_key: Key::from(&[0u8; 64]),
        client_id: "test-client".to_string(),
        client_secret: "test-secret".to_string(),
        audience: None,
        redirect_uri: "http://localhost:8080/auth/callback".to_string(),
        token_request_redirect_uri: true,
        authorization_endpoint: "http://localhost/auth".to_string(),
        token_endpoint: "http://localhost/token".to_string(),
        end_session_endpoint: None,
        post_logout_redirect_uri: "/".to_string(),
        scopes: "openid email".to_string(),
        code_challenge_method: CodeChallengeMethod::S256,
        session_max_age_minutes: 30,
        token_max_age_seconds: Some(60),
        custom_ca_cert: None,
        base_path: "/auth".to_string(),
        secure_cookies: true,
        lax_same_site: false,
    }
}

fn set_cookies(jar: PrivateCookieJar) -> Vec<String> {
    jar.into_response()
        .headers()
        .get_all(SET_COOKIE)
        .iter()
        .map(|value| value.to_str().unwrap().to_string())
        .collect()
}

/// The headers of a browser that took the cookies of a response.
fn returned(cookies: &[String]) -> HeaderMap {
    let mut headers = HeaderMap::new();
    for cookie in cookies {
        headers.append(COOKIE, cookie.split(';').next().unwrap().parse().unwrap());
    }
    headers
}

#[test]
fn test_default_base_path() {
    let config = create_test_config();
    assert_eq!(config.base_path, "/auth");
}

#[test]
fn test_custom_base_path() {
    let mut config = create_test_config();
    config.base_path = "/api/auth".to_string();
    assert_eq!(config.base_path, "/api/auth");
}

#[test]
fn test_base_path_can_be_customized() {
    let mut config = create_test_config();
    config.base_path = "/oauth".to_string();
    assert_eq!(config.base_path, "/oauth");
}

#[test]
fn test_base_path_with_different_values() {
    let mut config1 = create_test_config();
    config1.base_path = "/oauth".to_string();
    assert_eq!(config1.base_path, "/oauth");

    let mut config2 = create_test_config();
    config2.base_path = "/api/v1/auth".to_string();
    assert_eq!(config2.base_path, "/api/v1/auth");

    let mut config3 = create_test_config();
    config3.base_path = "/auth/custom".to_string();
    assert_eq!(config3.base_path, "/auth/custom");
}

#[test]
fn add_cookie_has_value_and_max_age() {
    let cookie = build_session_cookie(
        "AUTH_SESSION",
        Some("abc123".to_string()),
        false,
        true,
        Some(time::Duration::minutes(30).whole_seconds()),
    );
    assert_eq!(cookie.name, "AUTH_SESSION");
    assert_eq!(cookie.value, "abc123");
    assert_eq!(cookie.path, "/");
    assert_eq!(cookie.http_only, true);
    assert_eq!(cookie.same_site, SameSite::Strict);
    assert_eq!(cookie.secure, true);
    assert_eq!(
        cookie.max_age.map(time::Duration::seconds),
        Some(time::Duration::minutes(30))
    );
}

#[test]
fn remove_cookie_has_no_value_or_max_age() {
    let cookie = build_session_cookie("AUTH_SESSION", None, true, false, None);
    assert_eq!(cookie.name, "AUTH_SESSION");
    assert_eq!(cookie.value, "");
    assert_eq!(cookie.same_site, SameSite::Lax);
    assert_eq!(cookie.secure, false);
    assert_eq!(cookie.max_age, None);
}

#[test]
fn renewed_cookie_is_encrypted_and_has_its_attributes() {
    let config = create_test_config();
    let jar = PrivateCookieJar::new(config.private_cookie_key.clone());
    let jar = renew_session_cookie(&config, jar, "abc123".to_string());
    assert_eq!(read_session_id(&jar).as_deref(), Some("abc123"));
    let cookies = set_cookies(jar);
    assert_eq!(cookies.len(), 1);
    let cookie = Cookie::parse_encoded(cookies[0].clone()).unwrap();
    assert_eq!(cookie.name(), SESSION_KEY);
    assert_ne!(cookie.value(), "abc123");
    assert_eq!(cookie.path(), Some("/"));
    assert_eq!(cookie.http_only(), Some(true));
    assert_eq!(
        cookie.same_site(),
        Some(axum_extra::extract::cookie::SameSite::Strict)
    );
    assert_eq!(cookie.secure(), Some(true));
    assert_eq!(cookie.max_age(), Some(time::Duration::minutes(30)));
}

#[test]
fn lax_and_insecure_cookies_can_be_asked_for() {
    let mut config = create_test_config();
    config.lax_same_site = true;
    config.secure_cookies = false;
    let jar = PrivateCookieJar::new(config.private_cookie_key.clone());
    let cookies = set_cookies(renew_session_cookie(&config, jar, "x".to_string()));
    let cookie = Cookie::parse_encoded(cookies[0].clone()).unwrap();
    assert_eq!(
        cookie.same_site(),
        Some(axum_extra::extract::cookie::SameSite::Lax)
    );
    assert_eq!(cookie.secure(), None);
}

#[test]
fn returned_cookie_is_read_under_its_key_only() {
    let config = create_test_config();
    let jar = PrivateCookieJar::new(config.private_cookie_key.clone());
    let headers = returned(&set_cookies(renew_session_cookie(
        &config,
        jar,
        "abc123".to_string(),
    )));
    let jar = PrivateCookieJar::from_headers(&headers, config.private_cookie_key.clone());
    assert_eq!(read_session_id(&jar).as_deref(), Some("abc123"));
    let jar = PrivateCookieJar::from_headers(&headers, Key::from(&[1u8; 64]));
    assert_eq!(read_session_id(&jar), None);
}

#[test]
fn dropped_cookie_is_gone_and_the_browser_is_told() {
    let config = create_test_config();
    let jar = PrivateCookieJar::new(config.private_cookie_key.clone());
    let headers = returned(&set_cookies(renew_session_cookie(
        &config,
        jar,
        "abc123".to_string(),
    )));
    let jar = PrivateCookieJar::from_headers(&headers, config.private_cookie_key.clone());
    let jar = drop_session_cookie(&config, jar);
    assert_eq!(read_session_id(&jar), None);
    let cookies = set_cookies(jar);
    assert_eq!(cookies.len(), 1);
    let cookie = Cookie::parse_encoded(cookies[0].clone()).unwrap();
    assert_eq!(cookie.name(), SESSION_KEY);
    assert_eq!(cookie.value(), "");
    assert_eq!(cookie.path(), Some("/"));
    assert_eq!(cookie.max_age(), Some(time::Duration::seconds(0)));
}

#[test]
fn dropping_what_the_browser_did_not_send_says_nothing() {
    let config = create_test_config();
    let jar = PrivateCookieJar::new(config.private_cookie_key.clone());
    let jar = drop_session_cookie(&config, renew_session_cookie(&config, jar, "x".to_string()));
    assert_eq!(read_session_id(&jar), None);
    assert!(set_cookies(jar).is_empty());
}

#[test]
fn other_cookies_are_left_alone() {
    let config = create_test_config();
    let jar = PrivateCookieJar::new(config.private_cookie_key.clone())
        .add(Cookie::new("other", "kept"));
    let jar = drop_session_cookie(&config, renew_session_cookie(&config, jar, "x".to_string()));
    assert_eq!(jar.get("other").unwrap().value(), "kept");
}

#[test]
fn session_age_is_bounded_by_its_seconds() {
    let mut config = create_test_config();
    assert!(config.session_max_age_fits());
    config.session_max_age_minutes = i64::MAX / 60;
    assert!(config.session_max_age_fits());
    config.session_max_age_minutes = i64::MAX / 60 + 1;
    assert!(!config.session_max_age_fits());
    config.session_max_age_minutes = i64::MIN;
    assert!(!config.session_max_age_fits());
}
