use axum_extra::extract::cookie::Key;
use axum_oidc_client::builder::{OAuthConfigurationBuilder, Scopes};
use axum_oidc_client::config::CodeChallengeMethod;
use axum_oidc_client::error::Error;

fn padded_key(input: &str) -> Key {
    let mut expected_key_bytes = [0u8; 64];
    let input_bytes = input.as_bytes();
    let copy_len = input_bytes.len().min(64);
    expected_key_bytes[..copy_len].copy_from_slice(&input_bytes[..copy_len]);
    Key::from(&expected_key_bytes)
}

fn complete() -> OAuthConfigurationBuilder {
    OAuthConfigurationBuilder::default()
        .with_client_id("test")
        .with_client_secret("test")
        .with_redirect_uri("http://localhost/callback")
        .with_authorization_endpoint("http://localhost/auth")
        .with_token_endpoint("http://localhost/token")
        .with_private_cookie_key("test_key_at_least_32_bytes_long")
        .with_session_max_age(30)
        .with_post_logout_redirect_uri("/")
}

fn missing(builder: OAuthConfigurationBuilder) -> String {
    match builder.build() {
        Err(Error::MissingPatameter(name)) => name,
        _ => panic!("a parameter is missing"),
    }
}

#[test]
fn test_with_private_cookie_key() {
    let auth_builder = OAuthConfigurationBuilder::default()
        .with_private_cookie_key("test_key_SLKASDFSDJKLHSDJKLFHSDL_FGSFDGSDFGSDFGSDFGSDF");
    assert_eq!(
        auth_builder.private_cookie_key,
        Some(padded_key("test_key_SLKASDFSDJKLHSDJKLFHSDL_FGSFDGSDFGSDFGSDFGSDF"))
    );
}

#[test]
fn test_with_client_id() {
    let auth_builder = OAuthConfigurationBuilder::default().with_client_id("test_id");
    assert_eq!(auth_builder.client_id.as_deref(), Some("test_id"));
}

#[test]
fn test_with_client_secret() {
    let auth_builder = OAuthConfigurationBuilder::default().with_client_secret("test_secret");
    assert_eq!(auth_builder.client_secret.as_deref(), Some("test_secret"));
}

#[test]
fn test_with_redirect_uri() {
    let auth_builder = OAuthConfigurationBuilder::default().with_redirect_uri("test_redirect");
    assert_eq!(auth_builder.redirect_uri.as_deref(), Some("test_redirect"));
}

#[test]
fn test_with_authorization_endpoint() {
    let auth_builder =
        OAuthConfigurationBuilder::default().with_authorization_endpoint("test_auth_endpoint");
    assert_eq!(
        auth_builder.authorization_endpoint.as_deref(),
        Some("test_auth_endpoint")
    );
}

#[test]
fn test_with_token_endpoint() {
    let auth_builder =
        OAuthConfigurationBuilder::default().with_token_endpoint("test_token_endpoint");
    assert_eq!(
        auth_builder.token_endpoint.as_deref(),
        Some("test_token_endpoint")
    );
}

#[test]
fn test_with_end_session_endpoint() {
    let auth_builder = OAuthConfigurationBuilder::default()
        .with_end_session_endpoint("test_end_session_endpoint");
    assert_eq!(
        auth_builder.end_session_endpoint.as_deref(),
        Some("test_end_session_endpoint")
    );
}

#[test]
fn test_with_post_logout_redirect_uri() {
    let auth_builder =
        OAuthConfigurationBuilder::default().with_post_logout_redirect_uri("test_logout_uri");
    assert_eq!(
        auth_builder.post_logout_redirect_uri.as_deref(),
        Some("test_logout_uri")
    );
}

#[test]
fn test_with_scopes() {
    let auth_builder = OAuthConfigurationBuilder::default().with_scopes(vec!["a", "b", "c"]);
    assert_eq!(auth_builder.scopes.to_string(), "a b c");
}

#[test]
fn code_with_auth_challenge_method() {
    let auth_builder = OAuthConfigurationBuilder::default()
        .with_code_challenge_method(CodeChallengeMethod::Plain);
    assert_eq!(
        auth_builder.code_challenge_method,
        CodeChallengeMethod::Plain
    );
}

#[test]
fn test_builder_chain() {
    let auth_builder = OAuthConfigurationBuilder::default()
        .with_private_cookie_key("test_key")
        .with_client_id("test_id")
        .with_client_secret("test_secret")
        .with_redirect_uri("test_redirect")
        .with_authorization_endpoint("test_auth_endpoint")
        .with_token_endpoint("test_token_endpoint")
        .with_scopes(vec!["openid", "email", "test"])
        .with_code_challenge_method(CodeChallengeMethod::S256);

    assert_eq!(auth_builder.private_cookie_key, Some(padded_key("test_key")));
    assert_eq!(auth_builder.client_id.as_deref(), Some("test_id"));
    assert_eq!(auth_builder.client_secret.as_deref(), Some("test_secret"));
    assert_eq!(auth_builder.redirect_uri.as_deref(), Some("test_redirect"));
    assert_eq!(
        auth_builder.authorization_endpoint.as_deref(),
        Some("test_auth_endpoint")
    );
    assert_eq!(
        auth_builder.token_endpoint.as_deref(),
        Some("test_token_endpoint")
    );
    assert_eq!(auth_builder.scopes.to_string(), "openid email test");
    assert_eq!(
        auth_builder.code_challenge_method,
        CodeChallengeMethod::S256
    );
}

#[test]
fn test_with_base_path() {
    let auth_builder = OAuthConfigurationBuilder::default().with_base_path("/api/auth");
    assert_eq!(auth_builder.base_path.as_deref(), Some("/api/auth"));
}

#[test]
fn test_base_path_removes_trailing_slash() {
    let auth_builder = OAuthConfigurationBuilder::default().with_base_path("/api/auth/");
    assert_eq!(auth_builder.base_path.as_deref(), Some("/api/auth"));
}

#[test]
fn test_base_path_default() {
    let config = complete().build().unwrap();
    assert_eq!(config.base_path, "/auth");
}

#[test]
fn test_base_path_custom() {
    let config = complete().with_base_path("/api/auth").build().unwrap();
    assert_eq!(config.base_path, "/api/auth");
}

#[test]
fn base_path_loses_every_trailing_slash() {
    let path = |text: &str| {
        OAuthConfigurationBuilder::default()
            .with_base_path(text)
            .base_path
            .unwrap()
    };
    assert_eq!(path("/a//b///"), "/a//b");
    assert_eq!(path("///"), "");
    assert_eq!(path(""), "");
    assert_eq!(path(&path("/a/")), path("/a/"));
}

#[test]
fn cookie_key_depends_on_the_first_sixty_four_bytes() {
    let key = |text: &str| {
        OAuthConfigurationBuilder::default()
            .with_private_cookie_key(text)
            .private_cookie_key
            .unwrap()
    };
    let long = "x".repeat(64);
    assert_eq!(key(&long), key(&format!("{long}y")));
    assert_ne!(key(&long), key(&"x".repeat(63)));
    assert_eq!(key("k"), padded_key("k"));
    assert_eq!(key(""), Key::from(&[0u8; 64]));
    assert_eq!(key("\u{e9}"), padded_key("\u{e9}"));
}

#[test]
fn every_missing_parameter_is_named() {
    let mut builder = OAuthConfigurationBuilder::default();
    assert_eq!(missing(builder.clone()), "private_cookie_key");
    builder = builder.with_private_cookie_key("k");
    assert_eq!(missing(builder.clone()), "client_id");
    builder = builder.with_client_id("c");
    assert_eq!(missing(builder.clone()), "client_secret");
    builder = builder.with_client_secret("s");
    assert_eq!(missing(builder.clone()), "redirect_uri");
    builder = builder.with_redirect_uri("r");
    assert_eq!(missing(builder.clone()), "session_max_age");
    builder = builder.with_session_max_age(1);
    assert_eq!(missing(builder.clone()), "authorization_endpoint");
    builder = builder.with_authorization_endpoint("a");
    assert_eq!(missing(builder.clone()), "token_endpoint");
    builder = builder.with_token_endpoint("t");
    assert_eq!(missing(builder.clone()), "post_logout_redirect_uri");
    builder = builder.with_post_logout_redirect_uri("/");
    assert!(builder.build().is_ok());
}

#[test]
fn built_configuration_holds_what_was_set() {
    let config = complete()
        .with_audience("api")
        .with_token_request_redirect_uri(false)
        .with_end_session_endpoint("http://localhost/end")
        .with_scopes(vec!["openid"])
        .with_code_challenge_method(CodeChallengeMethod::Plain)
        .with_custom_ca_cert("ca.pem")
        .with_token_max_age(60)
        .with_secure_cookies(false)
        .with_lax_same_site(true)
        .build()
        .unwrap();
    assert_eq!(config.private_cookie_key, padded_key("test_key_at_least_32_bytes_long"));
    assert_eq!(config.client_id, "test");
    assert_eq!(config.client_secret, "test");
    assert_eq!(config.audience.as_deref(), Some("api"));
    assert_eq!(config.redirect_uri, "http://localhost/callback");
    assert!(!config.token_request_redirect_uri);
    assert_eq!(config.authorization_endpoint, "http://localhost/auth");
    assert_eq!(config.token_endpoint, "http://localhost/token");
    assert_eq!(config.end_session_endpoint.as_deref(), Some("http://localhost/end"));
    assert_eq!(config.post_logout_redirect_uri, "/");
    assert_eq!(config.scopes, "openid");
    assert_eq!(config.code_challenge_method, CodeChallengeMethod::Plain);
    assert_eq!(config.custom_ca_cert.as_deref(), Some("ca.pem"));
    assert_eq!(config.session_max_age_minutes, 30);
    assert_eq!(config.token_max_age_seconds, Some(60));
    assert!(!config.secure_cookies);
    assert!(config.lax_same_site);
    let copy = config.clone();
    assert_eq!(copy.client_id, config.client_id);
    assert_eq!(copy.private_cookie_key, config.private_cookie_key);
}

#[test]
fn defaults_are_kept() {
    let config = complete().build().unwrap();
    assert_eq!(config.audience, None);
    assert!(config.token_request_redirect_uri);
    assert_eq!(config.end_session_endpoint, None);
    assert_eq!(config.scopes, "openid email profile");
    assert_eq!(config.code_challenge_method, CodeChallengeMethod::S256);
    assert_eq!(config.custom_ca_cert, None);
    assert_eq!(config.token_max_age_seconds, None);
    assert!(config.secure_cookies);
    assert!(!config.lax_same_site);
    assert_eq!(Scopes::default().to_string(), "openid email profile");
    assert_eq!(OAuthConfigurationBuilder::default().with_scopes(vec![]).scopes.to_string(), "");
}

#[test]
fn challenge_methods_have_their_names() {
    assert_eq!(CodeChallengeMethod::S256.to_string(), "S256");
    assert_eq!(CodeChallengeMethod::Plain.to_string(), "plain");
    assert_eq!(CodeChallengeMethod::default(), CodeChallengeMethod::S256);
    assert!(matches!(
        pkce_std::Method::from(CodeChallengeMethod::S256),
        pkce_std::Method::Sha256
    ));
    assert!(matches!(
        pkce_std::Method::from(CodeChallengeMethod::Plain),
        pkce_std::Method::Plain
    ));
}
