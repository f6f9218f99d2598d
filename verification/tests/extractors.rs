use axum::response::IntoResponse;
use axum_extra::extract::PrivateCookieJar;
use axum_extra::extract::cookie::Key;
use axum_oidc_client::clock::Timestamp;
use axum_oidc_client::config::{CodeChallengeMethod, OAuthConfiguration};
use axum_oidc_client::effects::{Effect, Outcome, Step, TokenRequest};
use axum_oidc_client::error::Error;
use axum_oidc_client::extractors::shared::{
    ExtractFlow, extract_and_refresh_session, extract_auth_session, refresh_tokens,
};
use axum_oidc_client::jar::renew_session_cookie;
use axum_oidc_client::session::{AuthSession, RefreshTokenResponse};
use http::HeaderMap;
use http::header::{COOKIE, SET_COOKIE};

const NOW: Timestamp = Timestamp { seconds: 1_700_000_000, nanos: 500 };

fn create_test_config() -> OAuthConfiguration {
    OAuthConfiguration {
        private_cookie_key: Key::from(&[0u8; 64]),
        client_id: "test-client".to_string(),
        client_secret: "test-secret".to_string(),
        audience: None,
        redirect_uri: "http://localhost:8080/auth/callback".to_string(),
        token_request_redirect_uri: true,
        authorization_endpoint: "http://localhost/auth".to_string(),
        token_endpoint: "http://localhost/token".to_string(),
        end_session_endpoint: None,
        post_logout_redirect_uri: "/".to_string(),
        scopes: "openid email".to_string(),
        code_challenge_method: CodeChallengeMethod::S256,
        session_max_age_minutes: 30,
        token_max_age_seconds: Some(60),
        custom_ca_cert: None,
        base_path: "/auth".to_string(),
        secure_cookies: true,
        lax_same_site: false,
    }
}

fn session(expires: Option<Timestamp>) -> AuthSession {
    AuthSession {
        id_token: "old-id".to_string(),
        access_token: "old-access".to_string(),
        token_type: "old-type".to_string(),
        refresh_token: Some("old-refresh".to_string()),
        scope: Some("old-scope".to_string()),
        expires,
    }
}

fn sparse() -> RefreshTokenResponse {
    RefreshTokenResponse {
        access_token: "new-access".to_string(),
        token_type: "new-type".to_string(),
        expires_in: None,
        refresh_token: None,
        scope: None,
        id_token: None,
    }
}

fn lookup(
    config: &OAuthConfiguration,
    outcome: Outcome,
) -> Step<ExtractFlow, Result<AuthSession, Error>> {
    match extract_and_refresh_session("s1".to_string()) {
        Step::Perform(Effect::GetAuthSession(id), flow) => {
            assert_eq!(id, "s1");
            flow.step_at(config, NOW, outcome)
        }
        _ => panic!("the session is looked up"),
    }
}

fn perform(step: Step<ExtractFlow, Result<AuthSession, Error>>) -> (Effect, ExtractFlow) {
    match step {
        Step::Perform(effect, flow) => (effect, flow),
        Step::Finish(_) => panic!("the flow is over"),
    }
}

fn failure(step: Step<ExtractFlow, Result<AuthSession, Error>>) -> Error {
    match step {
        Step::Finish(Err(error)) => error,
        _ => panic!("the flow fails"),
    }
}

fn success(step: Step<ExtractFlow, Result<AuthSession, Error>>) -> AuthSession {
    match step {
        Step::Finish(Ok(session)) => session,
        _ => panic!("the flow succeeds"),
    }
}

/// Drives the retrieval of an expired session up to the token request.
fn refreshing(config: &OAuthConfiguration) -> (TokenRequest, ExtractFlow) {
    let expired = session(Some(NOW));
    match perform(lookup(config, Outcome::Session(Ok(Some(expired))))) {
        (Effect::PostForm(request), flow) => (request, flow),
        _ => panic!("the tokens are renewed"),
    }
}

/// Drives the retrieval of an expired session up to its storing.
fn renewed(config: &OAuthConfiguration, response: RefreshTokenResponse) -> (AuthSession, ExtractFlow) {
    let (_, flow) = refreshing(config);
    let (effect, flow) = perform(flow.step_at(config, NOW, Outcome::Status(Ok(200))));
    assert!(matches!(effect, Effect::ReadRefreshTokens));
    match perform(flow.step_at(config, NOW, Outcome::RefreshTokens(Ok(response)))) {
        (Effect::SetAuthSession(id, session), flow) => {
            assert_eq!(id, "s1");
            (session, flow)
        }
        _ => panic!("the session is stored"),
    }
}

#[test]
fn live_session_is_given_as_it_is() {
    let config = create_test_config();
    for expires in [
        None,
        Some(Timestamp { seconds: 1_700_000_000, nanos: 501 }),
        Some(Timestamp { seconds: 1_700_000_001, nanos: 0 }),
    ] {
        let given = success(lookup(&config, Outcome::Session(Ok(Some(session(expires))))));
        assert_eq!(given.access_token, "old-access");
        assert_eq!(given.expires, expires);
    }
}

#[test]
fn absent_session_has_expired() {
    let config = create_test_config();
    assert!(matches!(
        failure(lookup(&config, Outcome::Session(Ok(None)))),
        Error::SessionExpired
    ));
    let mut unrenewable = session(Some(NOW));
    unrenewable.refresh_token = None;
    assert!(matches!(
        failure(lookup(&config, Outcome::Session(Ok(Some(unrenewable))))),
        Error::SessionExpired
    ));
}

#[test]
fn cache_error_is_told() {
    let config = create_test_config();
    let outcome = Outcome::Session(Err(Error::Request("down".to_string())));
    match failure(lookup(&config, outcome)) {
        Error::CacheAccessError(why) => assert_eq!(why, "Request(\"down\")"),
        _ => panic!("the cache failed"),
    }
}

#[test]
fn expired_session_sends_its_refresh_token() {
    let config = create_test_config();
    let (request, _) = refreshing(&config);
    assert_eq!(request.url, "http://localhost/token");
    let pairs: Vec<(&str, &str)> = request
        .form
        .iter()
        .map(|(name, value)| (name.as_str(), value.as_str()))
        .collect();
    assert_eq!(
        pairs,
        vec![
            ("grant_type", "refresh_token"),
            ("refresh_token", "old-refresh"),
            ("client_id", "test-client"),
        ]
    );
    assert_eq!(request.user, "test-client");
    assert_eq!(request.password.as_deref(), Some("test-secret"));
}

#[test]
fn renewal_takes_what_the_answer_holds() {
    let config = create_test_config();
    let full = RefreshTokenResponse {
        expires_in: Some(31),
        refresh_token: Some("new-refresh".to_string()),
        scope: Some("new-scope".to_string()),
        id_token: Some("new-id".to_string()),
        ..sparse()
    };
    let (stored, flow) = renewed(&config, full);
    let given = success(flow.step_at(&config, NOW, Outcome::Done(Ok(()))));
    for session in [stored, given] {
        assert_eq!(session.access_token, "new-access");
        assert_eq!(session.token_type, "new-type");
        assert_eq!(session.refresh_token.as_deref(), Some("new-refresh"));
        assert_eq!(session.scope.as_deref(), Some("new-scope"));
        assert_eq!(session.id_token, "new-id");
        assert_eq!(
            session.expires,
            Some(Timestamp { seconds: 1_700_000_030, nanos: 500 })
        );
    }
}

#[test]
fn renewal_keeps_what_the_answer_leaves_out() {
    let mut config = create_test_config();
    config.token_max_age_seconds = None;
    let (stored, _) = renewed(&config, sparse());
    assert_eq!(stored.access_token, "new-access");
    assert_eq!(stored.token_type, "new-type");
    assert_eq!(stored.refresh_token.as_deref(), Some("old-refresh"));
    assert_eq!(stored.scope.as_deref(), Some("old-scope"));
    assert_eq!(stored.id_token, "old-id");
    assert_eq!(stored.expires, Some(NOW));
}

#[test]
fn session_that_cannot_be_stored_is_not_given() {
    let config = create_test_config();
    let (_, flow) = renewed(&config, sparse());
    let outcome = Outcome::Done(Err(Error::Request("full".to_string())));
    match failure(flow.step_at(&config, NOW, outcome)) {
        Error::SessionUpdateFailed(why) => assert_eq!(why, "Request(\"full\")"),
        _ => panic!("the session is not stored"),
    }
}

#[test]
fn failed_renewal_is_told() {
    let config = create_test_config();
    let why = |error| match error {
        Error::TokenRefreshFailedAuth(why) => why,
        _ => panic!("the renewal failed"),
    };
    let (_, flow) = refreshing(&config);
    let outcome = Outcome::Status(Err(Error::Request("down".to_string())));
    let told = why(failure(flow.step_at(&config, NOW, outcome)));
    assert_eq!(told, "Request(\"down\")");

    let (_, flow) = refreshing(&config);
    let (_, flow) = perform(flow.step_at(&config, NOW, Outcome::Status(Ok(200))));
    let outcome = Outcome::RefreshTokens(Err(Error::Request("json".to_string())));
    let told = why(failure(flow.step_at(&config, NOW, outcome)));
    assert_eq!(told, "Request(\"json\")");

    for (read, expected) in [
        (
            Ok("\"revoked\"".to_string()),
            "Status { code: 400, body: \"\\\"revoked\\\"\" }",
        ),
        (
            Err(Error::Request("cut".to_string())),
            "Status { code: 400, body: \"\" }",
        ),
    ] {
        let (_, flow) = refreshing(&config);
        let (effect, flow) = perform(flow.step(&config, Outcome::Status(Ok(400))));
        assert!(matches!(effect, Effect::ReadText));
        let told = why(failure(flow.step_at(&config, NOW, Outcome::Text(read))));
        assert_eq!(told, expected);
    }
}

#[test]
fn renewal_needs_a_url_and_a_refresh_token() {
    let mut config = create_test_config();
    config.token_endpoint = "token".to_string();
    let outcome = Outcome::Session(Ok(Some(session(Some(NOW)))));
    match failure(lookup(&config, outcome)) {
        Error::TokenRefreshFailedAuth(why) => assert_eq!(why, "NotValidUri(\"token\")"),
        _ => panic!("the renewal failed"),
    }
    let mut unrenewable = session(None);
    unrenewable.refresh_token = None;
    assert!(matches!(
        refresh_tokens(&config, &unrenewable),
        Step::Finish(Err(Error::MissingPatameter(name))) if name == "refresh_token"
    ));
}

#[test]
fn request_must_carry_a_session() {
    let config = create_test_config();
    let headers = HeaderMap::new();
    assert!(matches!(
        failure(extract_auth_session(false, None, false, &headers)),
        Error::AuthCacheNotConfigured
    ));
    assert!(matches!(
        failure(extract_auth_session(true, None, false, &headers)),
        Error::OAuthConfigNotConfigured
    ));
    assert!(matches!(
        failure(extract_auth_session(true, Some(&config), false, &headers)),
        Error::HttpClientNotConfigured
    ));
    assert!(matches!(
        failure(extract_auth_session(true, Some(&config), true, &headers)),
        Error::SessionNotFound
    ));
}

#[test]
fn cookie_names_the_session() {
    let config = create_test_config();
    let jar = PrivateCookieJar::new(config.private_cookie_key.clone());
    let response = renew_session_cookie(&config, jar, "s7".to_string()).into_response();
    let cookie = response.headers()[SET_COOKIE].to_str().unwrap();
    let mut headers = HeaderMap::new();
    headers.insert(COOKIE, cookie.split(';').next().unwrap().parse().unwrap());
    let (effect, _) = perform(extract_auth_session(true, Some(&config), true, &headers));
    assert!(matches!(effect, Effect::GetAuthSession(id) if id == "s7"));
}
