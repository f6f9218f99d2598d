use axum_extra::extract::PrivateCookieJar;
use axum_extra::extract::cookie::Key;
use axum_oidc_client::clock::Timestamp;
use axum_oidc_client::config::{CodeChallengeMethod, OAuthConfiguration};
use axum_oidc_client::effects::{Effect, Outcome, Step, TokenRequest};
use axum_oidc_client::error::Error;
use axum_oidc_client::jar::read_session_id;
use axum_oidc_client::reply::{Body, Reply};
use axum_oidc_client::router::handle_callback::{
    CallbackFlow, CodeExchange, build_login_page, callback_for, handle_callback,
};
use axum_oidc_client::session::{AccessTokenResponse, AuthSession};
use http::HeaderMap;

const NOW: Timestamp = Timestamp { seconds: 1_700_000_000, nanos: 5 };

fn create_test_config() -> OAuthConfiguration {
    OAuthConfiguration {
        private_cookie_key: Key::from(&[0u8; 64]),
        client_id: "test-client".to_string(),
        client_secret: "test-secret".to_string(),
        audience: None,
        redirect_uri: "http://localhost:8080/auth/callback".to_string(),
        token_request_redirect_uri: true,
        authorization_endpoint: "http://localhost/auth".to_string(),
        token_endpoint: "http://localhost/token".to_string(),
        end_session_endpoint: None,
        post_logout_redirect_uri: "/".to_string(),
        scopes: "openid email".to_string(),
        code_challenge_method: CodeChallengeMethod::S256,
        session_max_age_minutes: 30,
        token_max_age_seconds: Some(60),
        custom_ca_cert: None,
        base_path: "/auth".to_string(),
        secure_cookies: true,
        lax_same_site: false,
    }
}

fn tokens() -> AccessTokenResponse {
    AccessTokenResponse {
        id_token: "id".to_string(),
        access_token: "access".to_string(),
        token_type: "Bearer".to_string(),
        expires_in: Some(3600),
        refresh_token: Some("refresh".to_string()),
        scope: None,
    }
}

fn query(state: &str) -> Option<Result<CodeExchange, String>> {
    Some(Ok(CodeExchange {
        code: "the-code".to_string(),
        state: state.to_string(),
    }))
}

fn start(config: &OAuthConfiguration, state: &str) -> (Effect, CallbackFlow) {
    let jar = PrivateCookieJar::new(config.private_cookie_key.clone());
    perform(callback_for(jar, "session-1".to_string(), query(state)))
}

fn perform(step: Step<CallbackFlow, Result<Reply, Error>>) -> (Effect, CallbackFlow) {
    match step {
        Step::Perform(effect, flow) => (effect, flow),
        Step::Finish(_) => panic!("the flow is over"),
    }
}

fn failure(step: Step<CallbackFlow, Result<Reply, Error>>) -> Error {
    match step {
        Step::Finish(Err(error)) => error,
        _ => panic!("the flow fails"),
    }
}

fn success(step: Step<CallbackFlow, Result<Reply, Error>>) -> Reply {
    match step {
        Step::Finish(Ok(reply)) => reply,
        _ => panic!("the flow succeeds"),
    }
}

/// Drives a callback up to the token request.
fn posted(config: &OAuthConfiguration, state: &str) -> (TokenRequest, CallbackFlow) {
    let (effect, flow) = start(config, state);
    assert!(matches!(effect, Effect::GetCodeVerifier(key) if key == "key"));
    let (effect, flow) = perform(flow.step_at(
        config,
        NOW,
        Outcome::CodeVerifier(Ok(Some("verifier".to_string()))),
    ));
    assert!(matches!(effect, Effect::InvalidateCodeVerifier(key) if key == "key"));
    let (effect, flow) = perform(flow.step_at(config, NOW, Outcome::Done(Ok(()))));
    match effect {
        Effect::PostForm(request) => (request, flow),
        _ => panic!("the code is exchanged"),
    }
}

/// Drives a callback up to the storing of the session.
fn stored(config: &OAuthConfiguration, state: &str) -> (String, AuthSession, CallbackFlow) {
    let (_, flow) = posted(config, state);
    let (effect, flow) = perform(flow.step_at(config, NOW, Outcome::Status(Ok(200))));
    assert!(matches!(effect, Effect::ReadAccessTokens));
    let (effect, flow) =
        perform(flow.step_at(config, NOW, Outcome::AccessTokens(Ok(tokens()))));
    match effect {
        Effect::SetAuthSession(id, session) => (id, session, flow),
        _ => panic!("the session is stored"),
    }
}

fn pairs(request: &TokenRequest) -> Vec<(&str, &str)> {
    request
        .form
        .iter()
        .map(|(name, value)| (name.as_str(), value.as_str()))
        .collect()
}

#[test]
fn login_stores_the_session_and_sets_its_cookie() {
    let config = create_test_config();
    let (id, session, flow) = stored(&config, "key|/dashboard");
    assert_eq!(id, "session-1");
    assert_eq!(session.id_token, "id");
    assert_eq!(session.access_token, "access");
    assert_eq!(session.token_type, "Bearer");
    assert_eq!(session.refresh_token.as_deref(), Some("refresh"));
    assert_eq!(session.scope, None);
    assert_eq!(
        session.expires,
        Some(Timestamp { seconds: 1_700_000_060, nanos: 5 })
    );
    let reply = success(flow.step_at(&config, NOW, Outcome::Done(Ok(()))));
    assert_eq!(read_session_id(&reply.jar).as_deref(), Some("session-1"));
    match reply.body {
        Body::Html(page) => assert_eq!(
            page,
            "<head><meta http-equiv=\"Refresh\" content=\"0; URL=&#x2F;dashboard\" /></head>"
        ),
        _ => panic!("a page"),
    }
}

#[test]
fn token_request_holds_the_code_and_the_verifier() {
    let mut config = create_test_config();
    let (request, _) = posted(&config, "key");
    assert_eq!(request.url, "http://localhost/token");
    assert_eq!(
        pairs(&request),
        vec![
            ("grant_type", "authorization_code"),
            ("code", "the-code"),
            ("client_id", "test-client"),
            ("code_verifier", "verifier"),
            ("redirect_uri", "http://localhost:8080/auth/callback"),
        ]
    );
    assert_eq!(request.user, "test-client");
    assert_eq!(request.password.as_deref(), Some("test-secret"));

    config.token_request_redirect_uri = false;
    config.client_secret = String::new();
    config.token_endpoint = "HTTP://LOCALHOST".to_string();
    let (request, _) = posted(&config, "key|x");
    assert_eq!(request.url, "http://localhost/");
    assert_eq!(
        pairs(&request),
        vec![
            ("grant_type", "authorization_code"),
            ("code", "the-code"),
            ("client_id", "test-client"),
            ("code_verifier", "verifier"),
        ]
    );
    assert_eq!(request.password, None);
}

#[test]
fn query_must_hold_a_code() {
    let config = create_test_config();
    let jar = || PrivateCookieJar::new(config.private_cookie_key.clone());
    let error = failure(callback_for(jar(), "x".to_string(), None));
    assert!(matches!(error, Error::MissingPatameter(name) if name == "code"));
    let error = failure(callback_for(jar(), "x".to_string(), Some(Err("why".to_string()))));
    assert!(matches!(error, Error::InvalidCodeResponse(why) if why == "why"));
}

#[test]
fn unknown_state_is_refused() {
    let config = create_test_config();
    let (_, flow) = start(&config, "key");
    let error = failure(flow.step_at(&config, NOW, Outcome::CodeVerifier(Ok(None))));
    assert!(matches!(error, Error::MissingCodeVerifier));
    let (_, flow) = start(&config, "key");
    let error = failure(flow.step_at(
        &config,
        NOW,
        Outcome::CodeVerifier(Err(Error::Request("down".to_string()))),
    ));
    assert!(matches!(error, Error::Request(why) if why == "down"));
}

#[test]
fn verifier_that_cannot_be_dropped_is_not_used() {
    let config = create_test_config();
    let (_, flow) = start(&config, "key");
    let (_, flow) = perform(flow.step_at(
        &config,
        NOW,
        Outcome::CodeVerifier(Ok(Some("verifier".to_string()))),
    ));
    let error = failure(flow.step_at(
        &config,
        NOW,
        Outcome::Done(Err(Error::Request("down".to_string()))),
    ));
    assert!(matches!(error, Error::Request(why) if why == "down"));
}

#[test]
fn token_endpoint_must_be_a_url() {
    let mut config = create_test_config();
    config.token_endpoint = "no url".to_string();
    let (_, flow) = start(&config, "key");
    let (effect, flow) = perform(flow.step_at(
        &config,
        NOW,
        Outcome::CodeVerifier(Ok(Some("verifier".to_string()))),
    ));
    assert!(matches!(effect, Effect::InvalidateCodeVerifier(_)));
    let error = failure(flow.step_at(&config, NOW, Outcome::Done(Ok(()))));
    assert!(matches!(error, Error::NotValidUri(uri) if uri == "no url"));
}

#[test]
fn refusal_of_the_provider_is_handed_on() {
    let config = create_test_config();
    for code in [201, 400, 500] {
        let (_, flow) = posted(&config, "key");
        let (effect, flow) = perform(flow.step_at(&config, NOW, Outcome::Status(Ok(code))));
        assert!(matches!(effect, Effect::ReadText));
        match failure(flow.step_at(&config, NOW, Outcome::Text(Ok("body".to_string())))) {
            Error::Status { code: status, body } => {
                assert_eq!(status, code);
                assert_eq!(body, "body");
            }
            _ => panic!("a status"),
        }
    }
    let (_, flow) = posted(&config, "key");
    let (_, flow) = perform(flow.step_at(&config, NOW, Outcome::Status(Ok(400))));
    let error = failure(flow.step_at(
        &config,
        NOW,
        Outcome::Text(Err(Error::Request("cut".to_string()))),
    ));
    assert!(matches!(error, Error::Request(why) if why == "cut"));
}

#[test]
fn request_and_reading_errors_are_handed_on() {
    let config = create_test_config();
    let (_, flow) = posted(&config, "key");
    let error = failure(flow.step_at(
        &config,
        NOW,
        Outcome::Status(Err(Error::Request("down".to_string()))),
    ));
    assert!(matches!(error, Error::Request(why) if why == "down"));
    let (_, flow) = posted(&config, "key");
    let (_, flow) = perform(flow.step_at(&config, NOW, Outcome::Status(Ok(200))));
    let error = failure(flow.step_at(
        &config,
        NOW,
        Outcome::AccessTokens(Err(Error::Request("json".to_string()))),
    ));
    assert!(matches!(error, Error::Request(why) if why == "json"));
    let (_, _, flow) = stored(&config, "key");
    let error = failure(flow.step_at(
        &config,
        NOW,
        Outcome::Done(Err(Error::Request("full".to_string()))),
    ));
    assert!(matches!(error, Error::Request(why) if why == "full"));
}

#[test]
fn page_leads_to_local_paths_only() {
    let page = |target: &str| {
        format!("<head><meta http-equiv=\"Refresh\" content=\"0; URL={target}\" /></head>")
    };
    let built = |redirect: &str| build_login_page(Some(redirect.to_string()));
    assert_eq!(build_login_page(None), page("/"));
    assert_eq!(built(""), page("/"));
    assert_eq!(built("//evil.example"), page("/"));
    assert_eq!(built("https://evil.example"), page("/"));
    assert_eq!(built("/"), page("&#x2F;"));
    assert_eq!(
        built("/a?b=\"<'>&c"),
        page("&#x2F;a?b=&quot;&lt;&#x27;&gt;&amp;c")
    );
}

#[test]
fn only_the_first_bar_parts_the_state() {
    let config = create_test_config();
    let (_, _, flow) = stored(&config, "key|/a|b");
    match success(flow.step_at(&config, NOW, Outcome::Done(Ok(())))).body {
        Body::Html(page) => assert_eq!(page, build_login_page(Some("/a|b".to_string()))),
        _ => panic!("a page"),
    }
}

#[test]
fn request_must_carry_what_the_flow_needs() {
    let config = create_test_config();
    let headers = HeaderMap::new();
    let text = |step| match failure(step) {
        Error::CacheAccessError(text) => text,
        _ => panic!("something is not configured"),
    };
    assert_eq!(
        text(handle_callback(None, false, false, &headers, query("key"))),
        "OAuthConfiguration not configured"
    );
    assert_eq!(
        text(handle_callback(Some(&config), false, false, &headers, query("key"))),
        "AuthCache not configured"
    );
    assert_eq!(
        text(handle_callback(Some(&config), true, false, &headers, None)),
        "HTTP Client not configured"
    );
}

#[test]
fn each_callback_draws_an_identifier() {
    let config = create_test_config();
    let headers = HeaderMap::new();
    let (effect, first) =
        perform(handle_callback(Some(&config), true, true, &headers, query("key|/x")));
    assert!(matches!(effect, Effect::GetCodeVerifier(key) if key == "key"));
    let (_, second) =
        perform(handle_callback(Some(&config), true, true, &headers, query("key|/x")));
    assert_eq!(first.id.len(), 36);
    assert_eq!(&first.id[14..15], "4");
    assert_ne!(first.id, second.id);
}

#[test]
fn clock_gives_the_expiration() {
    let config = create_test_config();
    let (_, flow) = posted(&config, "key");
    let (_, flow) = perform(flow.step(&config, Outcome::Status(Ok(200))));
    let (effect, _) = perform(flow.step(&config, Outcome::AccessTokens(Ok(tokens()))));
    match effect {
        Effect::SetAuthSession(_, session) => {
            assert!(session.expires.unwrap().seconds > 1_700_000_060)
        }
        _ => panic!("the session is stored"),
    }
}
