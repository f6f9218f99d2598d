use axum::response::IntoResponse;
use axum_extra::extract::PrivateCookieJar;
use axum_extra::extract::cookie::Key;
use axum_oidc_client::config::{CodeChallengeMethod, OAuthConfiguration};
use axum_oidc_client::effects::{Effect, Outcome, Step};
use axum_oidc_client::error::Error;
use axum_oidc_client::jar::{read_session_id, renew_session_cookie};
use axum_oidc_client::logout::handle_default_logout::DefaultLogoutHandler;
use axum_oidc_client::logout::handle_oidc_logout::OidcLogoutHandler;
use axum_oidc_client::reply::{Body, Reply};
use axum_oidc_client::session::AuthSession;
use http::HeaderMap;
use http::header::{COOKIE, SET_COOKIE};

const PAGE: &str = "\n        <head>\n          <meta http-equiv=\"Refresh\" content=\"0; \
                    URL=/bye\" />\n        </head>";

fn create_test_config() -> OAuthConfiguration {
    OAuthConfiguration {
        private_cookie_key: Key::from(&[0u8; 64]),
        client_id: "test-client".to_string(),
        client_secret: "test-secret".to_string(),
        audience: None,
        redirect_uri: "http://localhost:8080/auth/callback".to_string(),
        token_request_redirect_uri: true,
        authorization_endpoint: "http://localhost/auth".to_string(),
        token_endpoint: "http://localhost/token".to_string(),
        end_session_endpoint: None,
        post_logout_redirect_uri: "/bye".to_string(),
        scopes: "openid email".to_string(),
        code_challenge_method: CodeChallengeMethod::S256,
        session_max_age_minutes: 30,
        token_max_age_seconds: Some(60),
        custom_ca_cert: None,
        base_path: "/auth".to_string(),
        secure_cookies: true,
        lax_same_site: false,
    }
}

fn session(id_token: &str) -> AuthSession {
    AuthSession {
        id_token: id_token.to_string(),
        access_token: "access".to_string(),
        token_type: "Bearer".to_string(),
        refresh_token: None,
        scope: None,
        expires: None,
    }
}

fn headers_with_session(config: &OAuthConfiguration, id: &str) -> HeaderMap {
    let jar = PrivateCookieJar::new(config.private_cookie_key.clone());
    let response = renew_session_cookie(config, jar, id.to_string()).into_response();
    let cookie = response.headers()[SET_COOKIE].to_str().unwrap();
    let mut headers = HeaderMap::new();
    headers.insert(COOKIE, cookie.split(';').next().unwrap().parse().unwrap());
    headers
}

/// The response drops the session cookie.
fn assert_dropped(reply: Reply, cookies: usize) -> Body {
    assert_eq!(read_session_id(&reply.jar), None);
    let response = reply.jar.into_response();
    let set: Vec<_> = response.headers().get_all(SET_COOKIE).iter().collect();
    assert_eq!(set.len(), cookies);
    for cookie in set {
        assert!(cookie.to_str().unwrap().contains("Max-Age=0"));
    }
    reply.body
}

/// Drives a logout at the provider's side up to its end.
fn oidc_logout(found: Outcome, dropped: Outcome) -> Result<Reply, Error> {
    let config = create_test_config();
    let handler = OidcLogoutHandler::new("https://provider.example/logout");
    let step = handler.handle_logout(&config, &headers_with_session(&config, "s1"));
    let flow = match step {
        Step::Perform(Effect::GetAuthSession(id), flow) => {
            assert_eq!(id, "s1");
            flow
        }
        _ => panic!("the session is looked up"),
    };
    let flow = match flow.step(&handler, &config, found) {
        Step::Perform(Effect::InvalidateAuthSession(id), flow) => {
            assert_eq!(id, "s1");
            flow
        }
        _ => panic!("the session is dropped"),
    };
    match flow.step(&handler, &config, dropped) {
        Step::Finish(result) => result,
        Step::Perform(_, _) => panic!("the flow is over"),
    }
}

#[test]
fn default_logout_drops_the_session_and_its_cookie() {
    let config = create_test_config();
    let headers = headers_with_session(&config, "s1");
    match DefaultLogoutHandler.handle_logout(&config, &headers) {
        Step::Perform(Effect::InvalidateAuthSession(id), flow) => {
            assert_eq!(id, "s1");
            match flow.step(&config, Outcome::Done(Ok(()))) {
                Step::Finish(Ok(reply)) => match assert_dropped(reply, 1) {
                    Body::Html(page) => assert_eq!(page, PAGE),
                    _ => panic!("a page"),
                },
                _ => panic!("the logout succeeds"),
            }
        }
        _ => panic!("the session is dropped"),
    }
}

#[test]
fn default_logout_without_a_session_asks_nothing() {
    let config = create_test_config();
    match DefaultLogoutHandler.handle_logout(&config, &HeaderMap::new()) {
        Step::Finish(Ok(reply)) => match assert_dropped(reply, 0) {
            Body::Html(page) => assert_eq!(page, PAGE),
            _ => panic!("a page"),
        },
        _ => panic!("the logout succeeds"),
    }
}

#[test]
fn default_logout_fails_with_the_cache() {
    let config = create_test_config();
    let headers = headers_with_session(&config, "s1");
    match DefaultLogoutHandler.handle_logout(&config, &headers) {
        Step::Perform(_, flow) => {
            let outcome = Outcome::Done(Err(Error::Request("down".to_string())));
            assert!(matches!(
                flow.step(&config, outcome),
                Step::Finish(Err(Error::Request(why))) if why == "down"
            ));
        }
        _ => panic!("the session is dropped"),
    }
}

#[test]
fn oidc_logout_tells_the_provider() {
    let reply = oidc_logout(
        Outcome::Session(Ok(Some(session("to ken/\u{e9}~")))),
        Outcome::Done(Ok(())),
    )
    .unwrap_or_else(|_| panic!("the logout succeeds"));
    match assert_dropped(reply, 1) {
        Body::TemporaryRedirect(url) => assert_eq!(
            url,
            "https://provider.example/logout?id_token_hint=to%20ken%2F%C3%A9~\
             &post_logout_redirect_uri=%2Fbye"
        ),
        _ => panic!("the provider is told"),
    }
}

#[test]
fn oidc_logout_without_a_stored_session_shows_the_page() {
    for found in [
        Outcome::Session(Ok(None)),
        Outcome::Session(Err(Error::Request("down".to_string()))),
    ] {
        let reply = oidc_logout(found, Outcome::Done(Ok(())))
            .unwrap_or_else(|_| panic!("the logout succeeds"));
        match assert_dropped(reply, 1) {
            Body::Html(page) => assert_eq!(page, PAGE),
            _ => panic!("a page"),
        }
    }
}

#[test]
fn oidc_logout_fails_with_the_cache() {
    let result = oidc_logout(
        Outcome::Session(Ok(Some(session("id")))),
        Outcome::Done(Err(Error::Request("down".to_string()))),
    );
    assert!(matches!(result, Err(Error::Request(why)) if why == "down"));
}

#[test]
fn oidc_logout_without_a_cookie_asks_nothing() {
    let config = create_test_config();
    let handler = OidcLogoutHandler::new("https://provider.example/logout").clone();
    match handler.handle_logout(&config, &HeaderMap::new()) {
        Step::Finish(Ok(reply)) => match assert_dropped(reply, 0) {
            Body::Html(page) => assert_eq!(page, PAGE),
            _ => panic!("a page"),
        },
        _ => panic!("the logout succeeds"),
    }
}
