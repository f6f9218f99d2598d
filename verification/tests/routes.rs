use axum::response::IntoResponse;
use axum_extra::extract::PrivateCookieJar;
use axum_extra::extract::cookie::Key;
use axum_oidc_client::config::{CodeChallengeMethod, OAuthConfiguration};
use axum_oidc_client::effects::{Effect, Outcome, Step};
use axum_oidc_client::error::Error;
use axum_oidc_client::jar::{read_session_id, renew_session_cookie};
use axum_oidc_client::router::dispatch::{Dispatch, Route, dispatch, dispatch_opened, find_route};
use axum_oidc_client::router::handle_default::{DefaultFlow, DefaultReply, handle_default};
use axum_oidc_client::router::login::{LoginReply, dispatch_auth};
use axum_oidc_client::session::AuthSession;
use http::HeaderMap;
use http::header::{COOKIE, SET_COOKIE};

fn create_test_config() -> OAuthConfiguration {
    OAuthConfiguration {
        private_cookie_key: Key::from(&[0u8; 64]),
        client_id: "test-client".to_string(),
        client_secret: "test-secret".to_string(),
        audience: None,
        redirect_uri: "http://localhost:8080/auth/callback".to_string(),
        token_request_redirect_uri: true,
        authorization_endpoint: "http://localhost/auth".to_string(),
        token_endpoint: "http://localhost/token".to_string(),
        end_session_endpoint: None,
        post_logout_redirect_uri: "/".to_string(),
        scopes: "openid email".to_string(),
        code_challenge_method: CodeChallengeMethod::S256,
        session_max_age_minutes: 30,
        token_max_age_seconds: Some(60),
        custom_ca_cert: None,
        base_path: "/auth".to_string(),
        secure_cookies: true,
        lax_same_site: false,
    }
}

fn session() -> AuthSession {
    AuthSession {
        id_token: "id".to_string(),
        access_token: "access".to_string(),
        token_type: "Bearer".to_string(),
        refresh_token: None,
        scope: None,
        expires: None,
    }
}

/// The headers of a browser that holds the session cookie.
fn headers_with_session(config: &OAuthConfiguration, id: &str) -> HeaderMap {
    let jar = PrivateCookieJar::new(config.private_cookie_key.clone());
    let response = renew_session_cookie(config, jar, id.to_string()).into_response();
    let cookie = response.headers()[SET_COOKIE].to_str().unwrap();
    let mut headers = HeaderMap::new();
    headers.insert(COOKIE, cookie.split(';').next().unwrap().parse().unwrap());
    headers
}

fn cookies_set(jar: PrivateCookieJar) -> usize {
    jar.into_response().headers().get_all(SET_COOKIE).iter().count()
}

fn looked_up(outcome: Outcome, redirect: Option<&str>) -> LoginReply {
    match dispatch_auth(redirect.map(str::to_string), Some("s".to_string())) {
        Step::Perform(Effect::GetAuthSession(id), flow) => {
            assert_eq!(id, "s");
            match flow.step(outcome) {
                Step::Finish(reply) => reply,
                Step::Perform(_, _) => panic!("the flow is over"),
            }
        }
        _ => panic!("the session is looked up"),
    }
}

fn answered(config: &OAuthConfiguration, session_id: Option<&str>) -> Step<DefaultFlow, DefaultReply> {
    let jar = PrivateCookieJar::new(config.private_cookie_key.clone());
    match handle_default(jar, session_id.map(str::to_string)) {
        Step::Perform(Effect::AwaitApplication, flow) => {
            flow.step(config, Outcome::Application(true))
        }
        _ => panic!("the application answers first"),
    }
}

#[test]
fn each_path_has_its_route() {
    assert_eq!(find_route("/auth", "/auth"), Route::Login);
    assert_eq!(find_route("/auth", "/auth/callback"), Route::Callback);
    assert_eq!(find_route("/auth", "/auth/logout"), Route::Logout);
    assert_eq!(find_route("/auth", "/auth/"), Route::Application);
    assert_eq!(find_route("/auth", "/authx"), Route::Application);
    assert_eq!(find_route("/auth", "/"), Route::Application);
    assert_eq!(find_route("", ""), Route::Login);
    assert_eq!(find_route("", "/callback"), Route::Callback);
    assert_eq!(find_route("/api/v1/auth", "/api/v1/auth/logout"), Route::Logout);
}

#[test]
fn login_takes_the_redirect_of_the_query() {
    let config = create_test_config();
    let redirect = |query: Option<&str>| {
        match dispatch(&config, &HeaderMap::new(), "/auth", query) {
            Dispatch::Login(Step::Finish(LoginReply::StartLogin { redirect })) => redirect,
            _ => panic!("the login starts"),
        }
    };
    assert_eq!(redirect(None), None);
    assert_eq!(redirect(Some("")), None);
    assert_eq!(redirect(Some("other=1")), None);
    assert_eq!(
        redirect(Some("redirect=%2Fdashboard")).as_deref(),
        Some("/dashboard")
    );
    assert_eq!(
        redirect(Some("a=1&redirect=%2Fa+b&c=2")).as_deref(),
        Some("/a b")
    );
    assert_eq!(redirect(Some("redirect=/a&redirect=/b")), None);
}

#[test]
fn session_cookie_reaches_the_routes() {
    let config = create_test_config();
    let headers = headers_with_session(&config, "s1");
    match dispatch(&config, &headers, "/auth", Some("redirect=/x")) {
        Dispatch::Login(Step::Perform(Effect::GetAuthSession(id), flow)) => {
            assert_eq!(id, "s1");
            match flow.step(Outcome::Session(Ok(Some(session())))) {
                Step::Finish(LoginReply::SeeOther(path)) => assert_eq!(path, "/x"),
                _ => panic!("the user has a session"),
            }
        }
        _ => panic!("the session is looked up"),
    }
    match dispatch(&config, &headers, "/page", None) {
        Dispatch::Application(Step::Perform(Effect::AwaitApplication, flow)) => {
            match flow.step(&config, Outcome::Application(true)) {
                Step::Perform(Effect::ExtendAuthSession(id, ttl), _) => {
                    assert_eq!(id, "s1");
                    assert_eq!(ttl, 1800);
                }
                _ => panic!("the session is extended"),
            }
        }
        _ => panic!("the application answers"),
    }
    assert!(matches!(
        dispatch(&config, &headers, "/auth/callback", None),
        Dispatch::Callback
    ));
    assert!(matches!(
        dispatch(&config, &headers, "/auth/logout", None),
        Dispatch::Logout
    ));
    let jar = PrivateCookieJar::new(config.private_cookie_key.clone());
    assert!(matches!(
        dispatch_opened(&config, jar, "/auth/logout", None),
        Dispatch::Logout
    ));
}

#[test]
fn user_with_a_session_is_sent_to_a_local_path() {
    let target = |redirect| match looked_up(Outcome::Session(Ok(Some(session()))), redirect) {
        LoginReply::SeeOther(path) => path,
        _ => panic!("the user has a session"),
    };
    assert_eq!(target(Some("/dashboard")), "/dashboard");
    assert_eq!(target(Some("/")), "/");
    assert_eq!(target(Some("//evil.example")), "/");
    assert_eq!(target(Some("https://evil.example")), "/");
    assert_eq!(target(Some("")), "/");
    assert_eq!(target(None), "/");
}

#[test]
fn user_without_a_session_logs_in() {
    let redirect = |outcome| match looked_up(outcome, Some("//kept")) {
        LoginReply::StartLogin { redirect } => redirect,
        _ => panic!("the login starts"),
    };
    assert_eq!(redirect(Outcome::Session(Ok(None))).as_deref(), Some("//kept"));
    assert_eq!(
        redirect(Outcome::Session(Err(Error::Request("down".to_string())))).as_deref(),
        Some("//kept")
    );
    assert!(matches!(
        dispatch_auth(None, None),
        Step::Finish(LoginReply::StartLogin { redirect: None })
    ));
}

#[test]
fn session_is_extended_and_its_cookie_renewed() {
    let config = create_test_config();
    match answered(&config, Some("s1")) {
        Step::Perform(Effect::ExtendAuthSession(id, ttl), flow) => {
            assert_eq!(id, "s1");
            assert_eq!(ttl, 30 * 60);
            match flow.step(&config, Outcome::Done(Ok(()))) {
                Step::Finish(DefaultReply::Response(jar)) => {
                    assert_eq!(read_session_id(&jar).as_deref(), Some("s1"));
                    assert_eq!(cookies_set(jar), 1);
                }
                _ => panic!("the response goes out"),
            }
        }
        _ => panic!("the session is extended"),
    }
}

#[test]
fn cache_that_cannot_extend_is_an_error() {
    let config = create_test_config();
    match answered(&config, Some("s1")) {
        Step::Perform(_, flow) => {
            let outcome = Outcome::Done(Err(Error::Request("down".to_string())));
            match flow.step(&config, outcome) {
                Step::Finish(DefaultReply::Refused(Error::Request(why))) => {
                    assert_eq!(why, "down")
                }
                _ => panic!("the cache failed"),
            }
        }
        _ => panic!("the session is extended"),
    }
}

#[test]
fn request_without_a_session_is_left_alone() {
    let config = create_test_config();
    match answered(&config, None) {
        Step::Finish(DefaultReply::Response(jar)) => assert_eq!(cookies_set(jar), 0),
        _ => panic!("the response goes out"),
    }
}

#[test]
fn error_of_the_application_is_handed_on() {
    let config = create_test_config();
    let jar = PrivateCookieJar::new(config.private_cookie_key.clone());
    match handle_default(jar, Some("s1".to_string())) {
        Step::Perform(_, flow) => assert!(matches!(
            flow.step(&config, Outcome::Application(false)),
            Step::Finish(DefaultReply::ApplicationError)
        )),
        _ => panic!("the application answers first"),
    }
}
