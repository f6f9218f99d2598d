use axum_oidc_client::builder::OAuthConfigurationBuilder;
use axum_oidc_client::config::CodeChallengeMethod;
use axum_oidc_client::discovery::IssuerFlow;
use axum_oidc_client::effects::{Effect, OidcDiscovery, Outcome, Step};
use axum_oidc_client::error::Error;

const BASE: &str = "http://127.0.0.1:1234";

fn strings(list: &[&str]) -> Vec<String> {
    list.iter().map(|text| text.to_string()).collect()
}

fn document(
    auth: &str,
    token: &str,
    end_session: Option<&str>,
    scopes: Option<&[&str]>,
    pkce_methods: Option<&[&str]>,
) -> OidcDiscovery {
    OidcDiscovery {
        authorization_endpoint: auth.to_string(),
        token_endpoint: token.to_string(),
        end_session_endpoint: end_session.map(str::to_string),
        scopes_supported: scopes.map(strings),
        code_challenge_methods_supported: pkce_methods.map(strings),
    }
}

fn perform(step: Step<IssuerFlow, Result<OAuthConfigurationBuilder, Error>>) -> (Effect, IssuerFlow) {
    match step {
        Step::Perform(effect, flow) => (effect, flow),
        Step::Finish(_) => panic!("the flow is over"),
    }
}

fn finish(
    step: Step<IssuerFlow, Result<OAuthConfigurationBuilder, Error>>,
) -> Result<OAuthConfigurationBuilder, Error> {
    match step {
        Step::Perform(_, _) => panic!("the flow goes on"),
        Step::Finish(result) => result,
    }
}

/// Drives the flow up to the provider's answer.
fn fetched(builder: OAuthConfigurationBuilder, issuer: &str) -> IssuerFlow {
    let (effect, flow) = perform(builder.with_issuer(issuer));
    assert!(matches!(effect, Effect::BuildClient(None)));
    let (effect, flow) = perform(flow.step(Outcome::Done(Ok(()))));
    match effect {
        Effect::Fetch(url) => {
            assert_eq!(url, format!("{BASE}/.well-known/openid-configuration"))
        }
        _ => panic!("the document is fetched"),
    }
    flow
}

fn discover(
    builder: OAuthConfigurationBuilder,
    issuer: &str,
    document: OidcDiscovery,
) -> Result<OAuthConfigurationBuilder, Error> {
    let (effect, flow) = perform(fetched(builder, issuer).step(Outcome::Status(Ok(200))));
    assert!(matches!(effect, Effect::ReadDiscovery));
    finish(flow.step(Outcome::Discovery(Ok(document))))
}

#[test]
fn test_with_issuer_fills_endpoints() {
    let body = document(
        &format!("{BASE}/oauth2/auth"),
        &format!("{BASE}/oauth2/token"),
        Some(&format!("{BASE}/oauth2/logout")),
        None,
        None,
    );
    let builder = discover(OAuthConfigurationBuilder::default(), BASE, body).unwrap();
    assert_eq!(
        builder.authorization_endpoint.as_deref(),
        Some(format!("{BASE}/oauth2/auth").as_str())
    );
    assert_eq!(
        builder.token_endpoint.as_deref(),
        Some(format!("{BASE}/oauth2/token").as_str())
    );
    assert_eq!(
        builder.end_session_endpoint.as_deref(),
        Some(format!("{BASE}/oauth2/logout").as_str())
    );
}

#[test]
fn test_with_issuer_does_not_overwrite_explicit_endpoints() {
    let body = document(
        &format!("{BASE}/discovered/auth"),
        &format!("{BASE}/discovered/token"),
        None,
        None,
        None,
    );
    let builder = discover(
        OAuthConfigurationBuilder::default()
            .with_authorization_endpoint("https://manual.example.com/auth")
            .with_token_endpoint("https://manual.example.com/token"),
        BASE,
        body,
    )
    .unwrap();
    assert_eq!(
        builder.authorization_endpoint.as_deref(),
        Some("https://manual.example.com/auth")
    );
    assert_eq!(
        builder.token_endpoint.as_deref(),
        Some("https://manual.example.com/token")
    );
}

#[test]
fn test_with_issuer_scopes_intersection() {
    let body = document(
        &format!("{BASE}/auth"),
        &format!("{BASE}/token"),
        None,
        Some(&["openid", "email"]),
        None,
    );
    let builder = discover(OAuthConfigurationBuilder::default(), BASE, body).unwrap();
    assert_eq!(builder.scopes.to_string(), "openid email");
}

#[test]
fn test_with_issuer_scopes_explicit_not_overwritten() {
    let body = document(
        &format!("{BASE}/auth"),
        &format!("{BASE}/token"),
        None,
        Some(&["openid"]),
        None,
    );
    let builder = discover(
        OAuthConfigurationBuilder::default()
            .with_scopes(vec!["openid", "email", "profile", "custom"]),
        BASE,
        body,
    )
    .unwrap();
    assert_eq!(builder.scopes.to_string(), "openid email profile custom");
}

#[test]
fn test_with_issuer_pkce_s256_preferred() {
    let body = document(
        &format!("{BASE}/auth"),
        &format!("{BASE}/token"),
        None,
        None,
        Some(&["plain", "S256"]),
    );
    let builder = discover(OAuthConfigurationBuilder::default(), BASE, body).unwrap();
    assert_eq!(builder.code_challenge_method, CodeChallengeMethod::S256);
}

#[test]
fn test_with_issuer_pkce_plain_fallback() {
    let body = document(
        &format!("{BASE}/auth"),
        &format!("{BASE}/token"),
        None,
        None,
        Some(&["plain"]),
    );
    let builder = discover(OAuthConfigurationBuilder::default(), BASE, body).unwrap();
    assert_eq!(builder.code_challenge_method, CodeChallengeMethod::Plain);
}

#[test]
fn test_with_issuer_pkce_explicit_not_overwritten() {
    let body = document(
        &format!("{BASE}/auth"),
        &format!("{BASE}/token"),
        None,
        None,
        Some(&["plain"]),
    );
    let builder = discover(
        OAuthConfigurationBuilder::default()
            .with_code_challenge_method(CodeChallengeMethod::S256),
        BASE,
        body,
    )
    .unwrap();
    assert_eq!(builder.code_challenge_method, CodeChallengeMethod::S256);
}

#[test]
fn test_with_issuer_trailing_slash_normalised() {
    let body = document(
        &format!("{BASE}/auth"),
        &format!("{BASE}/token"),
        None,
        None,
        None,
    );
    let result = discover(
        OAuthConfigurationBuilder::default(),
        &format!("{BASE}/"),
        body,
    );
    assert!(result.is_ok(), "trailing slash should be normalised");
}

#[test]
fn test_with_issuer_http_error_propagated() {
    let flow = fetched(OAuthConfigurationBuilder::default(), BASE);
    let (effect, flow) = perform(flow.step(Outcome::Status(Ok(404))));
    assert!(matches!(effect, Effect::ReadText));
    let result = finish(flow.step(Outcome::Text(Ok("not found".to_string()))));
    assert!(
        matches!(result, Err(Error::InvalidResponse(_))),
        "HTTP 404 should surface as InvalidResponse"
    );
}

#[test]
fn refusal_is_described() {
    let flow = fetched(OAuthConfigurationBuilder::default(), BASE);
    let (_, flow) = perform(flow.step(Outcome::Status(Ok(404))));
    match finish(flow.step(Outcome::Text(Ok("not found".to_string())))) {
        Err(Error::InvalidResponse(message)) => assert_eq!(
            message,
            "OIDC discovery request to http://127.0.0.1:1234/.well-known/openid-configuration \
             returned HTTP 404 Not Found: not found"
        ),
        _ => panic!("the provider refused"),
    }
}

#[test]
fn refusal_without_a_body_is_described() {
    let flow = fetched(OAuthConfigurationBuilder::default(), BASE);
    let (_, flow) = perform(flow.step(Outcome::Status(Ok(503))));
    match finish(flow.step(Outcome::Text(Err(Error::Request("reset".to_string()))))) {
        Err(Error::InvalidResponse(message)) => assert_eq!(
            message,
            "OIDC discovery request to http://127.0.0.1:1234/.well-known/openid-configuration \
             returned HTTP 503 Service Unavailable: "
        ),
        _ => panic!("the provider refused"),
    }
}

#[test]
fn unreadable_document_is_described() {
    let flow = fetched(OAuthConfigurationBuilder::default(), BASE);
    let (_, flow) = perform(flow.step(Outcome::Status(Ok(204))));
    match finish(flow.step(Outcome::Discovery(Err("EOF".to_string())))) {
        Err(Error::InvalidResponse(message)) => assert_eq!(
            message,
            "Failed to parse OIDC discovery document from \
             http://127.0.0.1:1234/.well-known/openid-configuration: EOF"
        ),
        _ => panic!("the document cannot be read"),
    }
}

#[test]
fn issuer_that_is_no_url_is_refused() {
    let (effect, flow) =
        perform(OAuthConfigurationBuilder::default().with_issuer("accounts.example.com/"));
    assert!(matches!(effect, Effect::BuildClient(None)));
    match finish(flow.step(Outcome::Done(Ok(())))) {
        Err(Error::NotValidUri(url)) => {
            assert_eq!(url, "accounts.example.com")
        }
        _ => panic!("the issuer is no URL"),
    }
}

#[test]
fn issuer_without_a_host_is_refused() {
    for issuer in ["http://", "https:///", "http:"] {
        let (_, flow) = perform(OAuthConfigurationBuilder::default().with_issuer(issuer));
        let result = finish(flow.step(Outcome::Done(Ok(()))));
        assert!(matches!(result, Err(Error::NotValidUri(uri)) if issuer.starts_with(&uri)));
    }
}

#[test]
fn address_that_is_no_url_is_refused() {
    let (_, flow) = perform(OAuthConfigurationBuilder::default().with_issuer(BASE));
    match finish(flow.fetch(Some(BASE.to_string()), None)) {
        Err(Error::NotValidUri(url)) => {
            assert_eq!(url, format!("{BASE}/.well-known/openid-configuration"))
        }
        _ => panic!("the address is no URL"),
    }
}

#[test]
fn client_and_request_errors_are_handed_on() {
    let builder = OAuthConfigurationBuilder::default().with_custom_ca_cert("missing.pem");
    let (effect, flow) = perform(builder.with_issuer(BASE));
    match effect {
        Effect::BuildClient(certificate) => {
            assert_eq!(certificate.as_deref(), Some("missing.pem"))
        }
        _ => panic!("the client is built first"),
    }
    let result = finish(flow.step(Outcome::Done(Err(Error::Request("no file".to_string())))));
    assert!(matches!(result, Err(Error::Request(why)) if why == "no file"));

    let flow = fetched(OAuthConfigurationBuilder::default(), BASE);
    let result = finish(flow.step(Outcome::Status(Err(Error::Request("refused".to_string())))));
    assert!(matches!(result, Err(Error::Request(why)) if why == "refused"));
}

#[test]
fn only_listed_default_scopes_are_requested() {
    let scopes = |supported: Option<&[&str]>| {
        let body = document("a", "t", None, supported, None);
        discover(OAuthConfigurationBuilder::default(), BASE, body)
            .unwrap()
            .scopes
            .to_string()
    };
    assert_eq!(scopes(Some(&["offline"])), "");
    assert_eq!(scopes(Some(&[])), "");
    assert_eq!(scopes(Some(&["profile", "x", "openid"])), "openid profile");
    assert_eq!(scopes(Some(&["email", "email"])), "email");
    assert_eq!(scopes(None), "openid email profile");
}

#[test]
fn methods_are_compared_in_any_case() {
    let body = document("a", "t", None, None, Some(&["s256"]));
    let builder = discover(
        OAuthConfigurationBuilder {
            code_challenge_method: CodeChallengeMethod::Plain,
            ..OAuthConfigurationBuilder::default()
        },
        BASE,
        body,
    )
    .unwrap();
    assert_eq!(builder.code_challenge_method, CodeChallengeMethod::S256);

    let body = document("a", "t", None, None, Some(&[]));
    let builder = discover(OAuthConfigurationBuilder::default(), BASE, body).unwrap();
    assert_eq!(builder.code_challenge_method, CodeChallengeMethod::Plain);
}

#[test]
fn setting_before_or_after_discovery_is_the_same() {
    let body = || document("a", "t", Some("e"), Some(&["openid"]), Some(&["plain"]));
    let set = |builder: OAuthConfigurationBuilder| {
        builder
            .with_end_session_endpoint("mine")
            .with_scopes(vec!["email"])
            .with_code_challenge_method(CodeChallengeMethod::S256)
    };
    let before = discover(set(OAuthConfigurationBuilder::default()), BASE, body()).unwrap();
    let after = set(discover(OAuthConfigurationBuilder::default(), BASE, body()).unwrap());
    assert_eq!(before.end_session_endpoint, after.end_session_endpoint);
    assert_eq!(before.scopes.to_string(), after.scopes.to_string());
    assert_eq!(before.code_challenge_method, after.code_challenge_method);
    assert_eq!(before.end_session_endpoint.as_deref(), Some("mine"));
    assert_eq!(before.scopes.to_string(), "email");
}
