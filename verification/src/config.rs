//! The configuration of the authentication flow.

use axum_extra::extract::cookie::Key;
use vstd::prelude::*;

use crate::text;
use crate::text::copy_optional;

verus! {

/// The key that session cookies are encrypted under.
#[verifier::external_type_specification]
#[verifier::external_body]
pub struct ExKey(axum_extra::extract::cookie::Key);

/// Copying a key, `Key::clone`, gives the same key.
pub assume_specification[ <axum_extra::extract::cookie::Key as std::clone::Clone>::clone ](
    key: &axum_extra::extract::cookie::Key,
) -> (copy: axum_extra::extract::cookie::Key)
    ensures
        copy == *key,
;

/// The PKCE method of the `pkce_std` crate.
#[verifier::external_type_specification]
pub struct ExMethod(pkce_std::Method);

/// The name of the cookie that holds the session identifier.
pub const SESSION_KEY: &'static str = "AUTH_SESSION";

/// How a code verifier is turned into a code challenge.
#[derive(Debug, Clone, Copy, PartialEq, Eq, Structural)]
pub enum CodeChallengeMethod {
    /// The SHA-256 hash of the verifier.
    S256,
    /// The verifier itself.
    Plain,
}

impl Default for CodeChallengeMethod {
    fn default() -> (method: Self)
        ensures
            method == CodeChallengeMethod::S256,
    {
        CodeChallengeMethod::S256
    }
}

impl CodeChallengeMethod {
    /// The name of the method in a request.
    pub open spec fn name(self) -> Seq<char> {
        match self {
            CodeChallengeMethod::S256 => "S256"@,
            CodeChallengeMethod::Plain => "plain"@,
        }
    }

    /// The name of the method in a request: `S256` or `plain`.
    pub fn to_string(&self) -> (name: String)
        ensures
            name@ == self.name(),
    {
        match self {
            CodeChallengeMethod::S256 => "S256".to_owned(),
            CodeChallengeMethod::Plain => "plain".to_owned(),
        }
    }
}

/// The method of the `pkce_std` crate that does the same.
pub open spec fn pkce_method(method: CodeChallengeMethod) -> pkce_std::Method {
    match method {
        CodeChallengeMethod::S256 => pkce_std::Method::Sha256,
        CodeChallengeMethod::Plain => pkce_std::Method::Plain,
    }
}

impl From<CodeChallengeMethod> for pkce_std::Method {
    fn from(method: CodeChallengeMethod) -> (converted: pkce_std::Method) {
        match method {
            CodeChallengeMethod::S256 => pkce_std::Method::Sha256,
            CodeChallengeMethod::Plain => pkce_std::Method::Plain,
        }
    }
}

impl vstd::std_specs::convert::FromSpecImpl<CodeChallengeMethod> for pkce_std::Method {
    open spec fn obeys_from_spec() -> bool {
        true
    }

    open spec fn from_spec(method: CodeChallengeMethod) -> pkce_std::Method {
        pkce_method(method)
    }
}

/// Everything the flow needs to know of the provider, the application and its
/// sessions.
pub struct OAuthConfiguration {
    /// The key that session cookies are encrypted under.
    pub private_cookie_key: Key,
    /// The identifier of this client at the provider.
    pub client_id: String,
    /// The secret of this client at the provider; empty for a public client.
    pub client_secret: String,
    /// The audience to request at the authorization endpoint.
    pub audience: Option<String>,
    /// Where the provider sends the user back to.
    pub redirect_uri: String,
    /// Whether the token request repeats `redirect_uri`.
    pub token_request_redirect_uri: bool,
    /// The provider's authorization endpoint.
    pub authorization_endpoint: String,
    /// The provider's token endpoint.
    pub token_endpoint: String,
    /// The provider's logout endpoint.
    pub end_session_endpoint: Option<String>,
    /// Where the user goes after a logout.
    pub post_logout_redirect_uri: String,
    /// The scopes to request, separated by spaces.
    pub scopes: String,
    /// The PKCE method.
    pub code_challenge_method: CodeChallengeMethod,
    /// The path of a certificate to trust.
    pub custom_ca_cert: Option<String>,
    /// How long a session lives without a request, in minutes.
    pub session_max_age_minutes: i64,
    /// How long a token may be used, in seconds.
    pub token_max_age_seconds: Option<i64>,
    /// The path under which the routes of the flow lie.
    pub base_path: String,
    /// Whether the session cookie is sent over HTTPS only.
    pub secure_cookies: bool,
    /// Whether the session cookie's `SameSite` policy is `Lax`, not `Strict`.
    pub lax_same_site: bool,
}

/// The mathematical counterpart of [`OAuthConfiguration`].
pub struct ConfigModel {
    pub private_cookie_key: Key,
    pub client_id: Seq<char>,
    pub client_secret: Seq<char>,
    pub audience: Option<Seq<char>>,
    pub redirect_uri: Seq<char>,
    pub token_request_redirect_uri: bool,
    pub authorization_endpoint: Seq<char>,
    pub token_endpoint: Seq<char>,
    pub end_session_endpoint: Option<Seq<char>>,
    pub post_logout_redirect_uri: Seq<char>,
    pub scopes: Seq<char>,
    pub code_challenge_method: CodeChallengeMethod,
    pub custom_ca_cert: Option<Seq<char>>,
    pub session_max_age_minutes: i64,
    pub token_max_age_seconds: Option<i64>,
    pub base_path: Seq<char>,
    pub secure_cookies: bool,
    pub lax_same_site: bool,
}

impl View for OAuthConfiguration {
    type V = ConfigModel;

    open spec fn view(&self) -> ConfigModel {
        ConfigModel {
            private_cookie_key: self.private_cookie_key,
            client_id: self.client_id@,
            client_secret: self.client_secret@,
            audience: text::optional_text(self.audience),
            redirect_uri: self.redirect_uri@,
            token_request_redirect_uri: self.token_request_redirect_uri,
            authorization_endpoint: self.authorization_endpoint@,
            token_endpoint: self.token_endpoint@,
            end_session_endpoint: text::optional_text(self.end_session_endpoint),
            post_logout_redirect_uri: self.post_logout_redirect_uri@,
            scopes: self.scopes@,
            code_challenge_method: self.code_challenge_method,
            custom_ca_cert: text::optional_text(self.custom_ca_cert),
            session_max_age_minutes: self.session_max_age_minutes,
            token_max_age_seconds: self.token_max_age_seconds,
            base_path: self.base_path@,
            secure_cookies: self.secure_cookies,
            lax_same_site: self.lax_same_site,
        }
    }
}

impl Clone for OAuthConfiguration {
    fn clone(&self) -> (copy: Self)
        ensures
            copy@ == self@,
    {
        OAuthConfiguration {
            private_cookie_key: self.private_cookie_key.clone(),
            client_id: self.client_id.clone(),
            client_secret: self.client_secret.clone(),
            audience: copy_optional(&self.audience),
            redirect_uri: self.redirect_uri.clone(),
            token_request_redirect_uri: self.token_request_redirect_uri,
            authorization_endpoint: self.authorization_endpoint.clone(),
            token_endpoint: self.token_endpoint.clone(),
            end_session_endpoint: copy_optional(&self.end_session_endpoint),
            post_logout_redirect_uri: self.post_logout_redirect_uri.clone(),
            scopes: self.scopes.clone(),
            code_challenge_method: self.code_challenge_method,
            custom_ca_cert: copy_optional(&self.custom_ca_cert),
            session_max_age_minutes: self.session_max_age_minutes,
            token_max_age_seconds: self.token_max_age_seconds,
            base_path: self.base_path.clone(),
            secure_cookies: self.secure_cookies,
            lax_same_site: self.lax_same_site,
        }
    }
}

impl ConfigModel {
    /// The session's lifetime in seconds.
    pub open spec fn session_seconds(self) -> int {
        self.session_max_age_minutes * 60
    }

    /// The session's lifetime fits in a duration of whole seconds.
    pub open spec fn is_session_age_bounded(self) -> bool {
        i64::MIN <= self.session_seconds() <= i64::MAX
    }
}

impl OAuthConfiguration {
    /// Tests whether the session's lifetime fits in a duration of whole seconds.
    pub fn session_max_age_fits(&self) -> (fits: bool)
        ensures
            fits == self@.is_session_age_bounded(),
    {
        self.session_max_age_minutes.checked_mul(60).is_some()
    }
}

} // verus!
