//! Builds a configuration, step by step and from a provider's discovery document.

use axum_extra::extract::cookie::Key;
use vstd::prelude::*;

use crate::config::{CodeChallengeMethod, ConfigModel, OAuthConfiguration};
use crate::effects;
use crate::error::{Error, ErrorModel};
use crate::outside;
use crate::outside::key_from_bytes;
use crate::text;
use crate::text::{copy_list, copy_optional, join_with_spaces, trim_trailing_slashes};

verus! {

/// The scopes to request.
#[derive(Debug)]
pub struct Scopes(Vec<String>);

impl View for Scopes {
    type V = Seq<Seq<char>>;

    closed spec fn view(&self) -> Seq<Seq<char>> {
        text::texts(self.0@)
    }
}

/// The scopes that are requested where none are set.
pub open spec fn default_scopes() -> Seq<Seq<char>> {
    seq!["openid"@, "email"@, "profile"@]
}

impl Default for Scopes {
    fn default() -> (scopes: Self)
        ensures
            scopes@ == default_scopes(),
    {
        let mut scopes: Vec<String> = Vec::new();
        scopes.push("openid".to_owned());
        scopes.push("email".to_owned());
        scopes.push("profile".to_owned());
        assert(text::texts(scopes@) =~= default_scopes());
        Scopes(scopes)
    }
}

impl Clone for Scopes {
    fn clone(&self) -> (copy: Self)
        ensures
            copy@ == self@,
    {
        Scopes(copy_list(&self.0))
    }
}

impl Scopes {
    /// The scopes in a list.
    pub fn of(list: Vec<String>) -> (scopes: Scopes)
        ensures
            scopes@ == text::texts(list@),
    {
        Scopes(list)
    }

    /// The scopes, separated by spaces.
    pub fn to_string(&self) -> (text: String)
        ensures
            text@ == text::joined(self@, " "@),
    {
        join_with_spaces(&self.0)
    }
}

/// Builds a configuration. What is not set stays open or at its default until
/// [`OAuthConfigurationBuilder::build`].
#[derive(Debug)]
pub struct OAuthConfigurationBuilder {
    pub private_cookie_key: Option<Key>,
    pub client_id: Option<String>,
    pub client_secret: Option<String>,
    pub audience: Option<String>,
    pub redirect_uri: Option<String>,
    pub token_request_redirect_uri: bool,
    pub authorization_endpoint: Option<String>,
    pub token_endpoint: Option<String>,
    pub end_session_endpoint: Option<String>,
    pub post_logout_redirect_uri: Option<String>,
    pub scopes: Scopes,
    pub code_challenge_method: CodeChallengeMethod,
    pub custom_ca_cert: Option<String>,
    pub session_max_age_minutes: Option<i64>,
    pub token_max_age_seconds: Option<i64>,
    pub base_path: Option<String>,
    pub secure_cookies: bool,
    pub lax_same_site: bool,
    /// The method was set by the caller, so discovery leaves it alone.
    pub code_challenge_method_explicit: bool,
    /// The scopes were set by the caller, so discovery leaves them alone.
    pub scopes_explicit: bool,
}

/// The mathematical counterpart of [`OAuthConfigurationBuilder`].
#[verifier::ext_equal]
pub struct BuilderModel {
    pub private_cookie_key: Option<Key>,
    pub client_id: Option<Seq<char>>,
    pub client_secret: Option<Seq<char>>,
    pub audience: Option<Seq<char>>,
    pub redirect_uri: Option<Seq<char>>,
    pub token_request_redirect_uri: bool,
    pub authorization_endpoint: Option<Seq<char>>,
    pub token_endpoint: Option<Seq<char>>,
    pub end_session_endpoint: Option<Seq<char>>,
    pub post_logout_redirect_uri: Option<Seq<char>>,
    pub scopes: Seq<Seq<char>>,
    pub code_challenge_method: CodeChallengeMethod,
    pub custom_ca_cert: Option<Seq<char>>,
    pub session_max_age_minutes: Option<i64>,
    pub token_max_age_seconds: Option<i64>,
    pub base_path: Option<Seq<char>>,
    pub secure_cookies: bool,
    pub lax_same_site: bool,
    pub code_challenge_method_explicit: bool,
    pub scopes_explicit: bool,
}

impl View for OAuthConfigurationBuilder {
    type V = BuilderModel;

    open spec fn view(&self) -> BuilderModel {
        BuilderModel {
            private_cookie_key: self.private_cookie_key,
            client_id: text::optional_text(self.client_id),
            client_secret: text::optional_text(self.client_secret),
            audience: text::optional_text(self.audience),
            redirect_uri: text::optional_text(self.redirect_uri),
            token_request_redirect_uri: self.token_request_redirect_uri,
            authorization_endpoint: text::optional_text(self.authorization_endpoint),
            token_endpoint: text::optional_text(self.token_endpoint),
            end_session_endpoint: text::optional_text(self.end_session_endpoint),
            post_logout_redirect_uri: text::optional_text(self.post_logout_redirect_uri),
            scopes: self.scopes@,
            code_challenge_method: self.code_challenge_method,
            custom_ca_cert: text::optional_text(self.custom_ca_cert),
            session_max_age_minutes: self.session_max_age_minutes,
            token_max_age_seconds: self.token_max_age_seconds,
            base_path: text::optional_text(self.base_path),
            secure_cookies: self.secure_cookies,
            lax_same_site: self.lax_same_site,
            code_challenge_method_explicit: self.code_challenge_method_explicit,
            scopes_explicit: self.scopes_explicit,
        }
    }
}

/// The builder in which nothing is set.
pub open spec fn empty_builder() -> BuilderModel {
    BuilderModel {
        private_cookie_key: None,
        client_id: None,
        client_secret: None,
        audience: None,
        redirect_uri: None,
        token_request_redirect_uri: true,
        authorization_endpoint: None,
        token_endpoint: None,
        end_session_endpoint: None,
        post_logout_redirect_uri: None,
        scopes: default_scopes(),
        code_challenge_method: CodeChallengeMethod::S256,
        custom_ca_cert: None,
        session_max_age_minutes: None,
        token_max_age_seconds: None,
        base_path: None,
        secure_cookies: true,
        lax_same_site: false,
        code_challenge_method_explicit: false,
        scopes_explicit: false,
    }
}

impl Default for OAuthConfigurationBuilder {
    fn default() -> (builder: Self)
        ensures
            builder@ == empty_builder(),
    {
        OAuthConfigurationBuilder {
            private_cookie_key: None,
            client_id: None,
            client_secret: None,
            audience: None,
            redirect_uri: None,
            token_request_redirect_uri: true,
            authorization_endpoint: None,
            token_endpoint: None,
            end_session_endpoint: None,
            post_logout_redirect_uri: None,
            scopes: Scopes::default(),
            code_challenge_method: CodeChallengeMethod::default(),
            custom_ca_cert: None,
            session_max_age_minutes: None,
            token_max_age_seconds: None,
            base_path: None,
            secure_cookies: true,
            lax_same_site: false,
            code_challenge_method_explicit: false,
            scopes_explicit: false,
        }
    }
}

/// The first parameter that must be set and is not.
pub open spec fn missing_parameter(builder: BuilderModel) -> Option<Seq<char>> {
    if builder.private_cookie_key is None {
        Some("private_cookie_key"@)
    } else if builder.client_id is None {
        Some("client_id"@)
    } else if builder.client_secret is None {
        Some("client_secret"@)
    } else if builder.redirect_uri is None {
        Some("redirect_uri"@)
    } else if builder.session_max_age_minutes is None {
        Some("session_max_age"@)
    } else if builder.authorization_endpoint is None {
        Some("authorization_endpoint"@)
    } else if builder.token_endpoint is None {
        Some("token_endpoint"@)
    } else if builder.post_logout_redirect_uri is None {
        Some("post_logout_redirect_uri"@)
    } else {
        None
    }
}

/// The configuration that a builder with all it needs gives.
pub open spec fn built(builder: BuilderModel) -> ConfigModel {
    ConfigModel {
        private_cookie_key: builder.private_cookie_key->0,
        client_id: builder.client_id->0,
        client_secret: builder.client_secret->0,
        audience: builder.audience,
        redirect_uri: builder.redirect_uri->0,
        token_request_redirect_uri: builder.token_request_redirect_uri,
        authorization_endpoint: builder.authorization_endpoint->0,
        token_endpoint: builder.token_endpoint->0,
        end_session_endpoint: builder.end_session_endpoint,
        post_logout_redirect_uri: builder.post_logout_redirect_uri->0,
        scopes: text::joined(builder.scopes, " "@),
        code_challenge_method: builder.code_challenge_method,
        custom_ca_cert: builder.custom_ca_cert,
        session_max_age_minutes: builder.session_max_age_minutes->0,
        token_max_age_seconds: builder.token_max_age_seconds,
        base_path: match builder.base_path {
            Some(base_path) => base_path,
            None => "/auth"@,
        },
        secure_cookies: builder.secure_cookies,
        lax_same_site: builder.lax_same_site,
    }
}

/// The value of a parameter, or the error that names it.
fn required<T>(value: Option<T>, name: &str) -> (result: Result<T, Error>)
    ensures
        match result {
            Ok(found) => value == Some(found),
            Err(error) => value is None && error@ == ErrorModel::MissingPatameter(name@),
        },
{
    match value {
        Some(value) => Ok(value),
        None => Err(Error::MissingPatameter(name.to_owned())),
    }
}

impl OAuthConfigurationBuilder {
    /// Builds the configuration, or names the first parameter that is missing. The
    /// cookie key, the client's identifier and secret, the redirect URI, the
    /// session's age, the authorization and token endpoints and the URI to go to
    /// after a logout must be set.
    pub fn build(self) -> (result: Result<OAuthConfiguration, Error>)
        ensures
            effects::result_model(result) == (match missing_parameter(self@) {
                Some(name) => Err(ErrorModel::MissingPatameter(name)),
                None => Ok(built(self@)),
            }),
    {
        let private_cookie_key = match required(self.private_cookie_key, "private_cookie_key") {
            Ok(value) => value,
            Err(error) => return Err(error),
        };
        let client_id = match required(self.client_id, "client_id") {
            Ok(value) => value,
            Err(error) => return Err(error),
        };
        let client_secret = match required(self.client_secret, "client_secret") {
            Ok(value) => value,
            Err(error) => return Err(error),
        };
        let redirect_uri = match required(self.redirect_uri, "redirect_uri") {
            Ok(value) => value,
            Err(error) => return Err(error),
        };
        let session_max_age_minutes: i64 = match required(
            self.session_max_age_minutes,
            "session_max_age",
        ) {
            Ok(value) => value,
            Err(error) => return Err(error),
        };
        let authorization_endpoint = match required(
            self.authorization_endpoint,
            "authorization_endpoint",
        ) {
            Ok(value) => value,
            Err(error) => return Err(error),
        };
        let token_endpoint = match required(self.token_endpoint, "token_endpoint") {
            Ok(value) => value,
            Err(error) => return Err(error),
        };
        let post_logout_redirect_uri = match required(
            self.post_logout_redirect_uri,
            "post_logout_redirect_uri",
        ) {
            Ok(value) => value,
            Err(error) => return Err(error),
        };
        Ok(
            OAuthConfiguration {
                private_cookie_key,
                client_id,
                client_secret,
                audience: self.audience,
                redirect_uri,
                token_request_redirect_uri: self.token_request_redirect_uri,
                authorization_endpoint,
                token_endpoint,
                end_session_endpoint: self.end_session_endpoint,
                post_logout_redirect_uri,
                scopes: self.scopes.to_string(),
                code_challenge_method: self.code_challenge_method,
                custom_ca_cert: self.custom_ca_cert,
                session_max_age_minutes,
                token_max_age_seconds: self.token_max_age_seconds,
                base_path: match self.base_path {
                    Some(base_path) => base_path,
                    None => "/auth".to_owned(),
                },
                secure_cookies: self.secure_cookies,
                lax_same_site: self.lax_same_site,
            },
        )
    }
}

/// Sixty-four bytes: the first of those given, and zeros where there are fewer.
pub open spec fn padded(bytes: Seq<u8>) -> Seq<u8> {
    Seq::new(
        64,
        |i: int|
            if i < bytes.len() {
                bytes[i]
            } else {
                0
            },
    )
}

/// The cookie key that a text gives.
pub open spec fn key_of_text(text: Seq<char>) -> Key {
    outside::cookie_key(padded(vstd::utf8::encode_utf8(text)))
}

impl OAuthConfigurationBuilder {
    /// Sets the key that session cookies are encrypted under: the first sixty-four
    /// bytes of a text, padded with zeros.
    pub fn with_private_cookie_key(self, private_cookie_key: &str) -> (builder: Self)
        ensures
            builder@ == (BuilderModel {
                private_cookie_key: Some(key_of_text(private_cookie_key@)),
                ..self@
            }),
    {
        let mut key_bytes: [u8; 64] = [0u8; 64];
        let input_bytes = private_cookie_key.as_bytes();
        let mut i: usize = 0;
        while i < 64 && i < input_bytes.len()
            invariant
                i <= 64,
                i <= input_bytes@.len(),
                forall|j: int| 0 <= j < i ==> key_bytes@[j] == input_bytes@[j],
                forall|j: int| i <= j < 64 ==> key_bytes@[j] == 0,
            decreases 64 - i,
        {
            key_bytes[i] = input_bytes[i];
            i = i + 1;
        }
        assert(key_bytes@ =~= padded(input_bytes@));
        OAuthConfigurationBuilder {
            private_cookie_key: Some(key_from_bytes(&key_bytes)),
            ..self
        }
    }

    /// Sets whether the session cookie is sent over HTTPS only.
    pub fn with_secure_cookies(self, secure_cookies: bool) -> (builder: Self)
        ensures
            builder@ == (BuilderModel { secure_cookies, ..self@ }),
    {
        OAuthConfigurationBuilder { secure_cookies, ..self }
    }

    /// Sets whether the session cookie's `SameSite` policy is `Lax`.
    pub fn with_lax_same_site(self, lax_same_site: bool) -> (builder: Self)
        ensures
            builder@ == (BuilderModel { lax_same_site, ..self@ }),
    {
        OAuthConfigurationBuilder { lax_same_site, ..self }
    }

    /// Sets the identifier of this client at the provider.
    pub fn with_client_id(self, client_id: &str) -> (builder: Self)
        ensures
            builder@ == (BuilderModel { client_id: Some(client_id@), ..self@ }),
    {
        OAuthConfigurationBuilder { client_id: Some(client_id.to_owned()), ..self }
    }

    /// Sets the secret of this client at the provider.
    pub fn with_client_secret(self, client_secret: &str) -> (builder: Self)
        ensures
            builder@ == (BuilderModel { client_secret: Some(client_secret@), ..self@ }),
    {
        OAuthConfigurationBuilder { client_secret: Some(client_secret.to_owned()), ..self }
    }

    /// Sets the audience to request.
    pub fn with_audience(self, audience: &str) -> (builder: Self)
        ensures
            builder@ == (BuilderModel { audience: Some(audience@), ..self@ }),
    {
        OAuthConfigurationBuilder { audience: Some(audience.to_owned()), ..self }
    }

    /// Sets where the provider sends the user back to.
    pub fn with_redirect_uri(self, redirect_uri: &str) -> (builder: Self)
        ensures
            builder@ == (BuilderModel { redirect_uri: Some(redirect_uri@), ..self@ }),
    {
        OAuthConfigurationBuilder { redirect_uri: Some(redirect_uri.to_owned()), ..self }
    }

    /// Sets whether the token request repeats the redirect URI.
    pub fn with_token_request_redirect_uri(self, repeated: bool) -> (builder: Self)
        ensures
            builder@ == (BuilderModel { token_request_redirect_uri: repeated, ..self@ }),
    {
        OAuthConfigurationBuilder { token_request_redirect_uri: repeated, ..self }
    }

    /// Sets the provider's authorization endpoint.
    pub fn with_authorization_endpoint(self, authorization_endpoint: &str) -> (builder: Self)
        ensures
            builder@ == (BuilderModel {
                authorization_endpoint: Some(authorization_endpoint@),
                ..self@
            }),
    {
        OAuthConfigurationBuilder {
            authorization_endpoint: Some(authorization_endpoint.to_owned()),
            ..self
        }
    }

    /// Sets the provider's token endpoint.
    pub fn with_token_endpoint(self, token_endpoint: &str) -> (builder: Self)
        ensures
            builder@ == (BuilderModel { token_endpoint: Some(token_endpoint@), ..self@ }),
    {
        OAuthConfigurationBuilder { token_endpoint: Some(token_endpoint.to_owned()), ..self }
    }

    /// Sets the provider's logout endpoint.
    pub fn with_end_session_endpoint(self, end_session_endpoint: &str) -> (builder: Self)
        ensures
            builder@ == (BuilderModel {
                end_session_endpoint: Some(end_session_endpoint@),
                ..self@
            }),
    {
        OAuthConfigurationBuilder {
            end_session_endpoint: Some(end_session_endpoint.to_owned()),
            ..self
        }
    }

    /// Sets where the user goes after a logout.
    pub fn with_post_logout_redirect_uri(self, post_logout_redirect_uri: &str) -> (builder: Self)
        ensures
            builder@ == (BuilderModel {
                post_logout_redirect_uri: Some(post_logout_redirect_uri@),
                ..self@
            }),
    {
        OAuthConfigurationBuilder {
            post_logout_redirect_uri: Some(post_logout_redirect_uri.to_owned()),
            ..self
        }
    }

    /// Sets the PKCE method. Discovery then leaves it alone.
    pub fn with_code_challenge_method(
        self,
        code_challenge_method: CodeChallengeMethod,
    ) -> (builder: Self)
        ensures
            builder@ == (BuilderModel {
                code_challenge_method,
                code_challenge_method_explicit: true,
                ..self@
            }),
    {
        OAuthConfigurationBuilder {
            code_challenge_method,
            code_challenge_method_explicit: true,
            ..self
        }
    }

    /// Sets the scopes to request. Discovery then leaves them alone.
    pub fn with_scopes(self, scopes: Vec<&str>) -> (builder: Self)
        ensures
            builder@ == (BuilderModel {
                scopes: scopes@.map_values(|scope: &str| scope@),
                scopes_explicit: true,
                ..self@
            }),
    {
        let mut list: Vec<String> = Vec::new();
        for i in 0..scopes.len()
            invariant
                list@.len() == i,
                forall|j: int| 0 <= j < i ==> (#[trigger] list@[j])@ == scopes@[j]@,
        {
            list.push(scopes[i].to_owned());
        }
        assert(text::texts(list@) =~= scopes@.map_values(|scope: &str| scope@));
        OAuthConfigurationBuilder { scopes: Scopes(list), scopes_explicit: true, ..self }
    }

    /// Sets the path of a certificate to trust.
    pub fn with_custom_ca_cert(self, ca_cert: &str) -> (builder: Self)
        ensures
            builder@ == (BuilderModel { custom_ca_cert: Some(ca_cert@), ..self@ }),
    {
        OAuthConfigurationBuilder { custom_ca_cert: Some(ca_cert.to_owned()), ..self }
    }

    /// Sets how long a session lives without a request, in minutes.
    pub fn with_session_max_age(self, minutes: i64) -> (builder: Self)
        ensures
            builder@ == (BuilderModel { session_max_age_minutes: Some(minutes), ..self@ }),
    {
        OAuthConfigurationBuilder { session_max_age_minutes: Some(minutes), ..self }
    }

    /// Sets how long a token may be used, in seconds.
    pub fn with_token_max_age(self, seconds: i64) -> (builder: Self)
        ensures
            builder@ == (BuilderModel { token_max_age_seconds: Some(seconds), ..self@ }),
    {
        OAuthConfigurationBuilder { token_max_age_seconds: Some(seconds), ..self }
    }

    /// Sets the path under which the routes of the flow lie, without the slashes at
    /// its end.
    pub fn with_base_path(self, base_path: &str) -> (builder: Self)
        ensures
            builder@ == (BuilderModel {
                base_path: Some(text::without_trailing_slashes(base_path@)),
                ..self@
            }),
    {
        OAuthConfigurationBuilder { base_path: Some(trim_trailing_slashes(base_path)), ..self }
    }
}

impl Clone for OAuthConfigurationBuilder {
    fn clone(&self) -> (copy: Self)
        ensures
            copy@ == self@,
    {
        OAuthConfigurationBuilder {
            private_cookie_key: match &self.private_cookie_key {
                Some(key) => Some(key.clone()),
                None => None,
            },
            client_id: copy_optional(&self.client_id),
            client_secret: copy_optional(&self.client_secret),
            audience: copy_optional(&self.audience),
            redirect_uri: copy_optional(&self.redirect_uri),
            token_request_redirect_uri: self.token_request_redirect_uri,
            authorization_endpoint: copy_optional(&self.authorization_endpoint),
            token_endpoint: copy_optional(&self.token_endpoint),
            end_session_endpoint: copy_optional(&self.end_session_endpoint),
            post_logout_redirect_uri: copy_optional(&self.post_logout_redirect_uri),
            scopes: self.scopes.clone(),
            code_challenge_method: self.code_challenge_method,
            custom_ca_cert: copy_optional(&self.custom_ca_cert),
            session_max_age_minutes: self.session_max_age_minutes,
            token_max_age_seconds: self.token_max_age_seconds,
            base_path: copy_optional(&self.base_path),
            secure_cookies: self.secure_cookies,
            lax_same_site: self.lax_same_site,
            code_challenge_method_explicit: self.code_challenge_method_explicit,
            scopes_explicit: self.scopes_explicit,
        }
    }
}

/// Every parameter that must be set is set.
pub open spec fn is_complete(builder: BuilderModel) -> bool {
    &&& builder.private_cookie_key is Some
    &&& builder.client_id is Some
    &&& builder.client_secret is Some
    &&& builder.redirect_uri is Some
    &&& builder.session_max_age_minutes is Some
    &&& builder.authorization_endpoint is Some
    &&& builder.token_endpoint is Some
    &&& builder.post_logout_redirect_uri is Some
}

/// A configuration is built exactly where the eight parameters are set.
pub proof fn complete_builders_build(builder: BuilderModel)
    ensures
        missing_parameter(builder) is None <==> is_complete(builder),
{
}

/// A text gives the same cookie key as any other whose first sixty-four bytes,
/// padded with zeros, are the same.
pub proof fn key_depends_on_padded_bytes(a: Seq<char>, b: Seq<char>)
    requires
        forall|i: int|
            0 <= i < 64 ==> #[trigger] padded(vstd::utf8::encode_utf8(a))[i] == padded(
                vstd::utf8::encode_utf8(b),
            )[i],
    ensures
        key_of_text(a) == key_of_text(b),
{
    assert(padded(vstd::utf8::encode_utf8(a)) =~= padded(vstd::utf8::encode_utf8(b)));
}

/// The base path of a configuration, set or not, does not end in a slash.
pub proof fn base_path_ends_in_no_slash(builder: BuilderModel, base_path: Seq<char>)
    requires
        builder.base_path is None || builder.base_path == Some(
            text::without_trailing_slashes(base_path),
        ),
    ensures
        built(builder).base_path.len() == 0 || built(builder).base_path.last() != '/',
{
    text::trimming_is_final(base_path);
    reveal_strlit("/auth");
}

} // verus!
