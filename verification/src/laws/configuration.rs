//! Laws of the configuration and its builder.

use vstd::prelude::*;

use crate::builder;
use crate::builder::BuilderModel;
use crate::config;
use crate::config::CodeChallengeMethod;
use crate::outside;
use crate::text;

verus! {

/// In a new builder nothing is set, and the defaults are the careful ones: three
/// scopes, hashed challenges, cookies for HTTPS only and under the strict policy.
pub proof fn new_builder_is_empty_and_careful()
    ensures
        ({
            let builder = builder::empty_builder();
            &&& builder.private_cookie_key is None
            &&& builder.client_id is None
            &&& builder.client_secret is None
            &&& builder.audience is None
            &&& builder.redirect_uri is None
            &&& builder.token_request_redirect_uri
            &&& builder.authorization_endpoint is None
            &&& builder.token_endpoint is None
            &&& builder.end_session_endpoint is None
            &&& builder.post_logout_redirect_uri is None
            &&& builder.scopes.len() == 3
            &&& builder.scopes[0] == "openid"@
            &&& builder.scopes[1] == "email"@
            &&& builder.scopes[2] == "profile"@
            &&& builder.code_challenge_method == CodeChallengeMethod::S256
            &&& builder.custom_ca_cert is None
            &&& builder.session_max_age_minutes is None
            &&& builder.token_max_age_seconds is None
            &&& builder.base_path is None
            &&& builder.secure_cookies
            &&& !builder.lax_same_site
            &&& !builder.code_challenge_method_explicit
            &&& !builder.scopes_explicit
        }),
{
}

/// Of the parameters that must be set, the first that is not is named; where all
/// are set, whatever else is or is not, nothing is missing.
pub proof fn first_missing_parameter_is_named(builder: BuilderModel)
    ensures
        ({
            let missing = builder::missing_parameter(builder);
            &&& builder.private_cookie_key is None ==> missing == Some("private_cookie_key"@)
            &&& builder.private_cookie_key is Some ==> {
                &&& builder.client_id is None ==> missing == Some("client_id"@)
                &&& builder.client_id is Some ==> {
                    &&& builder.client_secret is None ==> missing == Some("client_secret"@)
                    &&& builder.client_secret is Some ==> {
                        &&& builder.redirect_uri is None ==> missing == Some("redirect_uri"@)
                        &&& builder.redirect_uri is Some ==> {
                            &&& builder.session_max_age_minutes is None ==> missing == Some(
                                "session_max_age"@,
                            )
                            &&& builder.session_max_age_minutes is Some ==> {
                                &&& builder.authorization_endpoint is None ==> missing == Some(
                                    "authorization_endpoint"@,
                                )
                                &&& builder.authorization_endpoint is Some ==> {
                                    &&& builder.token_endpoint is None ==> missing == Some(
                                        "token_endpoint"@,
                                    )
                                    &&& builder.token_endpoint is Some
                                        && builder.post_logout_redirect_uri is None ==> missing
                                        == Some("post_logout_redirect_uri"@)
                                    &&& builder.token_endpoint is Some
                                        && builder.post_logout_redirect_uri is Some ==> missing
                                        is None
                                }
                            }
                        }
                    }
                }
            }
        }),
{
}

/// A configuration holds everything that was set in its builder, unchanged; the
/// scopes stand in it one after the other, parted by spaces, and the routes lie
/// under `/auth` where no other path was set.
pub proof fn configuration_holds_what_was_set(builder: BuilderModel)
    ensures
        ({
            let config = builder::built(builder);
            &&& builder.private_cookie_key matches Some(key) ==> config.private_cookie_key == key
            &&& builder.client_id matches Some(id) ==> config.client_id == id
            &&& builder.client_secret matches Some(secret) ==> config.client_secret == secret
            &&& config.audience == builder.audience
            &&& builder.redirect_uri matches Some(uri) ==> config.redirect_uri == uri
            &&& config.token_request_redirect_uri == builder.token_request_redirect_uri
            &&& builder.authorization_endpoint matches Some(endpoint)
                ==> config.authorization_endpoint == endpoint
            &&& builder.token_endpoint matches Some(endpoint) ==> config.token_endpoint == endpoint
            &&& config.end_session_endpoint == builder.end_session_endpoint
            &&& builder.post_logout_redirect_uri matches Some(uri)
                ==> config.post_logout_redirect_uri == uri
            &&& config.scopes == text::joined(builder.scopes, seq![' '])
            &&& config.code_challenge_method == builder.code_challenge_method
            &&& config.custom_ca_cert == builder.custom_ca_cert
            &&& builder.session_max_age_minutes matches Some(minutes)
                ==> config.session_max_age_minutes == minutes
            &&& config.token_max_age_seconds == builder.token_max_age_seconds
            &&& builder.base_path matches Some(path) ==> config.base_path == path
            &&& builder.base_path is None ==> config.base_path == "/auth"@
            &&& config.secure_cookies == builder.secure_cookies
            &&& config.lax_same_site == builder.lax_same_site
        }),
{
    reveal_strlit(" ");
    assert(" "@ =~= seq![' ']);
}

/// The cookie key is made of sixty-four bytes: those of the text as far as they
/// go, and zeros behind them.
pub proof fn cookie_key_is_the_padded_text(text: Seq<char>, bytes: Seq<u8>)
    requires
        bytes.len() == 64,
        forall|i: int|
            0 <= i < 64 && i < vstd::utf8::encode_utf8(text).len() ==> #[trigger] bytes[i]
                == vstd::utf8::encode_utf8(text)[i],
        forall|i: int|
            vstd::utf8::encode_utf8(text).len() <= i < 64 ==> #[trigger] bytes[i] == 0,
    ensures
        builder::key_of_text(text) == outside::cookie_key(bytes),
{
    assert(builder::padded(vstd::utf8::encode_utf8(text)) =~= bytes);
}

/// Each PKCE method goes by its name in requests, and is the same method for the
/// crate that computes the challenge.
pub proof fn methods_have_their_names()
    ensures
        CodeChallengeMethod::S256.name() == "S256"@,
        CodeChallengeMethod::Plain.name() == "plain"@,
        config::pkce_method(CodeChallengeMethod::S256) == pkce_std::Method::Sha256,
        config::pkce_method(CodeChallengeMethod::Plain) == pkce_std::Method::Plain,
{
}

} // verus!
