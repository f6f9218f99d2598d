//! Laws of the requests to the token endpoint.

use vstd::prelude::*;

use crate::config::ConfigModel;
use crate::effects::TokenRequestModel;
use crate::error::ErrorModel;
use crate::token_request;

verus! {

/// The form holds the value under the name, and holds the name only once.
pub open spec fn holds_once(
    form: Seq<(Seq<char>, Seq<char>)>,
    name: Seq<char>,
    value: Seq<char>,
) -> bool {
    exists|i: int|
        0 <= i < form.len() && #[trigger] form[i] == (name, value) && forall|j: int|
            0 <= j < form.len() && j != i ==> (#[trigger] form[j]).0 != name
}

/// The form exchanges the code under its verifier: whatever the configuration
/// says of anything else, it holds the grant, the code, the client and the
/// verifier once each, the redirect URI exactly where the configuration asks for
/// it, and nothing more.
pub open spec fn exchanges(
    form: Seq<(Seq<char>, Seq<char>)>,
    config: ConfigModel,
    code: Seq<char>,
    verifier: Seq<char>,
) -> bool {
    &&& holds_once(form, "grant_type"@, "authorization_code"@)
    &&& holds_once(form, "code"@, code)
    &&& holds_once(form, "client_id"@, config.client_id)
    &&& holds_once(form, "code_verifier"@, verifier)
    &&& if config.token_request_redirect_uri {
        &&& holds_once(form, "redirect_uri"@, config.redirect_uri)
        &&& form.len() == 5
    } else {
        form.len() == 4
    }
}

/// The form renews tokens: it holds the grant, the refresh token and the client
/// once each, and nothing more.
pub open spec fn renews(
    form: Seq<(Seq<char>, Seq<char>)>,
    config: ConfigModel,
    refresh_token: Seq<char>,
) -> bool {
    &&& holds_once(form, "grant_type"@, "refresh_token"@)
    &&& holds_once(form, "refresh_token"@, refresh_token)
    &&& holds_once(form, "client_id"@, config.client_id)
    &&& form.len() == 3
}

/// The request goes to the token endpoint and authenticates the client: with its
/// secret, or without a password where the secret is empty.
pub open spec fn is_from_client(
    request: TokenRequestModel,
    config: ConfigModel,
    url: Seq<char>,
) -> bool {
    &&& request.url == url
    &&& request.user == config.client_id
    &&& config.client_secret.len() == 0 ==> request.password is None
    &&& config.client_secret.len() > 0 ==> request.password == Some(config.client_secret)
}

/// The form of every code exchange holds the code and its verifier, whatever the
/// PKCE method and the rest of the configuration are.
pub proof fn code_is_sent_with_its_verifier(
    config: ConfigModel,
    code: Seq<char>,
    verifier: Seq<char>,
)
    ensures
        exchanges(token_request::exchange_form(config, code, verifier), config, code, verifier),
{
    reveal_strlit("grant_type");
    reveal_strlit("code");
    reveal_strlit("client_id");
    reveal_strlit("code_verifier");
    reveal_strlit("redirect_uri");
    assert("grant_type"@.len() == 10 && "code"@.len() == 4 && "client_id"@.len() == 9
        && "code_verifier"@.len() == 13 && "redirect_uri"@.len() == 12);
    let form = token_request::exchange_form(config, code, verifier);
    assert(form[0] == ("grant_type"@, "authorization_code"@));
    assert(form[1] == ("code"@, code));
    assert(form[2] == ("client_id"@, config.client_id));
    assert(form[3] == ("code_verifier"@, verifier));
    if config.token_request_redirect_uri {
        assert(form[4] == ("redirect_uri"@, config.redirect_uri));
    }
}

/// What is sent for a code depends on the client, the redirect URI and whether it
/// is to be repeated, and on nothing else of the configuration.
pub proof fn exchange_depends_on_the_client_alone(
    config: ConfigModel,
    other: ConfigModel,
    code: Seq<char>,
    verifier: Seq<char>,
)
    requires
        other.client_id == config.client_id,
        other.redirect_uri == config.redirect_uri,
        other.token_request_redirect_uri == config.token_request_redirect_uri,
    ensures
        token_request::exchange_form(other, code, verifier) == token_request::exchange_form(
            config,
            code,
            verifier,
        ),
{
}

/// The form of every renewal holds the refresh token.
pub proof fn refresh_token_is_sent(config: ConfigModel, refresh_token: Seq<char>)
    ensures
        renews(token_request::refresh_form(config, refresh_token), config, refresh_token),
{
    reveal_strlit("grant_type");
    reveal_strlit("refresh_token");
    reveal_strlit("client_id");
    assert("grant_type"@.len() == 10 && "refresh_token"@.len() == 13 && "client_id"@.len() == 9);
    let form = token_request::refresh_form(config, refresh_token);
    assert(form[0] == ("grant_type"@, "refresh_token"@));
    assert(form[1] == ("refresh_token"@, refresh_token));
    assert(form[2] == ("client_id"@, config.client_id));
}

/// Where the token endpoint is a URL, the form is posted there as it is and under
/// the client's name; else the endpoint is named as no URL.
pub proof fn form_is_posted_by_the_client(
    config: ConfigModel,
    form: Seq<(Seq<char>, Seq<char>)>,
    url: Seq<char>,
)
    ensures
        token_request::token_request(config, form, Some(url)) matches Ok(request)
            && is_from_client(request, config, url) && request.form == form,
        token_request::token_request(config, form, None) == Err::<TokenRequestModel, ErrorModel>(
            ErrorModel::NotValidUri(config.token_endpoint),
        ),
{
}

} // verus!
