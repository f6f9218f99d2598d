//! Requests to the provider's token endpoint.

use vstd::prelude::*;

use crate::config::{ConfigModel, OAuthConfiguration};
use crate::effects;
use crate::effects::{TokenRequest, TokenRequestModel};
use crate::error::{Error, ErrorModel};
use crate::text;

verus! {

/// The form that exchanges an authorization code for tokens.
pub open spec fn exchange_form(
    config: ConfigModel,
    code: Seq<char>,
    verifier: Seq<char>,
) -> Seq<(Seq<char>, Seq<char>)> {
    let form = seq![
        ("grant_type"@, "authorization_code"@),
        ("code"@, code),
        ("client_id"@, config.client_id),
        ("code_verifier"@, verifier),
    ];
    if config.token_request_redirect_uri {
        form.push(("redirect_uri"@, config.redirect_uri))
    } else {
        form
    }
}

/// The form that renews tokens.
pub open spec fn refresh_form(config: ConfigModel, refresh_token: Seq<char>) -> Seq<
    (Seq<char>, Seq<char>),
> {
    seq![
        ("grant_type"@, "refresh_token"@),
        ("refresh_token"@, refresh_token),
        ("client_id"@, config.client_id),
    ]
}

/// The request that posts a form to the token endpoint. The client authenticates
/// with its identifier and its secret, or with the identifier alone where the
/// secret is empty. Where the endpoint is no URL there is no request.
pub open spec fn token_request(
    config: ConfigModel,
    form: Seq<(Seq<char>, Seq<char>)>,
    url: Option<Seq<char>>,
) -> Result<TokenRequestModel, ErrorModel> {
    match url {
        Some(url) => Ok(
            TokenRequestModel {
                url,
                form,
                user: config.client_id,
                password: if config.client_secret.len() == 0 {
                    None
                } else {
                    Some(config.client_secret)
                },
            },
        ),
        None => Err(ErrorModel::NotValidUri(config.token_endpoint)),
    }
}

/// Builds the form that exchanges an authorization code for tokens.
pub fn build_exchange_form(config: &OAuthConfiguration, code: String, verifier: String) -> (form:
    Vec<(String, String)>)
    ensures
        effects::pairs_model(form@) == exchange_form(config@, code@, verifier@),
{
    let mut form: Vec<(String, String)> = Vec::new();
    form.push(("grant_type".to_owned(), "authorization_code".to_owned()));
    form.push(("code".to_owned(), code));
    form.push(("client_id".to_owned(), config.client_id.clone()));
    form.push(("code_verifier".to_owned(), verifier));
    if config.token_request_redirect_uri {
        form.push(("redirect_uri".to_owned(), config.redirect_uri.clone()));
    }
    form
}

/// Builds the form that renews tokens.
pub fn build_refresh_form(config: &OAuthConfiguration, refresh_token: String) -> (form: Vec<
    (String, String),
>)
    ensures
        effects::pairs_model(form@) == refresh_form(config@, refresh_token@),
{
    let mut form: Vec<(String, String)> = Vec::new();
    form.push(("grant_type".to_owned(), "refresh_token".to_owned()));
    form.push(("refresh_token".to_owned(), refresh_token));
    form.push(("client_id".to_owned(), config.client_id.clone()));
    form
}

/// Builds the request that posts a form to the token endpoint, whose parsed URL
/// is given.
pub fn build_token_request(
    config: &OAuthConfiguration,
    form: Vec<(String, String)>,
    url: Option<String>,
) -> (request: Result<TokenRequest, Error>)
    ensures
        effects::result_model(request) == token_request(
            config@,
            effects::pairs_model(form@),
            text::optional_text(url),
        ),
{
    match url {
        Some(url) => {
            let password = if config.client_secret.as_str().unicode_len() == 0 {
                None
            } else {
                Some(config.client_secret.clone())
            };
            Ok(TokenRequest { url, form, user: config.client_id.clone(), password })
        },
        None => Err(Error::NotValidUri(config.token_endpoint.clone())),
    }
}

/// A public client, one without a secret, sends no password; any other sends its
/// secret.
pub proof fn password_is_the_secret(
    config: ConfigModel,
    form: Seq<(Seq<char>, Seq<char>)>,
    url: Option<Seq<char>>,
)
    ensures
        token_request(config, form, url) matches Ok(request) ==> {
            &&& request.password is None <==> config.client_secret.len() == 0
            &&& request.password matches Some(password) ==> password == config.client_secret
            &&& request.user == config.client_id
            &&& request.form == form
        },
{
}

/// The redirect URI is in the form that exchanges a code exactly where the
/// configuration asks for it.
pub proof fn redirect_uri_is_sent_where_asked(
    config: ConfigModel,
    code: Seq<char>,
    verifier: Seq<char>,
)
    ensures
        (exists|i: int|
            0 <= i < exchange_form(config, code, verifier).len() && #[trigger] exchange_form(
                config,
                code,
                verifier,
            )[i].0 == "redirect_uri"@) <==> config.token_request_redirect_uri,
{
    reveal_strlit("redirect_uri");
    reveal_strlit("grant_type");
    reveal_strlit("code");
    reveal_strlit("client_id");
    reveal_strlit("code_verifier");
    let form = exchange_form(config, code, verifier);
    if config.token_request_redirect_uri {
        assert(form[4].0 == "redirect_uri"@);
    } else {
        assert("grant_type"@.len() != "redirect_uri"@.len());
        assert("code"@.len() != "redirect_uri"@.len());
        assert("client_id"@.len() != "redirect_uri"@.len());
        assert("code_verifier"@.len() != "redirect_uri"@.len());
    }
}

} // verus!
