//! Laws of the logout.

use vstd::prelude::*;

use crate::config::ConfigModel;
use crate::effects::{EffectModel, OutcomeModel, StepModel};
use crate::error::ErrorModel;
use crate::jar::JarModel;
use crate::laws::cookies;
use crate::laws::encoding;
use crate::logout::handle_default_logout;
use crate::logout::handle_default_logout::DefaultLogoutModel;
use crate::logout::handle_oidc_logout;
use crate::logout::handle_oidc_logout::OidcLogoutModel;
use crate::outside;
use crate::reply::{BodyModel, ReplyModel};
use crate::session::SessionModel;

verus! {

/// The page sends the browser to the URI that is configured for after a logout.
pub open spec fn is_farewell(body: BodyModel, config: ConfigModel) -> bool {
    body == BodyModel::Html(
        "\n        <head>\n          <meta http-equiv=\"Refresh\" content=\"0; URL="@
            + config.post_logout_redirect_uri + "\" />\n        </head>"@,
    )
}

/// The text that a percent-encoded text stands for.
pub open spec fn read_back(encoded: Seq<char>) -> Seq<char> {
    vstd::utf8::decode_utf8(encoding::percent_decoded(encoded))
}

/// The text can stand for a value in a query: it holds nothing by which a query is
/// parted.
pub open spec fn is_query_value(encoded: Seq<char>) -> bool {
    forall|i: int|
        0 <= i < encoded.len() ==> (#[trigger] encoded[i]) != '&' && encoded[i] != '='
            && encoded[i] != '#' && encoded[i] != '+' && encoded[i] != '?'
}

/// The provider's logout URL is the endpoint with two values behind it, the hint
/// and the URI to come back to, which are read back as the ID token and the URI
/// that were given.
pub open spec fn carries(
    url: Seq<char>,
    endpoint: Seq<char>,
    hint: Seq<char>,
    uri: Seq<char>,
    id_token: Seq<char>,
    post_logout_redirect_uri: Seq<char>,
) -> bool {
    &&& url == endpoint + "?id_token_hint="@ + hint + "&post_logout_redirect_uri="@ + uri
    &&& is_query_value(hint)
    &&& is_query_value(uri)
    &&& read_back(hint) == id_token
    &&& read_back(uri) == post_logout_redirect_uri
}

/// A percent-encoded text can stand for a value in a query.
proof fn encoded_text_is_a_query_value(bytes: Seq<u8>)
    ensures
        is_query_value(outside::percent_encoded(bytes)),
    decreases bytes.len(),
{
    if bytes.len() > 0 {
        encoded_text_is_a_query_value(bytes.drop_last());
        let before = outside::percent_encoded(bytes.drop_last());
        let encoded = outside::percent_encoded(bytes);
        assert forall|i: int| 0 <= i < encoded.len() implies (#[trigger] encoded[i]) != '&'
            && encoded[i] != '=' && encoded[i] != '#' && encoded[i] != '+' && encoded[i]
            != '?' by {
            if i < before.len() {
                assert(encoded[i] == before[i]);
            }
        }
    }
}

/// For every endpoint, ID token and URI to come back to, the provider's logout URL
/// carries the ID token and that URI.
pub proof fn provider_learns_the_token_and_the_way_back(
    endpoint: Seq<char>,
    id_token: Seq<char>,
    post_logout_redirect_uri: Seq<char>,
)
    ensures
        exists|hint: Seq<char>, uri: Seq<char>| #[trigger]
            carries(
                handle_oidc_logout::provider_logout_url(
                    endpoint,
                    id_token,
                    post_logout_redirect_uri,
                ),
                endpoint,
                hint,
                uri,
                id_token,
                post_logout_redirect_uri,
            ),
{
    let hint = outside::percent_encoded(vstd::utf8::encode_utf8(id_token));
    let uri = outside::percent_encoded(vstd::utf8::encode_utf8(post_logout_redirect_uri));
    encoding::encoded_text_is_read_back(id_token);
    encoding::encoded_text_is_read_back(post_logout_redirect_uri);
    encoded_text_is_a_query_value(vstd::utf8::encode_utf8(id_token));
    encoded_text_is_a_query_value(vstd::utf8::encode_utf8(post_logout_redirect_uri));
    assert(carries(
        handle_oidc_logout::provider_logout_url(endpoint, id_token, post_logout_redirect_uri),
        endpoint,
        hint,
        uri,
        id_token,
        post_logout_redirect_uri,
    ));
}

/// A URL carries one ID token and one URI: no other pair is read out of it.
pub proof fn logout_url_is_read_one_way(
    url: Seq<char>,
    endpoint: Seq<char>,
    hint: Seq<char>,
    uri: Seq<char>,
    id_token: Seq<char>,
    back: Seq<char>,
    other_hint: Seq<char>,
    other_uri: Seq<char>,
    other_id_token: Seq<char>,
    other_back: Seq<char>,
)
    requires
        carries(url, endpoint, hint, uri, id_token, back),
        carries(url, endpoint, other_hint, other_uri, other_id_token, other_back),
    ensures
        id_token == other_id_token,
        back == other_back,
{
    reveal_strlit("?id_token_hint=");
    reveal_strlit("&post_logout_redirect_uri=");
    let start: int = endpoint.len() + "?id_token_hint="@.len() as int;
    let middle = "&post_logout_redirect_uri="@;
    assert(middle[0] == '&');
    assert(url[start + hint.len()] == '&');
    assert(url[start + other_hint.len()] == '&');
    if hint.len() < other_hint.len() {
        assert(url[start + hint.len()] == other_hint[hint.len() as int]);
    }
    if other_hint.len() < hint.len() {
        assert(url[start + other_hint.len()] == hint[other_hint.len() as int]);
    }
    assert(hint =~= url.subrange(start, start + hint.len()));
    assert(other_hint =~= url.subrange(start, start + hint.len()));
    let end: int = start + hint.len() + middle.len();
    assert(uri =~= url.skip(end));
    assert(other_uri =~= url.skip(end));
}

/// Two logouts at one provider that differ in the ID token or in the URI to come
/// back to lead to different URLs.
pub proof fn different_logouts_have_different_urls(
    endpoint: Seq<char>,
    id_token: Seq<char>,
    back: Seq<char>,
    other_id_token: Seq<char>,
    other_back: Seq<char>,
)
    requires
        id_token != other_id_token || back != other_back,
    ensures
        handle_oidc_logout::provider_logout_url(endpoint, id_token, back)
            != handle_oidc_logout::provider_logout_url(endpoint, other_id_token, other_back),
{
    provider_learns_the_token_and_the_way_back(endpoint, id_token, back);
    provider_learns_the_token_and_the_way_back(endpoint, other_id_token, other_back);
    let url = handle_oidc_logout::provider_logout_url(endpoint, id_token, back);
    let other = handle_oidc_logout::provider_logout_url(endpoint, other_id_token, other_back);
    let (h, u) = choose|hint: Seq<char>, uri: Seq<char>| #[trigger]
        carries(url, endpoint, hint, uri, id_token, back);
    let (oh, ou) = choose|hint: Seq<char>, uri: Seq<char>| #[trigger]
        carries(other, endpoint, hint, uri, other_id_token, other_back);
    if url == other {
        logout_url_is_read_one_way(
            url,
            endpoint,
            h,
            u,
            id_token,
            back,
            oh,
            ou,
            other_id_token,
            other_back,
        );
    }
}

/// The response sends the browser to the provider, with the ID token and the URI
/// to come back to.
pub open spec fn sends_to_provider(
    body: BodyModel,
    endpoint: Seq<char>,
    id_token: Seq<char>,
    back: Seq<char>,
) -> bool {
    &&& body is TemporaryRedirect
    &&& exists|hint: Seq<char>, uri: Seq<char>| #[trigger]
        carries(body->TemporaryRedirect_0, endpoint, hint, uri, id_token, back)
}

/// A logout goes this way, for every configuration: the session that the request
/// names, if any, is dropped from the cache; then the response ends its cookie and
/// sends the browser to the configured URI. Where the cache fails, its error is
/// the answer.
pub proof fn logout_goes_this_way(
    config: ConfigModel,
    jar: JarModel,
    id: Seq<char>,
    error: ErrorModel,
)
    ensures
        jar.value("AUTH_SESSION"@) is None ==> ({
            &&& handle_default_logout::default_logout_begin(config, jar)
                matches StepModel::Finish(Ok(reply))
            &&& cookies::drops_session_cookie(jar, reply.jar, config)
            &&& is_farewell(reply.body, config)
        }),
        jar.value("AUTH_SESSION"@) == Some(id) ==> ({
            &&& handle_default_logout::default_logout_begin(config, jar)
                matches StepModel::Perform(drop, dropping)
            &&& drop == EffectModel::InvalidateAuthSession(id)
            &&& handle_default_logout::default_logout_step(
                config,
                dropping,
                OutcomeModel::Done(Err(error)),
            ) == StepModel::<DefaultLogoutModel, Result<ReplyModel, ErrorModel>>::Finish(
                Err(error),
            )
            &&& handle_default_logout::default_logout_step(
                config,
                dropping,
                OutcomeModel::Done(Ok(())),
            ) matches StepModel::Finish(Ok(reply))
            &&& cookies::drops_session_cookie(jar, reply.jar, config)
            &&& is_farewell(reply.body, config)
        }),
{
}

/// A logout at the provider goes this way, for every endpoint and configuration:
/// the session that the request names, if any, is looked up and, found or not,
/// dropped from the cache; then the response ends its cookie. Where the session
/// was found, the browser is sent to the provider with the session's ID token and
/// the configured URI; in every other case it is sent to that URI. Where the cache
/// cannot drop the session, its error is the answer.
pub proof fn oidc_logout_goes_this_way(
    endpoint: Seq<char>,
    config: ConfigModel,
    jar: JarModel,
    id: Seq<char>,
    found: Result<Option<SessionModel>, ErrorModel>,
    error: ErrorModel,
)
    ensures
        jar.value("AUTH_SESSION"@) is None ==> ({
            &&& handle_oidc_logout::oidc_logout_begin(endpoint, config, jar)
                matches StepModel::Finish(Ok(reply))
            &&& cookies::drops_session_cookie(jar, reply.jar, config)
            &&& is_farewell(reply.body, config)
        }),
        jar.value("AUTH_SESSION"@) == Some(id) ==> ({
            &&& handle_oidc_logout::oidc_logout_begin(endpoint, config, jar)
                matches StepModel::Perform(lookup, looking)
            &&& lookup == EffectModel::GetAuthSession(id)
            &&& looking.accepts(OutcomeModel::Session(found))
            &&& handle_oidc_logout::oidc_logout_step(
                endpoint,
                config,
                looking,
                OutcomeModel::Session(found),
            ) matches StepModel::Perform(drop, dropping)
            &&& drop == EffectModel::InvalidateAuthSession(id)
            &&& dropping.accepts(OutcomeModel::Done(Ok(())))
            &&& dropping.accepts(OutcomeModel::Done(Err(error)))
            &&& handle_oidc_logout::oidc_logout_step(
                endpoint,
                config,
                dropping,
                OutcomeModel::Done(Err(error)),
            ) == StepModel::<OidcLogoutModel, Result<ReplyModel, ErrorModel>>::Finish(Err(error))
            &&& handle_oidc_logout::oidc_logout_step(
                endpoint,
                config,
                dropping,
                OutcomeModel::Done(Ok(())),
            ) matches StepModel::Finish(Ok(reply))
            &&& cookies::drops_session_cookie(jar, reply.jar, config)
            &&& match found {
                Ok(Some(session)) => sends_to_provider(
                    reply.body,
                    endpoint,
                    session.id_token,
                    config.post_logout_redirect_uri,
                ),
                _ => is_farewell(reply.body, config),
            }
        }),
{
    if found is Ok && found->Ok_0 is Some {
        let session = found->Ok_0->0;
        let back = config.post_logout_redirect_uri;
        provider_learns_the_token_and_the_way_back(endpoint, session.id_token, back);
        let url = handle_oidc_logout::provider_logout_url(endpoint, session.id_token, back);
        let body = BodyModel::TemporaryRedirect(url);
        let (hint, uri) = choose|hint: Seq<char>, uri: Seq<char>| #[trigger]
            carries(url, endpoint, hint, uri, session.id_token, back);
        assert(carries(
            body->TemporaryRedirect_0,
            endpoint,
            hint,
            uri,
            session.id_token,
            back,
        ));
        assert(sends_to_provider(body, endpoint, session.id_token, back));
    }
}

} // verus!
