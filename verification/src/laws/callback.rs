//! Laws of the callback.

use vstd::prelude::*;

use crate::clock::Timestamp;
use crate::config::ConfigModel;
use crate::effects::{EffectModel, OutcomeModel, StepModel};
use crate::error::ErrorModel;
use crate::jar;
use crate::jar::JarModel;
use crate::laws::clock;
use crate::laws::cookies;
use crate::laws::requests;
use crate::outside;
use crate::reply::{BodyModel, ReplyModel};
use crate::router::handle_callback;
use crate::router::handle_callback::{
    CallbackModel, CodeExchangeModel, ExchangedModel, TokenFlowModel,
};
use crate::session::AccessTokenModel;
use crate::text;

verus! {

/// The state holds the key and, behind a bar, the path, if there is one.
pub open spec fn is_state(state: Seq<char>, key: Seq<char>, path: Option<Seq<char>>) -> bool {
    &&& !key.contains('|')
    &&& path matches Some(path) ==> state == key.push('|') + path
    &&& path is None ==> state == key
}

/// The page sends the browser to the path, escaped, where the path starts with one
/// slash and not with two, and else to the root.
pub open spec fn sends_to(page: Seq<char>, path: Option<Seq<char>>) -> bool {
    let target = match path {
        Some(path) => if path.len() > 0 && path[0] == '/' && !(path.len() > 1 && path[1] == '/') {
            outside::html_escaped(path)
        } else {
            "/"@
        },
        None => "/"@,
    };
    page == "<head><meta http-equiv=\"Refresh\" content=\"0; URL="@ + target + "\" /></head>"@
}

/// A login goes this way, for every configuration, code, verifier and answer: the
/// verifier stored under the state's key is looked up and dropped, the code is
/// posted with it to the token endpoint, and the tokens of an answer of status 200
/// are stored as a session under the identifier of this login, to expire in time.
/// The response then sets the session cookie and sends the browser to the path
/// behind the state's bar.
pub proof fn login_goes_this_way(
    config: ConfigModel,
    jar: JarModel,
    id: Seq<char>,
    query: CodeExchangeModel,
    key: Seq<char>,
    path: Option<Seq<char>>,
    verifier: Seq<char>,
    url: Seq<char>,
    tokens: AccessTokenModel,
    times: (Timestamp, Timestamp, Timestamp, Timestamp, Timestamp),
)
    requires
        is_state(query.state, key, path),
        outside::parsed_url(config.token_endpoint) == Some(url),
        clock::is_shown(times.3),
        clock::is_short_enough(tokens.expires_in, config.token_max_age_seconds),
        i64::MIN <= 60 * config.session_max_age_minutes <= i64::MAX,
    ensures
        ({
            &&& handle_callback::callback_begin(jar, id, Some(Ok(query)))
                matches StepModel::Perform(lookup, looking)
            &&& lookup == EffectModel::GetCodeVerifier(key)
            &&& handle_callback::callback_step(
                config,
                times.0,
                looking,
                OutcomeModel::CodeVerifier(Ok(Some(verifier))),
            ) matches StepModel::Perform(drop, dropping)
            &&& drop == EffectModel::InvalidateCodeVerifier(key)
            &&& handle_callback::callback_step(
                config,
                times.1,
                dropping,
                OutcomeModel::Done(Ok(())),
            ) matches StepModel::Perform(EffectModel::PostForm(request), posting)
            &&& requests::is_from_client(request, config, url)
            &&& requests::exchanges(request.form, config, query.code, verifier)
            &&& handle_callback::callback_step(
                config,
                times.2,
                posting,
                OutcomeModel::Status(Ok(200)),
            ) matches StepModel::Perform(read, reading)
            &&& read == EffectModel::ReadAccessTokens
            &&& handle_callback::callback_step(
                config,
                times.3,
                reading,
                OutcomeModel::AccessTokens(Ok(tokens)),
            ) matches StepModel::Perform(EffectModel::SetAuthSession(stored, session), storing)
            &&& stored == id
            &&& session.id_token == tokens.id_token
            &&& session.access_token == tokens.access_token
            &&& session.token_type == tokens.token_type
            &&& session.refresh_token == tokens.refresh_token
            &&& session.scope == tokens.scope
            &&& clock::expires_in_time(
                times.3,
                session.expires,
                tokens.expires_in,
                config.token_max_age_seconds,
            )
            &&& handle_callback::callback_step(
                config,
                times.4,
                storing,
                OutcomeModel::Done(Ok(())),
            ) matches StepModel::Finish(Ok(reply))
            &&& cookies::sets_session_cookie(jar, reply.jar, config, id)
            &&& reply.body matches BodyModel::Html(page)
            &&& sends_to(page, path)
        }),
{
    text::joined_state_is_split(key, path->0);
    requests::code_is_sent_with_its_verifier(config, query.code, verifier);
}

/// An exchange that does not go well ends with what went wrong, whatever the
/// configuration: an unknown state is said to have no verifier, an endpoint that
/// is no URL is named once the verifier has been dropped, and an answer of another
/// status than 200 is handed on with its body.
pub proof fn failed_exchange_is_told(
    config: ConfigModel,
    query: CodeExchangeModel,
    verifier: Seq<char>,
    url: Seq<char>,
    status: u16,
    body: Seq<char>,
)
    requires
        status != 200,
    ensures
        ({
            &&& handle_callback::exchange_begin(Some(Ok(query))) matches StepModel::Perform(
                _,
                looking,
            )
            &&& handle_callback::exchange_step(
                config,
                looking,
                OutcomeModel::CodeVerifier(Ok(None)),
            ) == StepModel::<TokenFlowModel, Result<ExchangedModel, ErrorModel>>::Finish(
                Err(ErrorModel::MissingCodeVerifier),
            )
            &&& handle_callback::exchange_step(
                config,
                looking,
                OutcomeModel::CodeVerifier(Ok(Some(verifier))),
            ) matches StepModel::Perform(_, dropping)
            &&& outside::parsed_url(config.token_endpoint) is None
                ==> handle_callback::exchange_step(config, dropping, OutcomeModel::Done(Ok(())))
                == StepModel::<TokenFlowModel, Result<ExchangedModel, ErrorModel>>::Finish(
                Err(ErrorModel::NotValidUri(config.token_endpoint)),
            )
            &&& outside::parsed_url(config.token_endpoint) == Some(url) ==> ({
                &&& handle_callback::exchange_step(config, dropping, OutcomeModel::Done(Ok(())))
                    matches StepModel::Perform(_, posting)
                &&& handle_callback::exchange_step(
                    config,
                    posting,
                    OutcomeModel::Status(Ok(status)),
                ) matches StepModel::Perform(read, refused)
                &&& read == EffectModel::ReadText
                &&& handle_callback::exchange_step(
                    config,
                    refused,
                    OutcomeModel::Text(Ok(body)),
                ) == StepModel::<TokenFlowModel, Result<ExchangedModel, ErrorModel>>::Finish(
                    Err(ErrorModel::Status { code: status, body }),
                )
            })
        }),
{
}

/// The outcome is an error.
pub open spec fn is_error(outcome: OutcomeModel, error: ErrorModel) -> bool {
    ||| outcome == OutcomeModel::CodeVerifier(Err(error))
    ||| outcome == OutcomeModel::Session(Err(error))
    ||| outcome == OutcomeModel::Done(Err(error))
    ||| outcome == OutcomeModel::Status(Err(error))
    ||| outcome == OutcomeModel::AccessTokens(Err(error))
    ||| outcome == OutcomeModel::RefreshTokens(Err(error))
    ||| outcome == OutcomeModel::Text(Err(error))
}

/// An error of the cache or of the provider ends a callback, and is what the
/// callback ends with; nothing more is asked for and no cookie is set.
pub proof fn error_ends_the_callback(
    config: ConfigModel,
    now: Timestamp,
    flow: CallbackModel,
    outcome: OutcomeModel,
    error: ErrorModel,
)
    requires
        flow.accepts(config, outcome),
        is_error(outcome, error),
    ensures
        handle_callback::callback_step(config, now, flow, outcome) == StepModel::<
            CallbackModel,
            Result<ReplyModel, ErrorModel>,
        >::Finish(Err(error)),
{
}

/// A callback without a query lacks the code, and one whose query cannot be read
/// is told why; neither asks for anything.
pub proof fn query_is_needed(jar: JarModel, id: Seq<char>, why: Seq<char>)
    ensures
        handle_callback::callback_begin(jar, id, None) == StepModel::<
            CallbackModel,
            Result<ReplyModel, ErrorModel>,
        >::Finish(Err(ErrorModel::MissingPatameter("code"@))),
        handle_callback::callback_begin(jar, id, Some(Err(why))) == StepModel::<
            CallbackModel,
            Result<ReplyModel, ErrorModel>,
        >::Finish(Err(ErrorModel::InvalidCodeResponse(why))),
{
}

/// What the request does not carry is named, the configuration before the cache
/// and the cache before the client; a request that carries all three is handled.
pub proof fn what_is_not_carried_is_named(has_cache: bool, has_client: bool)
    ensures
        handle_callback::missing_extension(false, has_cache, has_client) == Some(
            ErrorModel::CacheAccessError("OAuthConfiguration not configured"@),
        ),
        handle_callback::missing_extension(true, false, has_client) == Some(
            ErrorModel::CacheAccessError("AuthCache not configured"@),
        ),
        handle_callback::missing_extension(true, true, false) == Some(
            ErrorModel::CacheAccessError("HTTP Client not configured"@),
        ),
        handle_callback::missing_extension(true, true, true) is None,
{
}

/// Whatever comes of an effect, the callback can take it: every verifier or none,
/// every status, every body and every error, and every answer whose tokens' life a
/// duration can hold.
pub proof fn callback_takes_what_comes(
    config: ConfigModel,
    jar: JarModel,
    id: Seq<char>,
    query: CodeExchangeModel,
    now: Timestamp,
    verifier: Seq<char>,
    url: Seq<char>,
    status: u16,
    tokens: AccessTokenModel,
    outcome: OutcomeModel,
)
    requires
        outside::parsed_url(config.token_endpoint) == Some(url),
        i64::MIN <= 60 * config.session_max_age_minutes <= i64::MAX,
        outcome matches OutcomeModel::AccessTokens(Ok(other)) ==> clock::is_short_enough(
            other.expires_in,
            config.token_max_age_seconds,
        ),
        vstd::utf8::encode_utf8(id).len() <= 68_719_476_736,
    ensures
        ({
            &&& handle_callback::callback_begin(jar, id, Some(Ok(query)))
                matches StepModel::Perform(_, looking)
            &&& looking.is_valid()
            &&& outcome is CodeVerifier ==> looking.accepts(config, outcome)
            &&& handle_callback::callback_step(
                config,
                now,
                looking,
                OutcomeModel::CodeVerifier(Ok(Some(verifier))),
            ) matches StepModel::Perform(_, dropping)
            &&& outcome is Done ==> dropping.accepts(config, outcome)
            &&& handle_callback::callback_step(config, now, dropping, OutcomeModel::Done(Ok(())))
                matches StepModel::Perform(_, posting)
            &&& outcome is Status ==> posting.accepts(config, outcome)
            &&& handle_callback::callback_step(
                config,
                now,
                posting,
                OutcomeModel::Status(Ok(status)),
            ) matches StepModel::Perform(_, reading)
            &&& status == 200 && outcome is AccessTokens ==> reading.accepts(config, outcome)
            &&& status != 200 && outcome is Text ==> reading.accepts(config, outcome)
            &&& status == 200 ==> ({
                &&& handle_callback::callback_step(
                    config,
                    now,
                    reading,
                    OutcomeModel::AccessTokens(Ok(tokens)),
                ) matches StepModel::Perform(_, storing)
                &&& outcome is Done ==> storing.accepts(config, outcome)
            })
        }),
{
}

} // verus!
