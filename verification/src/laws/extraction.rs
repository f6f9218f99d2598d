//! Laws of the retrieval of a session.

use vstd::prelude::*;

use crate::clock::Timestamp;
use crate::config::ConfigModel;
use crate::effects::{EffectModel, OutcomeModel, StepModel};
use crate::error;
use crate::error::ErrorModel;
use crate::extractors::shared;
use crate::extractors::shared::{ExtractModel, RefreshFlow};
use crate::jar::JarModel;
use crate::laws::clock;
use crate::laws::requests;
use crate::outside;
use crate::session::{RefreshTokenModel, SessionModel};

verus! {

/// The session's tokens have expired at `now`.
pub open spec fn has_run_out(session: SessionModel, now: Timestamp) -> bool {
    session.expires matches Some(expires) && (expires.seconds < now.seconds || (expires.seconds
        == now.seconds && expires.nanos <= now.nanos))
}

/// The session of a request is the one that its cookie names, and it is looked up
/// first; a request without the cookie has none.
pub proof fn session_of_the_cookie_is_looked_up(jar: JarModel, id: Seq<char>)
    ensures
        jar.value("AUTH_SESSION"@) is None ==> shared::request_session_begin(jar) == StepModel::<
            ExtractModel,
            Result<SessionModel, ErrorModel>,
        >::Finish(Err(ErrorModel::SessionNotFound)),
        jar.value("AUTH_SESSION"@) == Some(id) ==> shared::request_session_begin(jar)
            == shared::extract_begin(id),
        shared::extract_begin(id) matches StepModel::Perform(lookup, _) && lookup
            == EffectModel::GetAuthSession(id),
{
}

/// A session that is looked up is given as it is while its tokens live. One that
/// is gone, or that has run out and has no refresh token, has expired; and where
/// the cache fails, its error is told.
pub proof fn lookup_gives_live_sessions(
    config: ConfigModel,
    now: Timestamp,
    id: Seq<char>,
    session: SessionModel,
    failure: ErrorModel,
)
    ensures
        ({
            &&& shared::extract_begin(id) matches StepModel::Perform(_, looking)
            &&& looking.accepts(config, OutcomeModel::Session(Ok(Some(session))))
            &&& looking.accepts(config, OutcomeModel::Session(Ok(None)))
            &&& looking.accepts(config, OutcomeModel::Session(Err(failure)))
            &&& shared::extract_step(config, now, looking, OutcomeModel::Session(Ok(None)))
                == StepModel::<ExtractModel, Result<SessionModel, ErrorModel>>::Finish(
                Err(ErrorModel::SessionExpired),
            )
            &&& shared::extract_step(config, now, looking, OutcomeModel::Session(Err(failure)))
                == StepModel::<ExtractModel, Result<SessionModel, ErrorModel>>::Finish(
                Err(ErrorModel::CacheAccessError(error::debugged(failure))),
            )
            &&& !has_run_out(session, now) ==> shared::extract_step(
                config,
                now,
                looking,
                OutcomeModel::Session(Ok(Some(session))),
            ) == StepModel::<ExtractModel, Result<SessionModel, ErrorModel>>::Finish(Ok(session))
            &&& has_run_out(session, now) && session.refresh_token is None ==> shared::extract_step(
                config,
                now,
                looking,
                OutcomeModel::Session(Ok(Some(session))),
            ) == StepModel::<ExtractModel, Result<SessionModel, ErrorModel>>::Finish(
                Err(ErrorModel::SessionExpired),
            )
        }),
{
}

/// A session that has run out is renewed this way, for every configuration and
/// answer: its refresh token is posted to the token endpoint, the tokens of an
/// answer of status 200 take the place of the old ones, what the answer leaves out
/// stays, and the expiry is set anew wherever a grant or a limit is known. The
/// session is stored under its identifier and only then given, as it was stored.
pub proof fn renewal_goes_this_way(
    config: ConfigModel,
    id: Seq<char>,
    session: SessionModel,
    refresh_token: Seq<char>,
    url: Seq<char>,
    response: RefreshTokenModel,
    failure: ErrorModel,
    times: (Timestamp, Timestamp, Timestamp, Timestamp),
)
    requires
        has_run_out(session, times.0),
        session.refresh_token == Some(refresh_token),
        outside::parsed_url(config.token_endpoint) == Some(url),
        clock::is_shown(times.2),
        clock::is_short_enough(response.expires_in, config.token_max_age_seconds),
    ensures
        ({
            &&& shared::extract_begin(id) matches StepModel::Perform(_, looking)
            &&& shared::extract_step(
                config,
                times.0,
                looking,
                OutcomeModel::Session(Ok(Some(session))),
            ) matches StepModel::Perform(EffectModel::PostForm(request), posting)
            &&& requests::is_from_client(request, config, url)
            &&& requests::renews(request.form, config, refresh_token)
            &&& shared::extract_step(config, times.1, posting, OutcomeModel::Status(Ok(200)))
                matches StepModel::Perform(read, reading)
            &&& read == EffectModel::ReadRefreshTokens
            &&& shared::extract_step(
                config,
                times.2,
                reading,
                OutcomeModel::RefreshTokens(Ok(response)),
            ) matches StepModel::Perform(EffectModel::SetAuthSession(stored, renewed), storing)
            &&& posting.accepts(config, OutcomeModel::Status(Ok(200)))
            &&& reading.accepts(config, OutcomeModel::RefreshTokens(Ok(response)))
            &&& storing.accepts(config, OutcomeModel::Done(Ok(())))
            &&& storing.accepts(config, OutcomeModel::Done(Err(failure)))
            &&& stored == id
            &&& renewed.access_token == response.access_token
            &&& renewed.token_type == response.token_type
            &&& renewed.refresh_token == (if response.refresh_token is Some {
                response.refresh_token
            } else {
                Some(refresh_token)
            })
            &&& renewed.scope == (if response.scope is Some {
                response.scope
            } else {
                session.scope
            })
            &&& Some(renewed.id_token) == (if response.id_token is Some {
                response.id_token
            } else {
                Some(session.id_token)
            })
            &&& if response.expires_in is None && config.token_max_age_seconds is None {
                renewed.expires == session.expires
            } else {
                clock::expires_in_time(
                    times.2,
                    renewed.expires,
                    response.expires_in,
                    config.token_max_age_seconds,
                )
            }
            &&& shared::extract_step(config, times.3, storing, OutcomeModel::Done(Ok(())))
                == StepModel::<ExtractModel, Result<SessionModel, ErrorModel>>::Finish(Ok(renewed))
            &&& shared::extract_step(config, times.3, storing, OutcomeModel::Done(Err(failure)))
                == StepModel::<ExtractModel, Result<SessionModel, ErrorModel>>::Finish(
                Err(ErrorModel::SessionUpdateFailed(error::debugged(failure))),
            )
        }),
{
    requests::refresh_token_is_sent(config, refresh_token);
    clock::renewed_session_expires_in_time(
        times.2,
        session,
        response,
        config.token_max_age_seconds,
    );
}

/// A renewal that does not go well tells what went wrong: an endpoint that is no
/// URL, an error on the way or in reading the tokens, or an answer of another
/// status than 200 with its body, which is taken for empty where it cannot be
/// read.
pub proof fn failed_renewal_is_told(
    config: ConfigModel,
    now: Timestamp,
    id: Seq<char>,
    session: SessionModel,
    refresh_token: Seq<char>,
    url: Seq<char>,
    status: u16,
    body: Seq<char>,
    failure: ErrorModel,
)
    requires
        has_run_out(session, now),
        session.refresh_token == Some(refresh_token),
        status != 200,
    ensures
        ({
            &&& shared::extract_begin(id) matches StepModel::Perform(_, looking)
            &&& outside::parsed_url(config.token_endpoint) is None ==> shared::extract_step(
                config,
                now,
                looking,
                OutcomeModel::Session(Ok(Some(session))),
            ) == StepModel::<ExtractModel, Result<SessionModel, ErrorModel>>::Finish(
                Err(
                    ErrorModel::TokenRefreshFailedAuth(
                        error::debugged(ErrorModel::NotValidUri(config.token_endpoint)),
                    ),
                ),
            )
            &&& outside::parsed_url(config.token_endpoint) == Some(url) ==> ({
                &&& shared::extract_step(
                    config,
                    now,
                    looking,
                    OutcomeModel::Session(Ok(Some(session))),
                ) matches StepModel::Perform(_, posting)
                &&& posting.accepts(config, OutcomeModel::Status(Ok(status)))
                &&& posting.accepts(config, OutcomeModel::Status(Err(failure)))
                &&& shared::extract_step(config, now, posting, OutcomeModel::Status(Err(failure)))
                    == StepModel::<ExtractModel, Result<SessionModel, ErrorModel>>::Finish(
                    Err(ErrorModel::TokenRefreshFailedAuth(error::debugged(failure))),
                )
                &&& shared::extract_step(config, now, posting, OutcomeModel::Status(Ok(200)))
                    matches StepModel::Perform(_, reading)
                &&& reading.accepts(config, OutcomeModel::RefreshTokens(Err(failure)))
                &&& shared::extract_step(
                    config,
                    now,
                    reading,
                    OutcomeModel::RefreshTokens(Err(failure)),
                ) == StepModel::<ExtractModel, Result<SessionModel, ErrorModel>>::Finish(
                    Err(ErrorModel::TokenRefreshFailedAuth(error::debugged(failure))),
                )
                &&& shared::extract_step(config, now, posting, OutcomeModel::Status(Ok(status)))
                    matches StepModel::Perform(read, refused)
                &&& read == EffectModel::ReadText
                &&& refused.accepts(config, OutcomeModel::Text(Ok(body)))
                &&& refused.accepts(config, OutcomeModel::Text(Err(failure)))
                &&& shared::extract_step(config, now, refused, OutcomeModel::Text(Ok(body)))
                    == StepModel::<ExtractModel, Result<SessionModel, ErrorModel>>::Finish(
                    Err(
                        ErrorModel::TokenRefreshFailedAuth(
                            error::debugged(ErrorModel::Status { code: status, body }),
                        ),
                    ),
                )
                &&& shared::extract_step(config, now, refused, OutcomeModel::Text(Err(failure)))
                    == StepModel::<ExtractModel, Result<SessionModel, ErrorModel>>::Finish(
                    Err(
                        ErrorModel::TokenRefreshFailedAuth(
                            error::debugged(
                                ErrorModel::Status { code: status, body: Seq::empty() },
                            ),
                        ),
                    ),
                )
            })
        }),
{
}

/// The renewal of tokens by itself goes this way: without a refresh token it says
/// so; else the token is posted to the endpoint, and the answer's tokens are given
/// as they were read, or its status and body where it is a refusal.
pub proof fn tokens_are_renewed(
    config: ConfigModel,
    session: SessionModel,
    refresh_token: Seq<char>,
    url: Seq<char>,
    status: u16,
    body: Seq<char>,
    response: RefreshTokenModel,
    failure: ErrorModel,
)
    ensures
        session.refresh_token is None ==> shared::refresh_begin(config, session, Some(url))
            == StepModel::<RefreshFlow, Result<RefreshTokenModel, ErrorModel>>::Finish(
            Err(ErrorModel::MissingPatameter("refresh_token"@)),
        ),
        session.refresh_token == Some(refresh_token) ==> ({
            &&& shared::refresh_begin(config, session, None) == StepModel::<
                RefreshFlow,
                Result<RefreshTokenModel, ErrorModel>,
            >::Finish(Err(ErrorModel::NotValidUri(config.token_endpoint)))
            &&& shared::refresh_begin(config, session, Some(url)) matches StepModel::Perform(
                EffectModel::PostForm(request),
                posting,
            )
            &&& requests::is_from_client(request, config, url)
            &&& requests::renews(request.form, config, refresh_token)
            &&& shared::refresh_step(posting, OutcomeModel::Status(Err(failure))) == StepModel::<
                RefreshFlow,
                Result<RefreshTokenModel, ErrorModel>,
            >::Finish(Err(failure))
            &&& shared::refresh_step(posting, OutcomeModel::Status(Ok(200)))
                matches StepModel::Perform(read, reading)
            &&& read == EffectModel::ReadRefreshTokens
            &&& posting.accepts(OutcomeModel::Status(Ok(status)))
            &&& posting.accepts(OutcomeModel::Status(Err(failure)))
            &&& reading.accepts(OutcomeModel::RefreshTokens(Ok(response)))
            &&& reading.accepts(OutcomeModel::RefreshTokens(Err(failure)))
            &&& status != 200 ==> ({
                &&& shared::refresh_step(posting, OutcomeModel::Status(Ok(status)))
                    matches StepModel::Perform(read_text, refused)
                &&& read_text == EffectModel::ReadText
                &&& refused.accepts(OutcomeModel::Text(Ok(body)))
                &&& refused.accepts(OutcomeModel::Text(Err(failure)))
                &&& shared::refresh_step(refused, OutcomeModel::Text(Ok(body))) == StepModel::<
                    RefreshFlow,
                    Result<RefreshTokenModel, ErrorModel>,
                >::Finish(Err(ErrorModel::Status { code: status, body }))
                &&& shared::refresh_step(refused, OutcomeModel::Text(Err(failure))) == StepModel::<
                    RefreshFlow,
                    Result<RefreshTokenModel, ErrorModel>,
                >::Finish(Err(ErrorModel::Status { code: status, body: Seq::empty() }))
            })
            &&& shared::refresh_step(reading, OutcomeModel::RefreshTokens(Ok(response)))
                == StepModel::<RefreshFlow, Result<RefreshTokenModel, ErrorModel>>::Finish(
                Ok(response),
            )
            &&& shared::refresh_step(reading, OutcomeModel::RefreshTokens(Err(failure)))
                == StepModel::<RefreshFlow, Result<RefreshTokenModel, ErrorModel>>::Finish(
                Err(failure),
            )
        }),
{
    requests::refresh_token_is_sent(config, refresh_token);
}

/// An error is told by its name and by what it holds: a text in quotes, or a
/// status with its number and its body.
pub proof fn errors_are_told_by_name(text: Seq<char>, code: u16)
    ensures
        ({
            let held = "("@ + outside::debug_quoted(text) + ")"@;
            &&& error::debugged(ErrorModel::MissingPatameter(text)) =~= "MissingPatameter"@ + held
            &&& error::debugged(ErrorModel::NotValidUri(text)) =~= "NotValidUri"@ + held
            &&& error::debugged(ErrorModel::InvalidCodeResponse(text)) =~= "InvalidCodeResponse"@
                + held
            &&& error::debugged(ErrorModel::CacheAccessError(text)) =~= "CacheAccessError"@ + held
            &&& error::debugged(ErrorModel::SessionUpdateFailed(text)) =~= "SessionUpdateFailed"@
                + held
            &&& error::debugged(ErrorModel::TokenRefreshFailedAuth(text))
                =~= "TokenRefreshFailedAuth"@ + held
            &&& error::debugged(ErrorModel::InvalidResponse(text)) =~= "InvalidResponse"@ + held
            &&& error::debugged(ErrorModel::Request(text)) =~= "Request"@ + held
            &&& error::debugged(ErrorModel::MissingCodeVerifier) == "MissingCodeVerifier"@
            &&& error::debugged(ErrorModel::SessionExpired) == "SessionExpired"@
            &&& error::debugged(ErrorModel::AuthCacheNotConfigured) == "AuthCacheNotConfigured"@
            &&& error::debugged(ErrorModel::OAuthConfigNotConfigured)
                == "OAuthConfigNotConfigured"@
            &&& error::debugged(ErrorModel::HttpClientNotConfigured) == "HttpClientNotConfigured"@
            &&& error::debugged(ErrorModel::SessionNotFound) == "SessionNotFound"@
            &&& error::debugged(ErrorModel::Status { code, body: text }) =~= "Status { code: "@
                + error::decimal(code) + ", body: "@ + outside::debug_quoted(text) + " }"@
        }),
{
}

} // verus!
