//! The session of a request, its tokens renewed where they have expired.

use axum_extra::extract::PrivateCookieJar;
use http::HeaderMap;
use vstd::prelude::*;

use crate::clock;
use crate::clock::{Timestamp, clock_now};
use crate::config::{ConfigModel, OAuthConfiguration};
use crate::effects;
use crate::effects::{Effect, EffectModel, Outcome, OutcomeModel, Step, StepModel};
use crate::error;
use crate::error::{Error, ErrorModel};
use crate::jar;
use crate::jar::{JarModel, jar_from_headers, read_session_id};
use crate::outside;
use crate::outside::parse_url;
use crate::session;
use crate::session::{AuthSession, RefreshTokenModel, RefreshTokenResponse, SessionModel};
use crate::text;
use crate::token_request;
use crate::token_request::{build_refresh_form, build_token_request};

verus! {

/// The renewal of tokens.
#[derive(Debug)]
pub enum RefreshFlow {
    /// The refresh token is sent to the provider.
    Exchange,
    /// The provider's tokens are read.
    Reading,
    /// The provider's refusal is read.
    Refused { status: u16 },
}

impl View for RefreshFlow {
    type V = RefreshFlow;

    open spec fn view(&self) -> RefreshFlow {
        *self
    }
}

impl RefreshFlow {
    /// The outcome is one of the effect that the flow waits for.
    pub open spec fn accepts(self, outcome: OutcomeModel) -> bool {
        match self {
            RefreshFlow::Exchange => outcome is Status,
            RefreshFlow::Reading => outcome is RefreshTokens,
            RefreshFlow::Refused { .. } => outcome is Text,
        }
    }
}

/// How a renewal starts, with the token endpoint's parsed URL: the session's
/// refresh token is posted.
pub open spec fn refresh_begin(
    config: ConfigModel,
    session: SessionModel,
    url: Option<Seq<char>>,
) -> StepModel<RefreshFlow, Result<RefreshTokenModel, ErrorModel>> {
    match session.refresh_token {
        None => StepModel::Finish(Err(ErrorModel::MissingPatameter("refresh_token"@))),
        Some(refresh_token) => {
            let form = token_request::refresh_form(config, refresh_token);
            match token_request::token_request(config, form, url) {
                Ok(request) => StepModel::Perform(
                    EffectModel::PostForm(request),
                    RefreshFlow::Exchange,
                ),
                Err(error) => StepModel::Finish(Err(error)),
            }
        },
    }
}

/// How a renewal goes on. A refusal whose body cannot be read has an empty one.
pub open spec fn refresh_step(flow: RefreshFlow, outcome: OutcomeModel) -> StepModel<
    RefreshFlow,
    Result<RefreshTokenModel, ErrorModel>,
> {
    match (flow, outcome) {
        (RefreshFlow::Exchange, OutcomeModel::Status(answer)) => match answer {
            Ok(status) => if status == 200 {
                StepModel::Perform(EffectModel::ReadRefreshTokens, RefreshFlow::Reading)
            } else {
                StepModel::Perform(EffectModel::ReadText, RefreshFlow::Refused { status })
            },
            Err(error) => StepModel::Finish(Err(error)),
        },
        (RefreshFlow::Reading, OutcomeModel::RefreshTokens(tokens)) => StepModel::Finish(tokens),
        (RefreshFlow::Refused { status }, OutcomeModel::Text(read)) => StepModel::Finish(
            Err(
                ErrorModel::Status {
                    code: status,
                    body: match read {
                        Ok(body) => body,
                        Err(_) => Seq::empty(),
                    },
                },
            ),
        ),
        _ => arbitrary(),
    }
}

/// Starts a renewal at the token endpoint, whose parsed URL is given.
pub fn refresh_tokens_at(
    configuration: &OAuthConfiguration,
    session: &AuthSession,
    url: Option<String>,
) -> (step: Step<RefreshFlow, Result<RefreshTokenResponse, Error>>)
    ensures
        effects::step_model(step) == refresh_begin(
            configuration@,
            session@,
            text::optional_text(url),
        ),
{
    match &session.refresh_token {
        None => Step::Finish(Err(Error::MissingPatameter("refresh_token".to_owned()))),
        Some(refresh_token) => {
            let form = build_refresh_form(configuration, refresh_token.clone());
            match build_token_request(configuration, form, url) {
                Ok(request) => Step::Perform(Effect::PostForm(request), RefreshFlow::Exchange),
                Err(error) => Step::Finish(Err(error)),
            }
        },
    }
}

/// Starts the renewal of a session's tokens.
pub fn refresh_tokens(configuration: &OAuthConfiguration, session: &AuthSession) -> (step: Step<
    RefreshFlow,
    Result<RefreshTokenResponse, Error>,
>)
    ensures
        effects::step_model(step) == refresh_begin(
            configuration@,
            session@,
            outside::parsed_url(configuration.token_endpoint@),
        ),
{
    refresh_tokens_at(configuration, session, parse_url(configuration.token_endpoint.as_str()))
}

impl RefreshFlow {
    /// Goes on with the outcome of the effect that was asked for.
    pub fn step(self, outcome: Outcome) -> (step: Step<
        RefreshFlow,
        Result<RefreshTokenResponse, Error>,
    >)
        requires
            self.accepts(outcome@),
        ensures
            effects::step_model(step) == refresh_step(self, outcome@),
    {
        match (self, outcome) {
            (RefreshFlow::Exchange, Outcome::Status(answer)) => match answer {
                Ok(status) => if status == 200 {
                    Step::Perform(Effect::ReadRefreshTokens, RefreshFlow::Reading)
                } else {
                    Step::Perform(Effect::ReadText, RefreshFlow::Refused { status })
                },
                Err(error) => Step::Finish(Err(error)),
            },
            (RefreshFlow::Reading, Outcome::RefreshTokens(tokens)) => Step::Finish(tokens),
            (RefreshFlow::Refused { status }, Outcome::Text(read)) => {
                let body = match read {
                    Ok(body) => body,
                    Err(_) => String::new(),
                };
                Step::Finish(Err(Error::Status { code: status, body }))
            },
            _ => unreached(),
        }
    }
}

/// The retrieval of a session.
#[derive(Debug)]
pub struct ExtractFlow {
    pub session_id: String,
    pub stage: ExtractStage,
}

/// Where the retrieval of a session has got to.
#[derive(Debug)]
pub enum ExtractStage {
    /// The session is looked up.
    Lookup,
    /// Its tokens, which have expired, are renewed.
    Refreshing { session: AuthSession, flow: RefreshFlow },
    /// The session is stored with its new tokens.
    Storing { session: AuthSession },
}

/// The mathematical counterpart of [`ExtractFlow`].
pub struct ExtractModel {
    pub session_id: Seq<char>,
    pub stage: ExtractStageModel,
}

/// The mathematical counterpart of [`ExtractStage`].
pub enum ExtractStageModel {
    Lookup,
    Refreshing { session: SessionModel, flow: RefreshFlow },
    Storing { session: SessionModel },
}

impl View for ExtractStage {
    type V = ExtractStageModel;

    open spec fn view(&self) -> ExtractStageModel {
        match *self {
            ExtractStage::Lookup => ExtractStageModel::Lookup,
            ExtractStage::Refreshing { session, flow } => ExtractStageModel::Refreshing {
                session: session@,
                flow,
            },
            ExtractStage::Storing { session } => ExtractStageModel::Storing { session: session@ },
        }
    }
}

impl View for ExtractFlow {
    type V = ExtractModel;

    open spec fn view(&self) -> ExtractModel {
        ExtractModel { session_id: self.session_id@, stage: self.stage@ }
    }
}

impl ExtractModel {
    /// The outcome is one of the effect that the flow waits for. The lifetime of
    /// the tokens, where it brings them, is not too long.
    pub open spec fn accepts(self, config: ConfigModel, outcome: OutcomeModel) -> bool {
        match self.stage {
            ExtractStageModel::Lookup => outcome is Session,
            ExtractStageModel::Refreshing { flow, .. } => {
                &&& flow.accepts(outcome)
                &&& outcome matches OutcomeModel::RefreshTokens(Ok(tokens))
                    ==> clock::is_lifetime_bounded(tokens.expires_in, config.token_max_age_seconds)
            },
            ExtractStageModel::Storing { .. } => outcome is Done,
        }
    }
}

/// How the retrieval of a session starts: it is looked up.
pub open spec fn extract_begin(session_id: Seq<char>) -> StepModel<
    ExtractModel,
    Result<SessionModel, ErrorModel>,
> {
    StepModel::Perform(
        EffectModel::GetAuthSession(session_id),
        ExtractModel { session_id, stage: ExtractStageModel::Lookup },
    )
}

/// The retrieval of a session that was found: it is given as it is while its
/// tokens live. Where they have expired they are renewed, at the token endpoint
/// whose parsed URL is given; without a refresh token that cannot be done.
pub open spec fn found_session(
    config: ConfigModel,
    now: Timestamp,
    session_id: Seq<char>,
    session: SessionModel,
    url: Option<Seq<char>>,
) -> StepModel<ExtractModel, Result<SessionModel, ErrorModel>> {
    if !session::is_expired(session, now) {
        StepModel::Finish(Ok(session))
    } else if session.refresh_token is None {
        StepModel::Finish(Err(ErrorModel::SessionExpired))
    } else {
        match refresh_begin(config, session, url) {
            StepModel::Perform(effect, flow) => StepModel::Perform(
                effect,
                ExtractModel {
                    session_id,
                    stage: ExtractStageModel::Refreshing { session, flow },
                },
            ),
            StepModel::Finish(Err(error)) => StepModel::Finish(
                Err(ErrorModel::TokenRefreshFailedAuth(error::debugged(error))),
            ),
            StepModel::Finish(Ok(_)) => arbitrary(),
        }
    }
}

/// How the retrieval of a session goes on at `now`.
pub open spec fn extract_step(
    config: ConfigModel,
    now: Timestamp,
    flow: ExtractModel,
    outcome: OutcomeModel,
) -> StepModel<ExtractModel, Result<SessionModel, ErrorModel>> {
    match flow.stage {
        ExtractStageModel::Lookup => match outcome {
            OutcomeModel::Session(Ok(Some(session))) => found_session(
                config,
                now,
                flow.session_id,
                session,
                outside::parsed_url(config.token_endpoint),
            ),
            OutcomeModel::Session(Ok(None)) => StepModel::Finish(Err(ErrorModel::SessionExpired)),
            OutcomeModel::Session(Err(error)) => StepModel::Finish(
                Err(ErrorModel::CacheAccessError(error::debugged(error))),
            ),
            _ => arbitrary(),
        },
        ExtractStageModel::Refreshing { session, flow: refresh } => {
            match refresh_step(refresh, outcome) {
                StepModel::Perform(effect, next) => StepModel::Perform(
                    effect,
                    ExtractModel {
                        stage: ExtractStageModel::Refreshing { session, flow: next },
                        ..flow
                    },
                ),
                StepModel::Finish(Ok(response)) => {
                    let refreshed = session::refreshed_session(
                        now,
                        session,
                        response,
                        config.token_max_age_seconds,
                    );
                    StepModel::Perform(
                        EffectModel::SetAuthSession(flow.session_id, refreshed),
                        ExtractModel {
                            stage: ExtractStageModel::Storing { session: refreshed },
                            ..flow
                        },
                    )
                },
                StepModel::Finish(Err(error)) => StepModel::Finish(
                    Err(ErrorModel::TokenRefreshFailedAuth(error::debugged(error))),
                ),
            }
        },
        ExtractStageModel::Storing { session } => match outcome {
            OutcomeModel::Done(Ok(())) => StepModel::Finish(Ok(session)),
            OutcomeModel::Done(Err(error)) => StepModel::Finish(
                Err(ErrorModel::SessionUpdateFailed(error::debugged(error))),
            ),
            _ => arbitrary(),
        },
    }
}

/// Starts the retrieval of a session.
pub fn extract_and_refresh_session(session_id: String) -> (step: Step<
    ExtractFlow,
    Result<AuthSession, Error>,
>)
    ensures
        effects::step_model(step) == extract_begin(session_id@),
{
    Step::Perform(
        Effect::GetAuthSession(session_id.clone()),
        ExtractFlow { session_id, stage: ExtractStage::Lookup },
    )
}

/// Goes on with a session that was found, at `now` and with the token endpoint's
/// parsed URL.
pub fn use_found_session(
    config: &OAuthConfiguration,
    now: Timestamp,
    session_id: String,
    session: AuthSession,
    url: Option<String>,
) -> (step: Step<ExtractFlow, Result<AuthSession, Error>>)
    ensures
        effects::step_model(step) == found_session(
            config@,
            now,
            session_id@,
            session@,
            text::optional_text(url),
        ),
{
    if !session.expired_at(now) {
        return Step::Finish(Ok(session));
    }
    if session.refresh_token.is_none() {
        return Step::Finish(Err(Error::SessionExpired));
    }
    match refresh_tokens_at(config, &session, url) {
        Step::Perform(effect, flow) => Step::Perform(
            effect,
            ExtractFlow { session_id, stage: ExtractStage::Refreshing { session, flow } },
        ),
        Step::Finish(Err(error)) => Step::Finish(
            Err(Error::TokenRefreshFailedAuth(error.debug_text())),
        ),
        Step::Finish(Ok(_)) => unreached(),
    }
}

impl ExtractFlow {
    /// Goes on at `now` with the outcome of the effect that was asked for.
    pub fn step_at(self, config: &OAuthConfiguration, now: Timestamp, outcome: Outcome) -> (step:
        Step<ExtractFlow, Result<AuthSession, Error>>)
        requires
            self@.accepts(config@, outcome@),
            now.is_reading(),
        ensures
            effects::step_model(step) == extract_step(config@, now, self@, outcome@),
    {
        let ExtractFlow { session_id, stage } = self;
        match stage {
            ExtractStage::Lookup => match outcome {
                Outcome::Session(Ok(Some(session))) => {
                    let url = parse_url(config.token_endpoint.as_str());
                    use_found_session(config, now, session_id, session, url)
                },
                Outcome::Session(Ok(None)) => Step::Finish(Err(Error::SessionExpired)),
                Outcome::Session(Err(error)) => Step::Finish(
                    Err(Error::CacheAccessError(error.debug_text())),
                ),
                _ => unreached(),
            },
            ExtractStage::Refreshing { session, flow } => match flow.step(outcome) {
                Step::Perform(effect, next) => Step::Perform(
                    effect,
                    ExtractFlow {
                        session_id,
                        stage: ExtractStage::Refreshing { session, flow: next },
                    },
                ),
                Step::Finish(Ok(response)) => {
                    let refreshed = session.refreshed_at(
                        now,
                        response,
                        config.token_max_age_seconds,
                    );
                    Step::Perform(
                        Effect::SetAuthSession(session_id.clone(), refreshed.clone()),
                        ExtractFlow {
                            session_id,
                            stage: ExtractStage::Storing { session: refreshed },
                        },
                    )
                },
                Step::Finish(Err(error)) => Step::Finish(
                    Err(Error::TokenRefreshFailedAuth(error.debug_text())),
                ),
            },
            ExtractStage::Storing { session } => match outcome {
                Outcome::Done(Ok(())) => Step::Finish(Ok(session)),
                Outcome::Done(Err(error)) => Step::Finish(
                    Err(Error::SessionUpdateFailed(error.debug_text())),
                ),
                _ => unreached(),
            },
        }
    }

    /// Goes on now with the outcome of the effect that was asked for.
    pub fn step(self, config: &OAuthConfiguration, outcome: Outcome) -> (step: Step<
        ExtractFlow,
        Result<AuthSession, Error>,
    >)
        requires
            self@.accepts(config@, outcome@),
        ensures
            exists|now: Timestamp| #[trigger]
                now.is_reading() && effects::step_model(step) == extract_step(
                    config@,
                    now,
                    self@,
                    outcome@,
                ),
    {
        self.step_at(config, clock_now(), outcome)
    }
}

/// How the session of a request with these cookies is retrieved.
pub open spec fn request_session_begin(jar: JarModel) -> StepModel<
    ExtractModel,
    Result<SessionModel, ErrorModel>,
> {
    match jar::session_id(jar) {
        Some(id) => extract_begin(id),
        None => StepModel::Finish(Err(ErrorModel::SessionNotFound)),
    }
}

/// Starts the retrieval of the session of a request whose cookies have been
/// opened.
pub fn extract_opened(jar: &PrivateCookieJar) -> (step: Step<
    ExtractFlow,
    Result<AuthSession, Error>,
>)
    ensures
        effects::step_model(step) == request_session_begin(jar::jar_model(*jar)),
{
    match read_session_id(jar) {
        Some(session_id) => extract_and_refresh_session(session_id),
        None => Step::Finish(Err(Error::SessionNotFound)),
    }
}

/// Starts the retrieval of the session of a request. The request must carry a
/// cache, a configuration and an HTTP client.
pub fn extract_auth_session(
    has_cache: bool,
    config: Option<&OAuthConfiguration>,
    has_client: bool,
    headers: &HeaderMap,
) -> (step: Step<ExtractFlow, Result<AuthSession, Error>>)
    ensures
        effects::step_model(step) == (if !has_cache {
            StepModel::Finish(Err(ErrorModel::AuthCacheNotConfigured))
        } else if config is None {
            StepModel::Finish(Err(ErrorModel::OAuthConfigNotConfigured))
        } else if !has_client {
            StepModel::Finish(Err(ErrorModel::HttpClientNotConfigured))
        } else {
            request_session_begin(
                JarModel::of_request(*headers, config->0.private_cookie_key),
            )
        }),
{
    if !has_cache {
        return Step::Finish(Err(Error::AuthCacheNotConfigured));
    }
    match config {
        None => Step::Finish(Err(Error::OAuthConfigNotConfigured)),
        Some(config) => {
            if !has_client {
                return Step::Finish(Err(Error::HttpClientNotConfigured));
            }
            let jar = jar_from_headers(headers, config.private_cookie_key.clone());
            extract_opened(&jar)
        },
    }
}

/// A session whose tokens live is given as the cache holds it, and nothing more is
/// asked for.
pub proof fn live_session_is_given_unchanged(
    config: ConfigModel,
    now: Timestamp,
    session_id: Seq<char>,
    session: SessionModel,
)
    requires
        !session::is_expired(session, now),
    ensures
        extract_step(
            config,
            now,
            ExtractModel { session_id, stage: ExtractStageModel::Lookup },
            OutcomeModel::Session(Ok(Some(session))),
        ) == StepModel::<ExtractModel, Result<SessionModel, ErrorModel>>::Finish(Ok(session)),
{
}

/// A session whose tokens have expired is not given as the cache holds it: it is
/// refused, or its tokens are to be renewed.
pub proof fn expired_session_is_not_given(
    config: ConfigModel,
    now: Timestamp,
    session_id: Seq<char>,
    session: SessionModel,
)
    requires
        session::is_expired(session, now),
    ensures
        ({
            let step = extract_step(
                config,
                now,
                ExtractModel { session_id, stage: ExtractStageModel::Lookup },
                OutcomeModel::Session(Ok(Some(session))),
            );
            &&& step is Finish || step->Perform_0 is PostForm
            &&& step matches StepModel::Finish(result) ==> result is Err
            &&& session.refresh_token is None ==> step == StepModel::<
                ExtractModel,
                Result<SessionModel, ErrorModel>,
            >::Finish(Err(ErrorModel::SessionExpired))
        }),
{
}

/// A session with renewed tokens is given only once it has been stored, and then
/// as it was stored.
pub proof fn renewed_session_is_stored_before_it_is_given(
    config: ConfigModel,
    now: Timestamp,
    later: Timestamp,
    session_id: Seq<char>,
    session: SessionModel,
    response: RefreshTokenModel,
    stored: Result<(), ErrorModel>,
)
    ensures
        ({
            let reading = ExtractModel {
                session_id,
                stage: ExtractStageModel::Refreshing { session, flow: RefreshFlow::Reading },
            };
            let renewed = session::refreshed_session(
                now,
                session,
                response,
                config.token_max_age_seconds,
            );
            &&& extract_step(config, now, reading, OutcomeModel::RefreshTokens(Ok(response)))
                matches StepModel::Perform(effect, storing)
            &&& effect == EffectModel::SetAuthSession(session_id, renewed)
            &&& extract_step(config, later, storing, OutcomeModel::Done(stored))
                matches StepModel::Finish(result)
            &&& result is Ok <==> stored is Ok
            &&& result matches Ok(given) ==> given == renewed
        }),
{
}

/// The flow takes every outcome of the effect that it hands out, but for tokens
/// whose lifetime is too long.
pub proof fn extract_flow_takes_each_outcome(
    config: ConfigModel,
    now: Timestamp,
    session_id: Seq<char>,
    flow: ExtractModel,
    outcome: OutcomeModel,
    answer: OutcomeModel,
)
    requires
        flow.accepts(config, outcome),
        answer matches OutcomeModel::RefreshTokens(Ok(tokens)) ==> clock::is_lifetime_bounded(
            tokens.expires_in,
            config.token_max_age_seconds,
        ),
    ensures
        extract_begin(session_id) matches StepModel::Perform(effect, next) ==>
            effect.is_answered_by(answer) ==> next.accepts(config, answer),
        extract_step(config, now, flow, outcome) matches StepModel::Perform(effect, next) ==>
            effect.is_answered_by(answer) ==> next.accepts(config, answer),
{
}

impl ExtractModel {
    /// How many effects the flow can still ask for, the present one counted.
    pub open spec fn effects_left(self) -> nat {
        match self.stage {
            ExtractStageModel::Lookup => 4,
            ExtractStageModel::Refreshing { flow, .. } => match flow {
                RefreshFlow::Exchange => 3,
                _ => 2,
            },
            ExtractStageModel::Storing { .. } => 1,
        }
    }
}

/// The retrieval of a session ends: each outcome brings its end nearer.
pub proof fn extraction_ends(
    config: ConfigModel,
    now: Timestamp,
    flow: ExtractModel,
    outcome: OutcomeModel,
)
    requires
        flow.accepts(config, outcome),
    ensures
        extract_step(config, now, flow, outcome) matches StepModel::Perform(_, next) ==>
            next.effects_left() < flow.effects_left(),
{
}

} // verus!
