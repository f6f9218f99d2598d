//! The callback: the provider sends the user back with an authorization code,
//! which is exchanged for tokens.

use axum_extra::extract::PrivateCookieJar;
use http::HeaderMap;
use vstd::prelude::*;

use crate::clock;
use crate::clock::{Timestamp, clock_now};
use crate::config::{ConfigModel, OAuthConfiguration};
use crate::effects;
use crate::effects::{Effect, EffectModel, Outcome, OutcomeModel, Step, StepModel};
use crate::error::{Error, ErrorModel};
use crate::jar;
use crate::jar::{JarModel, jar_from_headers, renew_session_cookie};
use crate::outside;
use crate::outside::{html_escape, new_session_id, parse_url};
use crate::reply::{Body, BodyModel, Reply, ReplyModel};
use crate::session;
use crate::session::{AccessTokenModel, AccessTokenResponse, AuthSession};
use crate::text;
use crate::text::{names_local_path, split_once_at_bar};
use crate::token_request;
use crate::token_request::{build_exchange_form, build_token_request};

verus! {

/// The query of the callback.
#[derive(Debug, PartialEq)]
pub struct CodeExchange {
    /// The authorization code.
    pub code: String,
    /// The state of the login: the key of its code verifier and, behind a bar, the
    /// path to go to after the login.
    pub state: String,
}

/// The tokens that a code was exchanged for.
#[derive(Debug)]
pub struct ExchangedTokens {
    pub response: AccessTokenResponse,
    /// Where the user asked to go after the login.
    pub redirect: Option<String>,
}

/// The exchange of a code for tokens.
#[derive(Debug)]
pub enum TokenFlow {
    /// The code verifier is looked up.
    Verifier { state: String, code: String, redirect: Option<String> },
    /// The code verifier is dropped, so that it serves only once.
    Spending { code: String, verifier: String, redirect: Option<String> },
    /// The code is sent to the provider.
    Exchange { redirect: Option<String> },
    /// The provider's tokens are read.
    Reading { redirect: Option<String> },
    /// The provider's refusal is read.
    Refused { status: u16 },
}

/// The mathematical counterpart of [`CodeExchange`].
pub struct CodeExchangeModel {
    pub code: Seq<char>,
    pub state: Seq<char>,
}

/// The mathematical counterpart of [`ExchangedTokens`].
pub struct ExchangedModel {
    pub response: AccessTokenModel,
    pub redirect: Option<Seq<char>>,
}

/// The mathematical counterpart of [`TokenFlow`].
pub enum TokenFlowModel {
    Verifier { state: Seq<char>, code: Seq<char>, redirect: Option<Seq<char>> },
    Spending { code: Seq<char>, verifier: Seq<char>, redirect: Option<Seq<char>> },
    Exchange { redirect: Option<Seq<char>> },
    Reading { redirect: Option<Seq<char>> },
    Refused { status: u16 },
}

impl View for CodeExchange {
    type V = CodeExchangeModel;

    open spec fn view(&self) -> CodeExchangeModel {
        CodeExchangeModel { code: self.code@, state: self.state@ }
    }
}

impl View for ExchangedTokens {
    type V = ExchangedModel;

    open spec fn view(&self) -> ExchangedModel {
        ExchangedModel {
            response: self.response@,
            redirect: text::optional_text(self.redirect),
        }
    }
}

impl View for TokenFlow {
    type V = TokenFlowModel;

    open spec fn view(&self) -> TokenFlowModel {
        match *self {
            TokenFlow::Verifier { state, code, redirect } => TokenFlowModel::Verifier {
                state: state@,
                code: code@,
                redirect: text::optional_text(redirect),
            },
            TokenFlow::Spending { code, verifier, redirect } => TokenFlowModel::Spending {
                code: code@,
                verifier: verifier@,
                redirect: text::optional_text(redirect),
            },
            TokenFlow::Exchange { redirect } => TokenFlowModel::Exchange {
                redirect: text::optional_text(redirect),
            },
            TokenFlow::Reading { redirect } => TokenFlowModel::Reading {
                redirect: text::optional_text(redirect),
            },
            TokenFlow::Refused { status } => TokenFlowModel::Refused { status },
        }
    }
}

/// The query as it was read: absent, unreadable, or a code and a state.
pub open spec fn query_model(query: Option<Result<CodeExchange, String>>) -> Option<
    Result<CodeExchangeModel, Seq<char>>,
> {
    match query {
        Some(Ok(exchange)) => Some(Ok(exchange@)),
        Some(Err(why)) => Some(Err(why@)),
        None => None,
    }
}

impl TokenFlowModel {
    /// The outcome is one of the effect that the flow waits for.
    pub open spec fn accepts(self, outcome: OutcomeModel) -> bool {
        match self {
            TokenFlowModel::Verifier { .. } => outcome is CodeVerifier,
            TokenFlowModel::Spending { .. } => outcome is Done,
            TokenFlowModel::Exchange { .. } => outcome is Status,
            TokenFlowModel::Reading { .. } => outcome is AccessTokens,
            TokenFlowModel::Refused { .. } => outcome is Text,
        }
    }
}

/// How the exchange of a code starts: with the code verifier stored under the
/// state up to its first bar.
pub open spec fn exchange_begin(query: Option<Result<CodeExchangeModel, Seq<char>>>) -> StepModel<
    TokenFlowModel,
    Result<ExchangedModel, ErrorModel>,
> {
    match query {
        None => StepModel::Finish(Err(ErrorModel::MissingPatameter("code"@))),
        Some(Err(why)) => StepModel::Finish(Err(ErrorModel::InvalidCodeResponse(why))),
        Some(Ok(exchange)) => {
            let (state, redirect) = text::split_at_bar(exchange.state);
            StepModel::Perform(
                EffectModel::GetCodeVerifier(state),
                TokenFlowModel::Verifier { state, code: exchange.code, redirect },
            )
        },
    }
}

/// How the exchange of a code goes on.
pub open spec fn exchange_step(
    config: ConfigModel,
    flow: TokenFlowModel,
    outcome: OutcomeModel,
) -> StepModel<TokenFlowModel, Result<ExchangedModel, ErrorModel>> {
    match (flow, outcome) {
        (
            TokenFlowModel::Verifier { state, code, redirect },
            OutcomeModel::CodeVerifier(found),
        ) => match found {
            Ok(Some(verifier)) => StepModel::Perform(
                EffectModel::InvalidateCodeVerifier(state),
                TokenFlowModel::Spending { code, verifier, redirect },
            ),
            Ok(None) => StepModel::Finish(Err(ErrorModel::MissingCodeVerifier)),
            Err(error) => StepModel::Finish(Err(error)),
        },
        (TokenFlowModel::Spending { code, verifier, redirect }, OutcomeModel::Done(done)) => {
            match done {
                Ok(()) => {
                    let form = token_request::exchange_form(config, code, verifier);
                    let url = outside::parsed_url(config.token_endpoint);
                    match token_request::token_request(config, form, url) {
                        Ok(request) => StepModel::Perform(
                            EffectModel::PostForm(request),
                            TokenFlowModel::Exchange { redirect },
                        ),
                        Err(error) => StepModel::Finish(Err(error)),
                    }
                },
                Err(error) => StepModel::Finish(Err(error)),
            }
        },
        (TokenFlowModel::Exchange { redirect }, OutcomeModel::Status(answer)) => match answer {
            Ok(status) => if status == 200 {
                StepModel::Perform(
                    EffectModel::ReadAccessTokens,
                    TokenFlowModel::Reading { redirect },
                )
            } else {
                StepModel::Perform(EffectModel::ReadText, TokenFlowModel::Refused { status })
            },
            Err(error) => StepModel::Finish(Err(error)),
        },
        (TokenFlowModel::Reading { redirect }, OutcomeModel::AccessTokens(tokens)) => {
            match tokens {
                Ok(response) => StepModel::Finish(Ok(ExchangedModel { response, redirect })),
                Err(error) => StepModel::Finish(Err(error)),
            }
        },
        (TokenFlowModel::Refused { status }, OutcomeModel::Text(read)) => match read {
            Ok(body) => StepModel::Finish(Err(ErrorModel::Status { code: status, body })),
            Err(error) => StepModel::Finish(Err(error)),
        },
        _ => arbitrary(),
    }
}

/// Starts the exchange of the code in the callback's query for tokens.
pub fn get_auth_tokens(query: Option<Result<CodeExchange, String>>) -> (step: Step<
    TokenFlow,
    Result<ExchangedTokens, Error>,
>)
    ensures
        effects::step_model(step) == exchange_begin(query_model(query)),
{
    match query {
        None => Step::Finish(Err(Error::MissingPatameter("code".to_owned()))),
        Some(Err(why)) => Step::Finish(Err(Error::InvalidCodeResponse(why))),
        Some(Ok(exchange)) => {
            let (state, redirect) = split_once_at_bar(exchange.state.as_str());
            Step::Perform(
                Effect::GetCodeVerifier(state.clone()),
                TokenFlow::Verifier { state, code: exchange.code, redirect },
            )
        },
    }
}

impl TokenFlow {
    /// Goes on with the outcome of the effect that was asked for.
    pub fn step(self, config: &OAuthConfiguration, outcome: Outcome) -> (step: Step<
        TokenFlow,
        Result<ExchangedTokens, Error>,
    >)
        requires
            self@.accepts(outcome@),
        ensures
            effects::step_model(step) == exchange_step(config@, self@, outcome@),
    {
        match (self, outcome) {
            (TokenFlow::Verifier { state, code, redirect }, Outcome::CodeVerifier(found)) => {
                match found {
                    Ok(Some(verifier)) => Step::Perform(
                        Effect::InvalidateCodeVerifier(state),
                        TokenFlow::Spending { code, verifier, redirect },
                    ),
                    Ok(None) => Step::Finish(Err(Error::MissingCodeVerifier)),
                    Err(error) => Step::Finish(Err(error)),
                }
            },
            (TokenFlow::Spending { code, verifier, redirect }, Outcome::Done(done)) => match done {
                Ok(()) => {
                    let form = build_exchange_form(config, code, verifier);
                    let url = parse_url(config.token_endpoint.as_str());
                    match build_token_request(config, form, url) {
                        Ok(request) => Step::Perform(
                            Effect::PostForm(request),
                            TokenFlow::Exchange { redirect },
                        ),
                        Err(error) => Step::Finish(Err(error)),
                    }
                },
                Err(error) => Step::Finish(Err(error)),
            },
            (TokenFlow::Exchange { redirect }, Outcome::Status(answer)) => match answer {
                Ok(status) => if status == 200 {
                    Step::Perform(Effect::ReadAccessTokens, TokenFlow::Reading { redirect })
                } else {
                    Step::Perform(Effect::ReadText, TokenFlow::Refused { status })
                },
                Err(error) => Step::Finish(Err(error)),
            },
            (TokenFlow::Reading { redirect }, Outcome::AccessTokens(tokens)) => match tokens {
                Ok(response) => Step::Finish(Ok(ExchangedTokens { response, redirect })),
                Err(error) => Step::Finish(Err(error)),
            },
            (TokenFlow::Refused { status }, Outcome::Text(read)) => match read {
                Ok(body) => Step::Finish(Err(Error::Status { code: status, body })),
                Err(error) => Step::Finish(Err(error)),
            },
            _ => unreached(),
        }
    }
}

/// The handling of a callback.
pub struct CallbackFlow {
    /// The cookies of the request.
    pub jar: PrivateCookieJar,
    /// The identifier of the session to open.
    pub id: String,
    pub stage: CallbackStage,
}

/// Where the handling of a callback has got to.
pub enum CallbackStage {
    /// The code is exchanged for tokens.
    Tokens(TokenFlow),
    /// The session is stored.
    Storing { redirect: Option<String> },
}

/// The mathematical counterpart of [`CallbackFlow`].
pub struct CallbackModel {
    pub jar: JarModel,
    pub id: Seq<char>,
    pub stage: CallbackStageModel,
}

/// The mathematical counterpart of [`CallbackStage`].
pub enum CallbackStageModel {
    Tokens(TokenFlowModel),
    Storing { redirect: Option<Seq<char>> },
}

impl View for CallbackStage {
    type V = CallbackStageModel;

    open spec fn view(&self) -> CallbackStageModel {
        match *self {
            CallbackStage::Tokens(flow) => CallbackStageModel::Tokens(flow@),
            CallbackStage::Storing { redirect } => CallbackStageModel::Storing {
                redirect: text::optional_text(redirect),
            },
        }
    }
}

impl View for CallbackFlow {
    type V = CallbackModel;

    open spec fn view(&self) -> CallbackModel {
        CallbackModel { jar: jar::jar_model(self.jar), id: self.id@, stage: self.stage@ }
    }
}

impl CallbackModel {
    /// The identifier can be put into a cookie.
    pub open spec fn is_valid(self) -> bool {
        jar::is_sealable(self.id)
    }

    /// The outcome is one of the effect that the flow waits for. The lifetime of
    /// the tokens, where it brings them, is not too long; the session's lifetime,
    /// where the session has been stored, fits in a duration.
    pub open spec fn accepts(self, config: ConfigModel, outcome: OutcomeModel) -> bool {
        match self.stage {
            CallbackStageModel::Tokens(flow) => {
                &&& flow.accepts(outcome)
                &&& outcome matches OutcomeModel::AccessTokens(Ok(tokens))
                    ==> clock::is_lifetime_bounded(tokens.expires_in, config.token_max_age_seconds)
            },
            CallbackStageModel::Storing { .. } => {
                &&& outcome is Done
                &&& outcome matches OutcomeModel::Done(Ok(())) ==> config.is_session_age_bounded()
            },
        }
    }
}

/// Where the page that ends a login sends the browser: to the path that the user
/// asked for, escaped for HTML, if it lies on this host; else to the root.
pub open spec fn login_target(redirect: Option<Seq<char>>) -> Seq<char> {
    match redirect {
        Some(path) => if text::is_local_path(path) {
            outside::html_escaped(path)
        } else {
            "/"@
        },
        None => "/"@,
    }
}

/// The page that ends a login.
pub open spec fn login_page(redirect: Option<Seq<char>>) -> Seq<char> {
    "<head><meta http-equiv=\"Refresh\" content=\"0; URL="@ + login_target(redirect)
        + "\" /></head>"@
}

/// How the handling of a callback starts.
pub open spec fn callback_begin(
    jar: JarModel,
    id: Seq<char>,
    query: Option<Result<CodeExchangeModel, Seq<char>>>,
) -> StepModel<CallbackModel, Result<ReplyModel, ErrorModel>> {
    match exchange_begin(query) {
        StepModel::Perform(effect, flow) => StepModel::Perform(
            effect,
            CallbackModel { jar, id, stage: CallbackStageModel::Tokens(flow) },
        ),
        StepModel::Finish(Err(error)) => StepModel::Finish(Err(error)),
        StepModel::Finish(Ok(_)) => arbitrary(),
    }
}

/// How the handling of a callback goes on at `now`. With the tokens a session is
/// stored; once it is stored, the response sets the session cookie.
pub open spec fn callback_step(
    config: ConfigModel,
    now: Timestamp,
    flow: CallbackModel,
    outcome: OutcomeModel,
) -> StepModel<CallbackModel, Result<ReplyModel, ErrorModel>> {
    match flow.stage {
        CallbackStageModel::Tokens(tokens) => match exchange_step(config, tokens, outcome) {
            StepModel::Perform(effect, next) => StepModel::Perform(
                effect,
                CallbackModel { stage: CallbackStageModel::Tokens(next), ..flow },
            ),
            StepModel::Finish(Ok(exchanged)) => StepModel::Perform(
                EffectModel::SetAuthSession(
                    flow.id,
                    session::opened_session(
                        now,
                        exchanged.response,
                        config.token_max_age_seconds,
                    ),
                ),
                CallbackModel {
                    stage: CallbackStageModel::Storing { redirect: exchanged.redirect },
                    ..flow
                },
            ),
            StepModel::Finish(Err(error)) => StepModel::Finish(Err(error)),
        },
        CallbackStageModel::Storing { redirect } => match outcome {
            OutcomeModel::Done(Ok(())) => StepModel::Finish(
                Ok(
                    ReplyModel {
                        jar: flow.jar.with(jar::renewed_cookie(config, flow.id)),
                        body: BodyModel::Html(login_page(redirect)),
                    },
                ),
            ),
            OutcomeModel::Done(Err(error)) => StepModel::Finish(Err(error)),
            _ => arbitrary(),
        },
    }
}

/// Builds the page that ends a login.
pub fn build_login_page(redirect: Option<String>) -> (page: String)
    ensures
        page@ == login_page(text::optional_text(redirect)),
{
    let mut page = "<head><meta http-equiv=\"Refresh\" content=\"0; URL=".to_owned();
    match redirect {
        Some(path) => if names_local_path(path.as_str()) {
            page.append(html_escape(path.as_str()).as_str());
        } else {
            page.append("/");
        },
        None => page.append("/"),
    }
    page.append("\" /></head>");
    page
}

/// Starts the handling of a callback that opens the session `id`.
pub fn callback_for(
    jar: PrivateCookieJar,
    id: String,
    query: Option<Result<CodeExchange, String>>,
) -> (step: Step<CallbackFlow, Result<Reply, Error>>)
    requires
        jar::is_sealable(id@),
    ensures
        effects::step_model(step) == callback_begin(jar::jar_model(jar), id@, query_model(query)),
        step matches Step::Perform(_, flow) ==> flow@.is_valid(),
{
    match get_auth_tokens(query) {
        Step::Perform(effect, flow) => Step::Perform(
            effect,
            CallbackFlow { jar, id, stage: CallbackStage::Tokens(flow) },
        ),
        Step::Finish(Err(error)) => Step::Finish(Err(error)),
        Step::Finish(Ok(_)) => unreached(),
    }
}

/// What is answered where the request does not carry what the flow needs.
pub open spec fn missing_extension(
    has_configuration: bool,
    has_cache: bool,
    has_client: bool,
) -> Option<ErrorModel> {
    if !has_configuration {
        Some(ErrorModel::CacheAccessError("OAuthConfiguration not configured"@))
    } else if !has_cache {
        Some(ErrorModel::CacheAccessError("AuthCache not configured"@))
    } else if !has_client {
        Some(ErrorModel::CacheAccessError("HTTP Client not configured"@))
    } else {
        None
    }
}

/// Starts the handling of a callback: a new session identifier is drawn, and the
/// code in the query, which was read by the caller, is exchanged for tokens.
pub fn handle_callback(
    configuration: Option<&OAuthConfiguration>,
    has_cache: bool,
    has_client: bool,
    headers: &HeaderMap,
    query: Option<Result<CodeExchange, String>>,
) -> (step: Step<CallbackFlow, Result<Reply, Error>>)
    ensures
        match missing_extension(configuration is Some, has_cache, has_client) {
            Some(error) => effects::step_model(step) == StepModel::<
                CallbackModel,
                Result<ReplyModel, ErrorModel>,
            >::Finish(Err(error)),
            None => exists|id: Seq<char>| #[trigger]
                outside::is_random_uuid(id) && effects::step_model(step) == callback_begin(
                    JarModel::of_request(*headers, configuration->0.private_cookie_key),
                    id,
                    query_model(query),
                ),
        },
        step matches Step::Perform(_, flow) ==> flow@.is_valid(),
{
    match configuration {
        None => Step::Finish(
            Err(Error::CacheAccessError("OAuthConfiguration not configured".to_owned())),
        ),
        Some(configuration) => if !has_cache {
            Step::Finish(Err(Error::CacheAccessError("AuthCache not configured".to_owned())))
        } else if !has_client {
            Step::Finish(Err(Error::CacheAccessError("HTTP Client not configured".to_owned())))
        } else {
            let jar = jar_from_headers(headers, configuration.private_cookie_key.clone());
            let id = new_session_id();
            proof {
                outside::random_uuid_is_sealable(id@);
            }
            callback_for(jar, id, query)
        },
    }
}

impl CallbackFlow {
    /// Goes on at `now` with the outcome of the effect that was asked for.
    pub fn step_at(self, config: &OAuthConfiguration, now: Timestamp, outcome: Outcome) -> (step:
        Step<CallbackFlow, Result<Reply, Error>>)
        requires
            self@.is_valid(),
            self@.accepts(config@, outcome@),
            now.is_reading(),
        ensures
            effects::step_model(step) == callback_step(config@, now, self@, outcome@),
            step matches Step::Perform(_, flow) ==> flow@.is_valid(),
    {
        let CallbackFlow { jar, id, stage } = self;
        match stage {
            CallbackStage::Tokens(flow) => match flow.step(config, outcome) {
                Step::Perform(effect, next) => Step::Perform(
                    effect,
                    CallbackFlow { jar, id, stage: CallbackStage::Tokens(next) },
                ),
                Step::Finish(Ok(exchanged)) => {
                    let session = AuthSession::opened_at(now, &exchanged.response, config);
                    Step::Perform(
                        Effect::SetAuthSession(id.clone(), session),
                        CallbackFlow {
                            jar,
                            id,
                            stage: CallbackStage::Storing { redirect: exchanged.redirect },
                        },
                    )
                },
                Step::Finish(Err(error)) => Step::Finish(Err(error)),
            },
            CallbackStage::Storing { redirect } => match outcome {
                Outcome::Done(Ok(())) => Step::Finish(
                    Ok(
                        Reply {
                            jar: renew_session_cookie(config, jar, id),
                            body: Body::Html(build_login_page(redirect)),
                        },
                    ),
                ),
                Outcome::Done(Err(error)) => Step::Finish(Err(error)),
                _ => unreached(),
            },
        }
    }

    /// Goes on now with the outcome of the effect that was asked for.
    pub fn step(self, config: &OAuthConfiguration, outcome: Outcome) -> (step: Step<
        CallbackFlow,
        Result<Reply, Error>,
    >)
        requires
            self@.is_valid(),
            self@.accepts(config@, outcome@),
        ensures
            exists|now: Timestamp| #[trigger]
                now.is_reading() && effects::step_model(step) == callback_step(
                    config@,
                    now,
                    self@,
                    outcome@,
                ),
            step matches Step::Perform(_, flow) ==> flow@.is_valid(),
    {
        self.step_at(config, clock_now(), outcome)
    }
}

} // verus!
