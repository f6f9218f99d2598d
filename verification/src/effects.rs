//! What the flows ask of the world around them.
//!
//! A flow computes; it neither waits nor sends. Where it needs the cache, the
//! provider or the application, it hands out an [`Effect`] and stops. Whoever
//! drives it performs the effect and hands the [`Outcome`] back.

use vstd::prelude::*;

use crate::error::{Error, ErrorModel};
use crate::session::{
    AccessTokenModel, AccessTokenResponse, AuthSession, RefreshTokenModel, RefreshTokenResponse,
    SessionModel,
};
use crate::text;

verus! {

/// A form to post to the token endpoint.
#[derive(Debug)]
pub struct TokenRequest {
    pub url: String,
    /// The names and values of the form, in order.
    pub form: Vec<(String, String)>,
    /// The user name of the basic authentication.
    pub user: String,
    /// The password of the basic authentication; `None` for a public client.
    pub password: Option<String>,
}

/// The subset of a provider's discovery document that is used.
#[derive(Debug)]
pub struct OidcDiscovery {
    pub authorization_endpoint: String,
    pub token_endpoint: String,
    pub end_session_endpoint: Option<String>,
    pub scopes_supported: Option<Vec<String>>,
    pub code_challenge_methods_supported: Option<Vec<String>>,
}

/// Something to be done for a flow.
#[derive(Debug)]
pub enum Effect {
    /// Look up the code verifier stored under a state.
    GetCodeVerifier(String),
    /// Drop the code verifier stored under a state.
    InvalidateCodeVerifier(String),
    /// Look up the session of that identifier.
    GetAuthSession(String),
    /// Store a session under an identifier.
    SetAuthSession(String, AuthSession),
    /// Drop the session of that identifier.
    InvalidateAuthSession(String),
    /// Let the session of that identifier live for so many seconds from now.
    ExtendAuthSession(String, i64),
    /// Wait for the application's response.
    AwaitApplication,
    /// Build the HTTP client, which trusts the certificate in that file.
    BuildClient(Option<String>),
    /// Get a URL.
    Fetch(String),
    /// Post a form.
    PostForm(TokenRequest),
    /// Read the last answer's body as an answer to an authorization code.
    ReadAccessTokens,
    /// Read the last answer's body as an answer to a refresh token.
    ReadRefreshTokens,
    /// Read the last answer's body as a discovery document.
    ReadDiscovery,
    /// Read the last answer's body as text.
    ReadText,
}

/// What came of an effect.
#[derive(Debug)]
pub enum Outcome {
    /// The code verifier, if there is one.
    CodeVerifier(Result<Option<String>, Error>),
    /// The session, if there is one.
    Session(Result<Option<AuthSession>, Error>),
    /// It was done.
    Done(Result<(), Error>),
    /// Whether the application gave a response.
    Application(bool),
    /// The status of the answer.
    Status(Result<u16, Error>),
    /// The tokens in the answer.
    AccessTokens(Result<AccessTokenResponse, Error>),
    /// The renewed tokens in the answer.
    RefreshTokens(Result<RefreshTokenResponse, Error>),
    /// The discovery document in the answer, or why it cannot be read.
    Discovery(Result<OidcDiscovery, String>),
    /// The answer's body.
    Text(Result<String, Error>),
}

/// Where a flow has got to: it waits for an effect, or it has its result.
#[derive(Debug)]
pub enum Step<S, R> {
    /// Perform the effect, and hand its outcome to the flow.
    Perform(Effect, S),
    /// The flow is over.
    Finish(R),
}

/// The mathematical counterpart of [`TokenRequest`].
#[verifier::ext_equal]
pub struct TokenRequestModel {
    pub url: Seq<char>,
    pub form: Seq<(Seq<char>, Seq<char>)>,
    pub user: Seq<char>,
    pub password: Option<Seq<char>>,
}

/// The mathematical counterpart of [`OidcDiscovery`].
pub struct DiscoveryModel {
    pub authorization_endpoint: Seq<char>,
    pub token_endpoint: Seq<char>,
    pub end_session_endpoint: Option<Seq<char>>,
    pub scopes_supported: Option<Seq<Seq<char>>>,
    pub code_challenge_methods_supported: Option<Seq<Seq<char>>>,
}

/// The mathematical counterpart of [`Effect`].
pub enum EffectModel {
    GetCodeVerifier(Seq<char>),
    InvalidateCodeVerifier(Seq<char>),
    GetAuthSession(Seq<char>),
    SetAuthSession(Seq<char>, SessionModel),
    InvalidateAuthSession(Seq<char>),
    ExtendAuthSession(Seq<char>, i64),
    AwaitApplication,
    BuildClient(Option<Seq<char>>),
    Fetch(Seq<char>),
    PostForm(TokenRequestModel),
    ReadAccessTokens,
    ReadRefreshTokens,
    ReadDiscovery,
    ReadText,
}

/// The mathematical counterpart of [`Outcome`].
pub enum OutcomeModel {
    CodeVerifier(Result<Option<Seq<char>>, ErrorModel>),
    Session(Result<Option<SessionModel>, ErrorModel>),
    Done(Result<(), ErrorModel>),
    Application(bool),
    Status(Result<u16, ErrorModel>),
    AccessTokens(Result<AccessTokenModel, ErrorModel>),
    RefreshTokens(Result<RefreshTokenModel, ErrorModel>),
    Discovery(Result<DiscoveryModel, Seq<char>>),
    Text(Result<Seq<char>, ErrorModel>),
}

/// The mathematical counterpart of [`Step`].
pub enum StepModel<S, R> {
    Perform(EffectModel, S),
    Finish(R),
}

/// The names and values of a form.
pub open spec fn pairs_model(pairs: Seq<(String, String)>) -> Seq<(Seq<char>, Seq<char>)> {
    pairs.map_values(|pair: (String, String)| (pair.0@, pair.1@))
}

/// The texts of a list that may be absent.
pub open spec fn optional_texts(list: Option<Vec<String>>) -> Option<Seq<Seq<char>>> {
    match list {
        Some(list) => Some(text::texts(list@)),
        None => None,
    }
}

impl View for TokenRequest {
    type V = TokenRequestModel;

    open spec fn view(&self) -> TokenRequestModel {
        TokenRequestModel {
            url: self.url@,
            form: pairs_model(self.form@),
            user: self.user@,
            password: text::optional_text(self.password),
        }
    }
}

impl View for OidcDiscovery {
    type V = DiscoveryModel;

    open spec fn view(&self) -> DiscoveryModel {
        DiscoveryModel {
            authorization_endpoint: self.authorization_endpoint@,
            token_endpoint: self.token_endpoint@,
            end_session_endpoint: text::optional_text(self.end_session_endpoint),
            scopes_supported: optional_texts(self.scopes_supported),
            code_challenge_methods_supported: optional_texts(
                self.code_challenge_methods_supported,
            ),
        }
    }
}

impl View for Effect {
    type V = EffectModel;

    open spec fn view(&self) -> EffectModel {
        match *self {
            Effect::GetCodeVerifier(state) => EffectModel::GetCodeVerifier(state@),
            Effect::InvalidateCodeVerifier(state) => EffectModel::InvalidateCodeVerifier(state@),
            Effect::GetAuthSession(id) => EffectModel::GetAuthSession(id@),
            Effect::SetAuthSession(id, session) => EffectModel::SetAuthSession(id@, session@),
            Effect::InvalidateAuthSession(id) => EffectModel::InvalidateAuthSession(id@),
            Effect::ExtendAuthSession(id, ttl) => EffectModel::ExtendAuthSession(id@, ttl),
            Effect::AwaitApplication => EffectModel::AwaitApplication,
            Effect::BuildClient(certificate) => EffectModel::BuildClient(
                text::optional_text(certificate),
            ),
            Effect::Fetch(url) => EffectModel::Fetch(url@),
            Effect::PostForm(request) => EffectModel::PostForm(request@),
            Effect::ReadAccessTokens => EffectModel::ReadAccessTokens,
            Effect::ReadRefreshTokens => EffectModel::ReadRefreshTokens,
            Effect::ReadDiscovery => EffectModel::ReadDiscovery,
            Effect::ReadText => EffectModel::ReadText,
        }
    }
}

impl View for Outcome {
    type V = OutcomeModel;

    open spec fn view(&self) -> OutcomeModel {
        match *self {
            Outcome::CodeVerifier(Ok(verifier)) => OutcomeModel::CodeVerifier(
                Ok(text::optional_text(verifier)),
            ),
            Outcome::CodeVerifier(Err(error)) => OutcomeModel::CodeVerifier(Err(error@)),
            Outcome::Session(Ok(Some(session))) => OutcomeModel::Session(Ok(Some(session@))),
            Outcome::Session(Ok(None)) => OutcomeModel::Session(Ok(None)),
            Outcome::Session(Err(error)) => OutcomeModel::Session(Err(error@)),
            Outcome::Done(Ok(())) => OutcomeModel::Done(Ok(())),
            Outcome::Done(Err(error)) => OutcomeModel::Done(Err(error@)),
            Outcome::Application(responded) => OutcomeModel::Application(responded),
            Outcome::Status(Ok(code)) => OutcomeModel::Status(Ok(code)),
            Outcome::Status(Err(error)) => OutcomeModel::Status(Err(error@)),
            Outcome::AccessTokens(Ok(tokens)) => OutcomeModel::AccessTokens(Ok(tokens@)),
            Outcome::AccessTokens(Err(error)) => OutcomeModel::AccessTokens(Err(error@)),
            Outcome::RefreshTokens(Ok(tokens)) => OutcomeModel::RefreshTokens(Ok(tokens@)),
            Outcome::RefreshTokens(Err(error)) => OutcomeModel::RefreshTokens(Err(error@)),
            Outcome::Discovery(Ok(document)) => OutcomeModel::Discovery(Ok(document@)),
            Outcome::Discovery(Err(why)) => OutcomeModel::Discovery(Err(why@)),
            Outcome::Text(Ok(text)) => OutcomeModel::Text(Ok(text@)),
            Outcome::Text(Err(error)) => OutcomeModel::Text(Err(error@)),
        }
    }
}

/// What a flow gives in the end, over the models of its result and of errors.
pub open spec fn result_model<T: View>(result: Result<T, Error>) -> Result<T::V, ErrorModel> {
    match result {
        Ok(value) => Ok(value@),
        Err(error) => Err(error@),
    }
}

/// A step of a flow that may fail, over the models of its parts.
pub open spec fn step_model<S: View, T: View>(step: Step<S, Result<T, Error>>) -> StepModel<
    S::V,
    Result<T::V, ErrorModel>,
> {
    match step {
        Step::Perform(effect, flow) => StepModel::Perform(effect@, flow@),
        Step::Finish(result) => StepModel::Finish(result_model(result)),
    }
}

impl<S: View, R: View> View for Step<S, R> {
    type V = StepModel<S::V, R::V>;

    open spec fn view(&self) -> StepModel<S::V, R::V> {
        match *self {
            Step::Perform(effect, flow) => StepModel::Perform(effect@, flow@),
            Step::Finish(result) => StepModel::Finish(result@),
        }
    }
}

impl EffectModel {
    /// The outcome is of the kind that this effect has. A status has three digits.
    pub open spec fn is_answered_by(self, outcome: OutcomeModel) -> bool {
        match self {
            EffectModel::GetCodeVerifier(_) => outcome is CodeVerifier,
            EffectModel::GetAuthSession(_) => outcome is Session,
            EffectModel::InvalidateCodeVerifier(_)
            | EffectModel::SetAuthSession(_, _)
            | EffectModel::InvalidateAuthSession(_)
            | EffectModel::ExtendAuthSession(_, _)
            | EffectModel::BuildClient(_) => outcome is Done,
            EffectModel::AwaitApplication => outcome is Application,
            EffectModel::Fetch(_) | EffectModel::PostForm(_) => {
                &&& outcome is Status
                &&& outcome matches OutcomeModel::Status(Ok(code)) ==> 100 <= code <= 999
            },
            EffectModel::ReadAccessTokens => outcome is AccessTokens,
            EffectModel::ReadRefreshTokens => outcome is RefreshTokens,
            EffectModel::ReadDiscovery => outcome is Discovery,
            EffectModel::ReadText => outcome is Text,
        }
    }
}

} // verus!
