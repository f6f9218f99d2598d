//! Laws of the models: each holds what the value holds, part by part.

use axum_extra::extract::PrivateCookieJar;
use vstd::prelude::*;

use crate::builder::OAuthConfigurationBuilder;
use crate::config::OAuthConfiguration;
use crate::cookies::SessionCookie;
use crate::discovery::IssuerFlow;
use crate::effects;
use crate::effects::{
    Effect, EffectModel, OidcDiscovery, Outcome, OutcomeModel, Step, StepModel, TokenRequest,
};
use crate::error::{Error, ErrorModel};
use crate::extractors::shared::{ExtractFlow, ExtractStage, ExtractStageModel, RefreshFlow};
use crate::jar;
use crate::logout::handle_default_logout::DefaultLogoutFlow;
use crate::logout::handle_oidc_logout::{OidcLogoutFlow, OidcLogoutStage, OidcLogoutStageModel};
use crate::reply::{Body, BodyModel, Reply};
use crate::router::dispatch;
use crate::router::dispatch::{Dispatch, DispatchModel};
use crate::router::handle_callback;
use crate::router::handle_callback::{
    CallbackFlow, CallbackStage, CallbackStageModel, CodeExchange, ExchangedTokens, TokenFlow,
    TokenFlowModel,
};
use crate::router::handle_default::{
    DefaultFlow, DefaultReply, DefaultReplyModel, DefaultStage, DefaultStageModel,
};
use crate::router::login::{LoginFlow, LoginReply, LoginReplyModel};
use crate::session::{AccessTokenResponse, AuthSession, RefreshTokenResponse};

verus! {

/// A text that may be absent, and its model.
pub open spec fn agree(text: Option<String>, model: Option<Seq<char>>) -> bool {
    match (text, model) {
        (Some(text), Some(model)) => text@ == model,
        (None, None) => true,
        _ => false,
    }
}

/// A list of texts that may be absent, and its model.
pub open spec fn lists_agree(list: Option<Vec<String>>, model: Option<Seq<Seq<char>>>) -> bool {
    match (list, model) {
        (Some(list), Some(model)) => list@.len() == model.len() && forall|i: int|
            0 <= i < model.len() ==> (#[trigger] list@[i])@ == model[i],
        (None, None) => true,
        _ => false,
    }
}

/// The model of a configuration.
pub proof fn configuration_is_modelled(config: OAuthConfiguration)
    ensures
        config@.private_cookie_key == config.private_cookie_key,
        config@.client_id == config.client_id@,
        config@.client_secret == config.client_secret@,
        agree(config.audience, config@.audience),
        config@.redirect_uri == config.redirect_uri@,
        config@.token_request_redirect_uri == config.token_request_redirect_uri,
        config@.authorization_endpoint == config.authorization_endpoint@,
        config@.token_endpoint == config.token_endpoint@,
        agree(config.end_session_endpoint, config@.end_session_endpoint),
        config@.post_logout_redirect_uri == config.post_logout_redirect_uri@,
        config@.scopes == config.scopes@,
        config@.code_challenge_method == config.code_challenge_method,
        agree(config.custom_ca_cert, config@.custom_ca_cert),
        config@.session_max_age_minutes == config.session_max_age_minutes,
        config@.token_max_age_seconds == config.token_max_age_seconds,
        config@.base_path == config.base_path@,
        config@.secure_cookies == config.secure_cookies,
        config@.lax_same_site == config.lax_same_site,
{
}

/// The model of a builder.
pub proof fn builder_is_modelled(builder: OAuthConfigurationBuilder)
    ensures
        builder@.private_cookie_key == builder.private_cookie_key,
        agree(builder.client_id, builder@.client_id),
        agree(builder.client_secret, builder@.client_secret),
        agree(builder.audience, builder@.audience),
        agree(builder.redirect_uri, builder@.redirect_uri),
        builder@.token_request_redirect_uri == builder.token_request_redirect_uri,
        agree(builder.authorization_endpoint, builder@.authorization_endpoint),
        agree(builder.token_endpoint, builder@.token_endpoint),
        agree(builder.end_session_endpoint, builder@.end_session_endpoint),
        agree(builder.post_logout_redirect_uri, builder@.post_logout_redirect_uri),
        builder@.scopes == builder.scopes@,
        builder@.code_challenge_method == builder.code_challenge_method,
        agree(builder.custom_ca_cert, builder@.custom_ca_cert),
        builder@.session_max_age_minutes == builder.session_max_age_minutes,
        builder@.token_max_age_seconds == builder.token_max_age_seconds,
        agree(builder.base_path, builder@.base_path),
        builder@.secure_cookies == builder.secure_cookies,
        builder@.lax_same_site == builder.lax_same_site,
        builder@.code_challenge_method_explicit == builder.code_challenge_method_explicit,
        builder@.scopes_explicit == builder.scopes_explicit,
{
}

/// The models of sessions and of the provider's answers.
pub proof fn tokens_are_modelled(
    session: AuthSession,
    access: AccessTokenResponse,
    refresh: RefreshTokenResponse,
)
    ensures
        session@.id_token == session.id_token@,
        session@.access_token == session.access_token@,
        session@.token_type == session.token_type@,
        agree(session.refresh_token, session@.refresh_token),
        agree(session.scope, session@.scope),
        session@.expires == session.expires,
        access@.id_token == access.id_token@,
        access@.access_token == access.access_token@,
        access@.token_type == access.token_type@,
        access@.expires_in == access.expires_in,
        agree(access.refresh_token, access@.refresh_token),
        agree(access.scope, access@.scope),
        refresh@.access_token == refresh.access_token@,
        refresh@.token_type == refresh.token_type@,
        refresh@.expires_in == refresh.expires_in,
        agree(refresh.refresh_token, refresh@.refresh_token),
        agree(refresh.scope, refresh@.scope),
        agree(refresh.id_token, refresh@.id_token),
{
}

/// The model of a cookie.
pub proof fn cookie_is_modelled(cookie: SessionCookie)
    ensures
        cookie@.name == cookie.name@,
        cookie@.value == cookie.value@,
        cookie@.path == cookie.path@,
        cookie@.http_only == cookie.http_only,
        cookie@.same_site == cookie.same_site,
        cookie@.secure == cookie.secure,
        cookie@.max_age == cookie.max_age,
{
}

/// The model of a request to the token endpoint: every pair of the form, in order.
pub proof fn token_request_is_modelled(request: TokenRequest)
    ensures
        request@.url == request.url@,
        request@.form.len() == request.form@.len(),
        forall|i: int|
            0 <= i < request.form@.len() ==> (#[trigger] request@.form[i]).0
                == request.form@[i].0@ && request@.form[i].1 == request.form@[i].1@,
        request@.user == request.user@,
        agree(request.password, request@.password),
{
}

/// The model of a discovery document.
pub proof fn discovery_document_is_modelled(document: OidcDiscovery)
    ensures
        document@.authorization_endpoint == document.authorization_endpoint@,
        document@.token_endpoint == document.token_endpoint@,
        agree(document.end_session_endpoint, document@.end_session_endpoint),
        lists_agree(document.scopes_supported, document@.scopes_supported),
        lists_agree(
            document.code_challenge_methods_supported,
            document@.code_challenge_methods_supported,
        ),
{
}

/// The models of effects.
pub proof fn effects_are_modelled(
    text: String,
    session: AuthSession,
    ttl: i64,
    certificate: Option<String>,
    request: TokenRequest,
)
    ensures
        Effect::GetCodeVerifier(text)@ == EffectModel::GetCodeVerifier(text@),
        Effect::InvalidateCodeVerifier(text)@ == EffectModel::InvalidateCodeVerifier(text@),
        Effect::GetAuthSession(text)@ == EffectModel::GetAuthSession(text@),
        Effect::SetAuthSession(text, session)@ == EffectModel::SetAuthSession(text@, session@),
        Effect::InvalidateAuthSession(text)@ == EffectModel::InvalidateAuthSession(text@),
        Effect::ExtendAuthSession(text, ttl)@ == EffectModel::ExtendAuthSession(text@, ttl),
        Effect::AwaitApplication@ == EffectModel::AwaitApplication,
        Effect::BuildClient(certificate)@ matches EffectModel::BuildClient(model) && agree(
            certificate,
            model,
        ),
        Effect::Fetch(text)@ == EffectModel::Fetch(text@),
        Effect::PostForm(request)@ == EffectModel::PostForm(request@),
        Effect::ReadAccessTokens@ == EffectModel::ReadAccessTokens,
        Effect::ReadRefreshTokens@ == EffectModel::ReadRefreshTokens,
        Effect::ReadDiscovery@ == EffectModel::ReadDiscovery,
        Effect::ReadText@ == EffectModel::ReadText,
{
}

/// The models of outcomes that went well.
pub proof fn outcomes_are_modelled(
    text: String,
    session: AuthSession,
    responded: bool,
    code: u16,
    access: AccessTokenResponse,
    refresh: RefreshTokenResponse,
    document: OidcDiscovery,
)
    ensures
        Outcome::CodeVerifier(Ok(Some(text)))@ == OutcomeModel::CodeVerifier(Ok(Some(text@))),
        Outcome::CodeVerifier(Ok(None))@ == OutcomeModel::CodeVerifier(Ok(None)),
        Outcome::Session(Ok(Some(session)))@ == OutcomeModel::Session(Ok(Some(session@))),
        Outcome::Session(Ok(None))@ == OutcomeModel::Session(Ok(None)),
        Outcome::Done(Ok(()))@ == OutcomeModel::Done(Ok(())),
        Outcome::Application(responded)@ == OutcomeModel::Application(responded),
        Outcome::Status(Ok(code))@ == OutcomeModel::Status(Ok(code)),
        Outcome::AccessTokens(Ok(access))@ == OutcomeModel::AccessTokens(Ok(access@)),
        Outcome::RefreshTokens(Ok(refresh))@ == OutcomeModel::RefreshTokens(Ok(refresh@)),
        Outcome::Discovery(Ok(document))@ == OutcomeModel::Discovery(Ok(document@)),
        Outcome::Text(Ok(text))@ == OutcomeModel::Text(Ok(text@)),
{
}

/// The models of outcomes that went wrong.
pub proof fn failures_are_modelled(error: Error, why: String)
    ensures
        Outcome::CodeVerifier(Err(error))@ == OutcomeModel::CodeVerifier(Err(error@)),
        Outcome::Session(Err(error))@ == OutcomeModel::Session(Err(error@)),
        Outcome::Done(Err(error))@ == OutcomeModel::Done(Err(error@)),
        Outcome::Status(Err(error))@ == OutcomeModel::Status(Err(error@)),
        Outcome::AccessTokens(Err(error))@ == OutcomeModel::AccessTokens(Err(error@)),
        Outcome::RefreshTokens(Err(error))@ == OutcomeModel::RefreshTokens(Err(error@)),
        Outcome::Discovery(Err(why))@ == OutcomeModel::Discovery(Err(why@)),
        Outcome::Text(Err(error))@ == OutcomeModel::Text(Err(error@)),
{
}

/// The models of errors.
pub proof fn errors_are_modelled(text: String, code: u16)
    ensures
        Error::MissingPatameter(text)@ == ErrorModel::MissingPatameter(text@),
        Error::NotValidUri(text)@ == ErrorModel::NotValidUri(text@),
        Error::InvalidCodeResponse(text)@ == ErrorModel::InvalidCodeResponse(text@),
        Error::MissingCodeVerifier@ == ErrorModel::MissingCodeVerifier,
        Error::CacheAccessError(text)@ == ErrorModel::CacheAccessError(text@),
        Error::SessionExpired@ == ErrorModel::SessionExpired,
        Error::SessionUpdateFailed(text)@ == ErrorModel::SessionUpdateFailed(text@),
        Error::TokenRefreshFailedAuth(text)@ == ErrorModel::TokenRefreshFailedAuth(text@),
        Error::AuthCacheNotConfigured@ == ErrorModel::AuthCacheNotConfigured,
        Error::OAuthConfigNotConfigured@ == ErrorModel::OAuthConfigNotConfigured,
        Error::HttpClientNotConfigured@ == ErrorModel::HttpClientNotConfigured,
        Error::SessionNotFound@ == ErrorModel::SessionNotFound,
        Error::InvalidResponse(text)@ == ErrorModel::InvalidResponse(text@),
        Error::Request(text)@ == ErrorModel::Request(text@),
        (Error::Status { code, body: text })@ == (ErrorModel::Status { code, body: text@ }),
{
}

/// The models of steps and results.
pub proof fn steps_are_modelled<S: View, T: View>(effect: Effect, flow: S, value: T, error: Error)
    ensures
        effects::result_model(Ok::<T, Error>(value)) == Ok::<T::V, ErrorModel>(value@),
        effects::result_model(Err::<T, Error>(error)) == Err::<T::V, ErrorModel>(error@),
        effects::step_model(Step::<S, Result<T, Error>>::Perform(effect, flow)) == StepModel::<
            S::V,
            Result<T::V, ErrorModel>,
        >::Perform(effect@, flow@),
        effects::step_model(Step::<S, Result<T, Error>>::Finish(Ok(value))) == StepModel::<
            S::V,
            Result<T::V, ErrorModel>,
        >::Finish(Ok(value@)),
        effects::step_model(Step::<S, Result<T, Error>>::Finish(Err(error))) == StepModel::<
            S::V,
            Result<T::V, ErrorModel>,
        >::Finish(Err(error@)),
        Step::<S, T>::Perform(effect, flow)@ == StepModel::<S::V, T::V>::Perform(effect@, flow@),
        Step::<S, T>::Finish(value)@ == StepModel::<S::V, T::V>::Finish(value@),
{
}

/// The models of responses.
pub proof fn replies_are_modelled(text: String, reply: Reply)
    ensures
        Body::Html(text)@ == BodyModel::Html(text@),
        Body::TemporaryRedirect(text)@ == BodyModel::TemporaryRedirect(text@),
        reply@.body == reply.body@,
        reply@.jar.received == jar::jar_received(reply.jar),
        reply@.jar.changes == jar::jar_changes(reply.jar),
{
}

/// The models of the exchange of a code.
pub proof fn exchange_is_modelled(
    query: CodeExchange,
    why: String,
    tokens: ExchangedTokens,
    state: String,
    code: String,
    verifier: String,
    redirect: Option<String>,
    status: u16,
)
    ensures
        query@.code == query.code@,
        query@.state == query.state@,
        handle_callback::query_model(Some(Ok(query))) == Some(
            Ok::<handle_callback::CodeExchangeModel, Seq<char>>(query@),
        ),
        handle_callback::query_model(Some(Err(why))) == Some(
            Err::<handle_callback::CodeExchangeModel, Seq<char>>(why@),
        ),
        handle_callback::query_model(None) is None,
        tokens@.response == tokens.response@,
        agree(tokens.redirect, tokens@.redirect),
        (TokenFlow::Verifier { state, code, redirect })@ matches TokenFlowModel::Verifier {
            state: s,
            code: c,
            redirect: r,
        } && s == state@ && c == code@ && agree(redirect, r),
        (TokenFlow::Spending { code, verifier, redirect })@ matches TokenFlowModel::Spending {
            code: c,
            verifier: v,
            redirect: r,
        } && c == code@ && v == verifier@ && agree(redirect, r),
        (TokenFlow::Exchange { redirect })@ matches TokenFlowModel::Exchange { redirect: r }
            && agree(redirect, r),
        (TokenFlow::Reading { redirect })@ matches TokenFlowModel::Reading { redirect: r } && agree(
            redirect,
            r,
        ),
        (TokenFlow::Refused { status })@ == (TokenFlowModel::Refused { status }),
{
}

/// The models of the flows through the routes.
pub proof fn routes_are_modelled(
    flow: CallbackFlow,
    tokens: TokenFlow,
    redirect: Option<String>,
    id: String,
    default: DefaultFlow,
    session_id: Option<String>,
    jar: PrivateCookieJar,
    error: Error,
    login: LoginFlow,
)
    ensures
        flow@.jar == jar::jar_model(flow.jar),
        flow@.id == flow.id@,
        flow@.stage == flow.stage@,
        CallbackStage::Tokens(tokens)@ == CallbackStageModel::Tokens(tokens@),
        (CallbackStage::Storing { redirect })@ matches CallbackStageModel::Storing { redirect: r }
            && agree(redirect, r),
        default@.jar == jar::jar_model(default.jar),
        default@.stage == default.stage@,
        (DefaultStage::Application { session_id })@ matches DefaultStageModel::Application {
            session_id: s,
        } && agree(session_id, s),
        (DefaultStage::Extending { id })@ == (DefaultStageModel::Extending { id: id@ }),
        DefaultReply::ApplicationError@ == DefaultReplyModel::ApplicationError,
        DefaultReply::Refused(error)@ == DefaultReplyModel::Refused(error@),
        DefaultReply::Response(jar)@ == DefaultReplyModel::Response(jar::jar_model(jar)),
        agree(login.redirect, login@.redirect),
        LoginReply::SeeOther(id)@ == LoginReplyModel::SeeOther(id@),
        (LoginReply::StartLogin { redirect })@ matches LoginReplyModel::StartLogin { redirect: r }
            && agree(redirect, r),
        jar::jar_model(jar).received == jar::jar_received(jar),
        jar::jar_model(jar).changes == jar::jar_changes(jar),
{
}

/// The model of where a request is sent.
pub proof fn dispatch_is_modelled(
    login: Step<LoginFlow, LoginReply>,
    default: Step<DefaultFlow, DefaultReply>,
    query: &str,
)
    ensures
        Dispatch::Login(login)@ == DispatchModel::Login(login@),
        Dispatch::Callback@ == DispatchModel::Callback,
        Dispatch::Logout@ == DispatchModel::Logout,
        Dispatch::Application(default)@ == DispatchModel::Application(default@),
        dispatch::query_text(Some(query)) == Some(query@),
        dispatch::query_text(None) is None,
{
}

/// The models of the logouts, of discovery and of the retrieval of a session.
pub proof fn other_flows_are_modelled(
    logout: DefaultLogoutFlow,
    oidc: OidcLogoutFlow,
    text: String,
    id_token: Option<String>,
    issuer: IssuerFlow,
    extract: ExtractFlow,
    session: AuthSession,
    refresh: RefreshFlow,
)
    ensures
        logout@.jar == jar::jar_model(logout.jar),
        oidc@.jar == jar::jar_model(oidc.jar),
        oidc@.stage == oidc.stage@,
        (OidcLogoutStage::Lookup { session_id: text })@ == (OidcLogoutStageModel::Lookup {
            session_id: text@,
        }),
        (OidcLogoutStage::Dropping { id_token })@ matches OidcLogoutStageModel::Dropping {
            id_token: t,
        } && agree(id_token, t),
        issuer@.builder == issuer.builder@,
        issuer@.issuer == issuer.issuer@,
        issuer@.url == issuer.url@,
        issuer@.stage == issuer.stage,
        extract@.session_id == extract.session_id@,
        extract@.stage == extract.stage@,
        ExtractStage::Lookup@ == ExtractStageModel::Lookup,
        (ExtractStage::Refreshing { session, flow: refresh })@ == (ExtractStageModel::Refreshing {
            session: session@,
            flow: refresh,
        }),
        (ExtractStage::Storing { session })@ == (ExtractStageModel::Storing { session: session@ }),
        refresh@ == refresh,
{
}

} // verus!
