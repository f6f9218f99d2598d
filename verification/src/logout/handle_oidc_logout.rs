//! A logout that ends the session here and at the provider.

use axum_extra::extract::PrivateCookieJar;
use http::HeaderMap;
use vstd::prelude::*;

use crate::config::{ConfigModel, OAuthConfiguration};
use crate::effects;
use crate::effects::{Effect, EffectModel, Outcome, OutcomeModel, Step, StepModel};
use crate::error::{Error, ErrorModel};
use crate::jar;
use crate::jar::{JarModel, drop_session_cookie, jar_from_headers, read_session_id};
use crate::logout::page;
use crate::logout::page::build_logout_page;
use crate::outside;
use crate::outside::url_encode;
use crate::reply::{Body, BodyModel, Reply, ReplyModel};
use crate::session::SessionModel;
use crate::text;

verus! {

/// The handler of a logout that ends the session here and at the provider.
#[derive(Debug)]
pub struct OidcLogoutHandler {
    oidc_logout_endpoint: String,
}

/// A logout whose session is looked up and dropped.
pub struct OidcLogoutFlow {
    /// The cookies of the request.
    pub jar: PrivateCookieJar,
    pub stage: OidcLogoutStage,
}

/// Where a logout has got to.
#[derive(Debug)]
pub enum OidcLogoutStage {
    /// The session is looked up.
    Lookup { session_id: String },
    /// The session is dropped from the cache.
    Dropping { id_token: Option<String> },
}

/// The mathematical counterpart of [`OidcLogoutFlow`].
pub struct OidcLogoutModel {
    pub jar: JarModel,
    pub stage: OidcLogoutStageModel,
}

/// The mathematical counterpart of [`OidcLogoutStage`].
pub enum OidcLogoutStageModel {
    Lookup { session_id: Seq<char> },
    Dropping { id_token: Option<Seq<char>> },
}

impl View for OidcLogoutStage {
    type V = OidcLogoutStageModel;

    open spec fn view(&self) -> OidcLogoutStageModel {
        match *self {
            OidcLogoutStage::Lookup { session_id } => OidcLogoutStageModel::Lookup {
                session_id: session_id@,
            },
            OidcLogoutStage::Dropping { id_token } => OidcLogoutStageModel::Dropping {
                id_token: text::optional_text(id_token),
            },
        }
    }
}

impl View for OidcLogoutFlow {
    type V = OidcLogoutModel;

    open spec fn view(&self) -> OidcLogoutModel {
        OidcLogoutModel { jar: jar::jar_model(self.jar), stage: self.stage@ }
    }
}

impl OidcLogoutModel {
    /// The outcome is one of the effect that the flow waits for.
    pub open spec fn accepts(self, outcome: OutcomeModel) -> bool {
        match self.stage {
            OidcLogoutStageModel::Lookup { .. } => outcome is Session,
            OidcLogoutStageModel::Dropping { .. } => outcome is Done,
        }
    }
}

/// The provider's URL that ends the session of an ID token.
pub open spec fn provider_logout_url(
    endpoint: Seq<char>,
    id_token: Seq<char>,
    post_logout_redirect_uri: Seq<char>,
) -> Seq<char> {
    endpoint + "?id_token_hint="@ + outside::percent_encoded(
        vstd::utf8::encode_utf8(id_token),
    ) + "&post_logout_redirect_uri="@ + outside::percent_encoded(
        vstd::utf8::encode_utf8(post_logout_redirect_uri),
    )
}

/// The response to a logout: the session cookie is removed. With an ID token the
/// browser is sent to the provider, else to the configured URI.
pub open spec fn oidc_logged_out(
    endpoint: Seq<char>,
    config: ConfigModel,
    jar: JarModel,
    id_token: Option<Seq<char>>,
) -> ReplyModel {
    ReplyModel {
        jar: jar.without(jar::dropped_cookie(config)),
        body: match id_token {
            Some(id_token) => BodyModel::TemporaryRedirect(
                provider_logout_url(endpoint, id_token, config.post_logout_redirect_uri),
            ),
            None => BodyModel::Html(page::logout_page(config.post_logout_redirect_uri)),
        },
    }
}

/// How a logout starts: a session that the request carries is looked up.
pub open spec fn oidc_logout_begin(
    endpoint: Seq<char>,
    config: ConfigModel,
    jar: JarModel,
) -> StepModel<OidcLogoutModel, Result<ReplyModel, ErrorModel>> {
    match jar::session_id(jar) {
        Some(id) => StepModel::Perform(
            EffectModel::GetAuthSession(id),
            OidcLogoutModel { jar, stage: OidcLogoutStageModel::Lookup { session_id: id } },
        ),
        None => StepModel::Finish(Ok(oidc_logged_out(endpoint, config, jar, None))),
    }
}

/// How a logout goes on: whether or not the session was found, it is dropped.
pub open spec fn oidc_logout_step(
    endpoint: Seq<char>,
    config: ConfigModel,
    flow: OidcLogoutModel,
    outcome: OutcomeModel,
) -> StepModel<OidcLogoutModel, Result<ReplyModel, ErrorModel>> {
    match (flow.stage, outcome) {
        (OidcLogoutStageModel::Lookup { session_id }, OutcomeModel::Session(found)) => {
            StepModel::Perform(
                EffectModel::InvalidateAuthSession(session_id),
                OidcLogoutModel {
                    stage: OidcLogoutStageModel::Dropping {
                        id_token: match found {
                            Ok(Some(session)) => Some(session.id_token),
                            _ => None,
                        },
                    },
                    ..flow
                },
            )
        },
        (OidcLogoutStageModel::Dropping { id_token }, OutcomeModel::Done(done)) => match done {
            Ok(()) => StepModel::Finish(
                Ok(oidc_logged_out(endpoint, config, flow.jar, id_token)),
            ),
            Err(error) => StepModel::Finish(Err(error)),
        },
        _ => arbitrary(),
    }
}

impl OidcLogoutHandler {
    /// The provider's logout endpoint.
    pub closed spec fn endpoint(&self) -> Seq<char> {
        self.oidc_logout_endpoint@
    }

    /// A handler that sends the browser to the provider's logout endpoint.
    pub fn new(oidc_logout_endpoint: &str) -> (handler: OidcLogoutHandler)
        ensures
            handler.endpoint() == oidc_logout_endpoint@,
    {
        OidcLogoutHandler { oidc_logout_endpoint: oidc_logout_endpoint.to_owned() }
    }

    /// The provider's URL that ends the session of an ID token.
    pub fn logout_url(&self, id_token: &str, post_logout_redirect_uri: &str) -> (url: String)
        ensures
            url@ == provider_logout_url(self.endpoint(), id_token@, post_logout_redirect_uri@),
    {
        let mut url = self.oidc_logout_endpoint.clone();
        url.append("?id_token_hint=");
        url.append(url_encode(id_token).as_str());
        url.append("&post_logout_redirect_uri=");
        url.append(url_encode(post_logout_redirect_uri).as_str());
        url
    }

    /// Answers a logout whose session is gone.
    pub fn log_out(
        &self,
        config: &OAuthConfiguration,
        jar: PrivateCookieJar,
        id_token: Option<String>,
    ) -> (reply: Reply)
        ensures
            reply@ == oidc_logged_out(
                self.endpoint(),
                config@,
                jar::jar_model(jar),
                text::optional_text(id_token),
            ),
    {
        let jar = drop_session_cookie(config, jar);
        let uri = config.post_logout_redirect_uri.as_str();
        match id_token {
            Some(id_token) => Reply {
                jar,
                body: Body::TemporaryRedirect(self.logout_url(id_token.as_str(), uri)),
            },
            None => Reply { jar, body: Body::Html(build_logout_page(uri)) },
        }
    }

    /// Starts a logout whose cookies have been opened.
    pub fn logout(&self, config: &OAuthConfiguration, jar: PrivateCookieJar) -> (step: Step<
        OidcLogoutFlow,
        Result<Reply, Error>,
    >)
        ensures
            effects::step_model(step) == oidc_logout_begin(
                self.endpoint(),
                config@,
                jar::jar_model(jar),
            ),
    {
        match read_session_id(&jar) {
            Some(session_id) => Step::Perform(
                Effect::GetAuthSession(session_id.clone()),
                OidcLogoutFlow { jar, stage: OidcLogoutStage::Lookup { session_id } },
            ),
            None => Step::Finish(Ok(self.log_out(config, jar, None))),
        }
    }

    /// Starts a logout.
    pub fn handle_logout(&self, config: &OAuthConfiguration, headers: &HeaderMap) -> (step: Step<
        OidcLogoutFlow,
        Result<Reply, Error>,
    >)
        ensures
            effects::step_model(step) == oidc_logout_begin(
                self.endpoint(),
                config@,
                JarModel::of_request(*headers, config.private_cookie_key),
            ),
    {
        let jar = jar_from_headers(headers, config.private_cookie_key.clone());
        self.logout(config, jar)
    }
}

impl Clone for OidcLogoutHandler {
    fn clone(&self) -> (copy: Self)
        ensures
            copy.endpoint() == self.endpoint(),
    {
        OidcLogoutHandler { oidc_logout_endpoint: self.oidc_logout_endpoint.clone() }
    }
}

impl OidcLogoutFlow {
    /// Goes on with the outcome of the effect that was asked for.
    pub fn step(
        self,
        handler: &OidcLogoutHandler,
        config: &OAuthConfiguration,
        outcome: Outcome,
    ) -> (step: Step<OidcLogoutFlow, Result<Reply, Error>>)
        requires
            self@.accepts(outcome@),
        ensures
            effects::step_model(step) == oidc_logout_step(
                handler.endpoint(),
                config@,
                self@,
                outcome@,
            ),
    {
        let OidcLogoutFlow { jar, stage } = self;
        match (stage, outcome) {
            (OidcLogoutStage::Lookup { session_id }, Outcome::Session(found)) => {
                let id_token = match found {
                    Ok(Some(session)) => Some(session.id_token),
                    _ => None,
                };
                Step::Perform(
                    Effect::InvalidateAuthSession(session_id),
                    OidcLogoutFlow { jar, stage: OidcLogoutStage::Dropping { id_token } },
                )
            },
            (OidcLogoutStage::Dropping { id_token }, Outcome::Done(done)) => match done {
                Ok(()) => Step::Finish(Ok(handler.log_out(config, jar, id_token))),
                Err(error) => Step::Finish(Err(error)),
            },
            _ => unreached(),
        }
    }
}

/// A logout that succeeds leaves no session: what the request carried has been
/// dropped from the cache, and the response removes the cookie.
pub proof fn oidc_logout_leaves_no_session(
    endpoint: Seq<char>,
    config: ConfigModel,
    jar: JarModel,
    found: Result<Option<SessionModel>, ErrorModel>,
    outcome: OutcomeModel,
)
    requires
        outcome is Done,
    ensures
        match jar::session_id(jar) {
            None => oidc_logout_begin(endpoint, config, jar) matches StepModel::Finish(Ok(reply))
                && jar::session_id(reply.jar) is None,
            Some(id) => {
                &&& oidc_logout_begin(endpoint, config, jar) matches StepModel::Perform(
                    lookup,
                    flow,
                )
                &&& lookup == EffectModel::GetAuthSession(id)
                &&& oidc_logout_step(endpoint, config, flow, OutcomeModel::Session(found))
                    matches StepModel::Perform(drop, next)
                &&& drop == EffectModel::InvalidateAuthSession(id)
                &&& oidc_logout_step(endpoint, config, next, outcome) matches StepModel::Finish(
                    result,
                )
                &&& result is Ok <==> outcome->Done_0 is Ok
                &&& result matches Ok(reply) ==> jar::session_id(reply.jar) is None
            },
        },
{
}

/// The provider is told of a logout exactly where the session was found, and
/// then with that session's ID token.
pub proof fn provider_is_told_where_a_session_was_found(
    endpoint: Seq<char>,
    config: ConfigModel,
    jar: JarModel,
    session_id: Seq<char>,
    found: Result<Option<SessionModel>, ErrorModel>,
)
    ensures
        ({
            let flow = OidcLogoutModel { jar, stage: OidcLogoutStageModel::Lookup { session_id } };
            &&& oidc_logout_step(endpoint, config, flow, OutcomeModel::Session(found))
                matches StepModel::Perform(_, next)
            &&& oidc_logout_step(endpoint, config, next, OutcomeModel::Done(Ok(())))
                matches StepModel::Finish(Ok(reply))
            &&& reply.body == (match found {
                Ok(Some(session)) => BodyModel::TemporaryRedirect(
                    provider_logout_url(
                        endpoint,
                        session.id_token,
                        config.post_logout_redirect_uri,
                    ),
                ),
                _ => BodyModel::Html(page::logout_page(config.post_logout_redirect_uri)),
            })
        }),
{
}

/// The flow takes every outcome of the effect that it hands out.
pub proof fn oidc_logout_flow_takes_each_outcome(
    endpoint: Seq<char>,
    config: ConfigModel,
    jar: JarModel,
    flow: OidcLogoutModel,
    outcome: OutcomeModel,
    answer: OutcomeModel,
)
    requires
        flow.accepts(outcome),
    ensures
        oidc_logout_begin(endpoint, config, jar) matches StepModel::Perform(effect, next) ==>
            effect.is_answered_by(answer) ==> next.accepts(answer),
        oidc_logout_step(endpoint, config, flow, outcome) matches StepModel::Perform(effect, next)
            ==> effect.is_answered_by(answer) ==> next.accepts(answer),
{
}

} // verus!
