//! A logout that ends the session here.

use axum_extra::extract::PrivateCookieJar;
use http::HeaderMap;
use vstd::prelude::*;

use crate::config::{ConfigModel, OAuthConfiguration};
use crate::effects;
use crate::effects::{Effect, EffectModel, Outcome, OutcomeModel, Step, StepModel};
use crate::error::{Error, ErrorModel};
use crate::jar;
use crate::jar::{JarModel, drop_session_cookie, jar_from_headers, read_session_id};
use crate::logout::page;
use crate::logout::page::build_logout_page;
use crate::reply::{Body, BodyModel, Reply, ReplyModel};

verus! {

/// The handler of a logout that ends the session here.
#[derive(Debug, Clone, Copy)]
pub struct DefaultLogoutHandler;

/// A logout whose session is dropped from the cache.
pub struct DefaultLogoutFlow {
    /// The cookies of the request.
    pub jar: PrivateCookieJar,
}

/// The mathematical counterpart of [`DefaultLogoutFlow`].
pub struct DefaultLogoutModel {
    pub jar: JarModel,
}

impl View for DefaultLogoutFlow {
    type V = DefaultLogoutModel;

    open spec fn view(&self) -> DefaultLogoutModel {
        DefaultLogoutModel { jar: jar::jar_model(self.jar) }
    }
}

/// The response to a logout: the session cookie is removed, and the browser sent
/// to the configured URI.
pub open spec fn logged_out(config: ConfigModel, jar: JarModel) -> ReplyModel {
    ReplyModel {
        jar: jar.without(jar::dropped_cookie(config)),
        body: BodyModel::Html(page::logout_page(config.post_logout_redirect_uri)),
    }
}

/// How a logout starts: a session that the request carries is dropped.
pub open spec fn default_logout_begin(config: ConfigModel, jar: JarModel) -> StepModel<
    DefaultLogoutModel,
    Result<ReplyModel, ErrorModel>,
> {
    match jar::session_id(jar) {
        Some(id) => StepModel::Perform(
            EffectModel::InvalidateAuthSession(id),
            DefaultLogoutModel { jar },
        ),
        None => StepModel::Finish(Ok(logged_out(config, jar))),
    }
}

/// How a logout goes on once the session has been dropped.
pub open spec fn default_logout_step(
    config: ConfigModel,
    flow: DefaultLogoutModel,
    outcome: OutcomeModel,
) -> StepModel<DefaultLogoutModel, Result<ReplyModel, ErrorModel>> {
    match outcome {
        OutcomeModel::Done(Ok(())) => StepModel::Finish(Ok(logged_out(config, flow.jar))),
        OutcomeModel::Done(Err(error)) => StepModel::Finish(Err(error)),
        _ => arbitrary(),
    }
}

/// Answers a logout whose session is gone.
pub fn log_out(config: &OAuthConfiguration, jar: PrivateCookieJar) -> (reply: Reply)
    ensures
        reply@ == logged_out(config@, jar::jar_model(jar)),
{
    Reply {
        jar: drop_session_cookie(config, jar),
        body: Body::Html(build_logout_page(config.post_logout_redirect_uri.as_str())),
    }
}

impl DefaultLogoutHandler {
    /// Starts a logout whose cookies have been opened.
    pub fn logout(&self, config: &OAuthConfiguration, jar: PrivateCookieJar) -> (step: Step<
        DefaultLogoutFlow,
        Result<Reply, Error>,
    >)
        ensures
            effects::step_model(step) == default_logout_begin(config@, jar::jar_model(jar)),
    {
        match read_session_id(&jar) {
            Some(id) => Step::Perform(
                Effect::InvalidateAuthSession(id),
                DefaultLogoutFlow { jar },
            ),
            None => Step::Finish(Ok(log_out(config, jar))),
        }
    }

    /// Starts a logout.
    pub fn handle_logout(&self, config: &OAuthConfiguration, headers: &HeaderMap) -> (step: Step<
        DefaultLogoutFlow,
        Result<Reply, Error>,
    >)
        ensures
            effects::step_model(step) == default_logout_begin(
                config@,
                JarModel::of_request(*headers, config.private_cookie_key),
            ),
    {
        let jar = jar_from_headers(headers, config.private_cookie_key.clone());
        self.logout(config, jar)
    }
}

impl DefaultLogoutFlow {
    /// Goes on once the session has been dropped.
    pub fn step(self, config: &OAuthConfiguration, outcome: Outcome) -> (step: Step<
        DefaultLogoutFlow,
        Result<Reply, Error>,
    >)
        requires
            outcome@ is Done,
        ensures
            effects::step_model(step) == default_logout_step(config@, self@, outcome@),
    {
        match outcome {
            Outcome::Done(Ok(())) => Step::Finish(Ok(log_out(config, self.jar))),
            Outcome::Done(Err(error)) => Step::Finish(Err(error)),
            _ => unreached(),
        }
    }
}

/// A logout that succeeds leaves no session: what the request carried has been
/// dropped from the cache, and the response removes the cookie.
pub proof fn logout_leaves_no_session(
    config: ConfigModel,
    jar: JarModel,
    flow: DefaultLogoutModel,
    outcome: OutcomeModel,
)
    requires
        outcome is Done,
    ensures
        default_logout_begin(config, jar) matches StepModel::Perform(effect, next) ==> {
            &&& jar::session_id(jar) matches Some(id)
            &&& effect == EffectModel::InvalidateAuthSession(id)
            &&& next.jar == jar
        },
        default_logout_begin(config, jar) matches StepModel::Finish(result) ==> {
            &&& jar::session_id(jar) is None
            &&& result matches Ok(reply)
            &&& jar::session_id(reply.jar) is None
        },
        default_logout_step(config, flow, outcome) matches StepModel::Finish(Ok(reply)) ==> {
            &&& outcome->Done_0 is Ok
            &&& jar::session_id(reply.jar) is None
        },
{
}

} // verus!
