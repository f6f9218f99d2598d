//! Every other request: the application answers it, and the session lives on.

use axum_extra::extract::PrivateCookieJar;
use vstd::prelude::*;

use crate::config::{ConfigModel, OAuthConfiguration, SESSION_KEY};
use crate::cookies::seconds_of_minutes;
use crate::effects::{Effect, EffectModel, Outcome, OutcomeModel, Step, StepModel};
use crate::error::{Error, ErrorModel};
use crate::jar;
use crate::jar::{JarModel, renew_session_cookie};
use crate::text;

verus! {

/// A request that the application answers.
pub struct DefaultFlow {
    /// The cookies of the request.
    pub jar: PrivateCookieJar,
    pub stage: DefaultStage,
}

/// Where such a request has got to.
#[derive(Debug)]
pub enum DefaultStage {
    /// The application answers.
    Application { session_id: Option<String> },
    /// The session's life is extended.
    Extending { id: String },
}

/// How such a request is answered.
pub enum DefaultReply {
    /// With the application's error.
    ApplicationError,
    /// With an error of the cache.
    Refused(Error),
    /// With the application's response and the changes to the cookies.
    Response(PrivateCookieJar),
}

/// The mathematical counterpart of [`DefaultFlow`].
pub struct DefaultModel {
    pub jar: JarModel,
    pub stage: DefaultStageModel,
}

/// The mathematical counterpart of [`DefaultStage`].
pub enum DefaultStageModel {
    Application { session_id: Option<Seq<char>> },
    Extending { id: Seq<char> },
}

/// The mathematical counterpart of [`DefaultReply`].
pub enum DefaultReplyModel {
    ApplicationError,
    Refused(ErrorModel),
    Response(JarModel),
}

impl View for DefaultStage {
    type V = DefaultStageModel;

    open spec fn view(&self) -> DefaultStageModel {
        match *self {
            DefaultStage::Application { session_id } => DefaultStageModel::Application {
                session_id: text::optional_text(session_id),
            },
            DefaultStage::Extending { id } => DefaultStageModel::Extending { id: id@ },
        }
    }
}

impl View for DefaultFlow {
    type V = DefaultModel;

    open spec fn view(&self) -> DefaultModel {
        DefaultModel { jar: jar::jar_model(self.jar), stage: self.stage@ }
    }
}

impl View for DefaultReply {
    type V = DefaultReplyModel;

    open spec fn view(&self) -> DefaultReplyModel {
        match *self {
            DefaultReply::ApplicationError => DefaultReplyModel::ApplicationError,
            DefaultReply::Refused(error) => DefaultReplyModel::Refused(error@),
            DefaultReply::Response(jar) => DefaultReplyModel::Response(jar::jar_model(jar)),
        }
    }
}

impl DefaultModel {
    /// The session's identifier can be put into a cookie.
    pub open spec fn is_valid(self) -> bool {
        match self.stage {
            DefaultStageModel::Application { session_id } => session_id matches Some(id)
                ==> jar::is_sealable(id),
            DefaultStageModel::Extending { id } => jar::is_sealable(id),
        }
    }

    /// The outcome is one of the effect that the flow waits for. Where the
    /// application gave a response, the session's lifetime fits in a duration.
    pub open spec fn accepts(self, config: ConfigModel, outcome: OutcomeModel) -> bool {
        match self.stage {
            DefaultStageModel::Application { .. } => {
                &&& outcome is Application
                &&& outcome == OutcomeModel::Application(true) ==> config.is_session_age_bounded()
            },
            DefaultStageModel::Extending { .. } => {
                &&& outcome is Done
                &&& config.is_session_age_bounded()
            },
        }
    }
}

/// How such a request starts: the application answers it.
pub open spec fn default_begin(jar: JarModel, session_id: Option<Seq<char>>) -> StepModel<
    DefaultModel,
    DefaultReplyModel,
> {
    StepModel::Perform(
        EffectModel::AwaitApplication,
        DefaultModel { jar, stage: DefaultStageModel::Application { session_id } },
    )
}

/// How such a request goes on: a session is extended, then its cookie renewed.
pub open spec fn default_step(
    config: ConfigModel,
    flow: DefaultModel,
    outcome: OutcomeModel,
) -> StepModel<DefaultModel, DefaultReplyModel> {
    match (flow.stage, outcome) {
        (
            DefaultStageModel::Application { session_id },
            OutcomeModel::Application(responded),
        ) => if !responded {
            StepModel::Finish(DefaultReplyModel::ApplicationError)
        } else {
            match session_id {
                None => StepModel::Finish(DefaultReplyModel::Response(flow.jar)),
                Some(id) => StepModel::Perform(
                    EffectModel::ExtendAuthSession(id, config.session_seconds() as i64),
                    DefaultModel { stage: DefaultStageModel::Extending { id }, ..flow },
                ),
            }
        },
        (DefaultStageModel::Extending { id }, OutcomeModel::Done(done)) => match done {
            Ok(()) => StepModel::Finish(
                DefaultReplyModel::Response(flow.jar.with(jar::renewed_cookie(config, id))),
            ),
            Err(error) => StepModel::Finish(DefaultReplyModel::Refused(error)),
        },
        _ => arbitrary(),
    }
}

/// Starts a request that the application answers, with its cookies and the
/// session identifier that they hold.
pub fn handle_default(jar: PrivateCookieJar, session_id: Option<String>) -> (step: Step<
    DefaultFlow,
    DefaultReply,
>)
    requires
        session_id matches Some(id) ==> jar::is_sealable(id@),
    ensures
        step@ == default_begin(jar::jar_model(jar), text::optional_text(session_id)),
        step matches Step::Perform(_, flow) ==> flow@.is_valid(),
{
    Step::Perform(
        Effect::AwaitApplication,
        DefaultFlow { jar, stage: DefaultStage::Application { session_id } },
    )
}

impl DefaultFlow {
    /// Goes on with the outcome of the effect that was asked for.
    pub fn step(self, config: &OAuthConfiguration, outcome: Outcome) -> (step: Step<
        DefaultFlow,
        DefaultReply,
    >)
        requires
            self@.is_valid(),
            self@.accepts(config@, outcome@),
        ensures
            step@ == default_step(config@, self@, outcome@),
            step matches Step::Perform(_, flow) ==> flow@.is_valid(),
    {
        let DefaultFlow { jar, stage } = self;
        match (stage, outcome) {
            (DefaultStage::Application { session_id }, Outcome::Application(responded)) => {
                if !responded {
                    Step::Finish(DefaultReply::ApplicationError)
                } else {
                    let ttl: i64 = seconds_of_minutes(config.session_max_age_minutes);
                    match session_id {
                        None => Step::Finish(DefaultReply::Response(jar)),
                        Some(id) => Step::Perform(
                            Effect::ExtendAuthSession(id.clone(), ttl),
                            DefaultFlow { jar, stage: DefaultStage::Extending { id } },
                        ),
                    }
                }
            },
            (DefaultStage::Extending { id }, Outcome::Done(done)) => match done {
                Ok(()) => Step::Finish(
                    DefaultReply::Response(renew_session_cookie(config, jar, id)),
                ),
                Err(error) => Step::Finish(DefaultReply::Refused(error)),
            },
            _ => unreached(),
        }
    }
}

/// The session in the cache and its cookie are given the same time to live.
pub proof fn session_and_cookie_live_equally_long(
    config: ConfigModel,
    jar: JarModel,
    id: Seq<char>,
)
    ensures
        ({
            let waiting = DefaultModel {
                jar,
                stage: DefaultStageModel::Application { session_id: Some(id) },
            };
            let extending = DefaultModel { jar, stage: DefaultStageModel::Extending { id } };
            let ttl = config.session_seconds() as i64;
            &&& default_step(config, waiting, OutcomeModel::Application(true))
                == StepModel::<DefaultModel, DefaultReplyModel>::Perform(
                EffectModel::ExtendAuthSession(id, ttl),
                extending,
            )
            &&& default_step(config, extending, OutcomeModel::Done(Ok(())))
                matches StepModel::Finish(DefaultReplyModel::Response(changed))
            &&& changed.changes.dom().contains(SESSION_KEY@)
            &&& changed.changes[SESSION_KEY@] matches jar::CookieChange::Added(cookie)
            &&& cookie.value == id
            &&& cookie.max_age == Some(ttl)
        }),
{
}

/// A request without a session leaves the cookies as they are and asks nothing of
/// the cache.
pub proof fn no_session_is_renewed_where_there_is_none(config: ConfigModel, jar: JarModel)
    ensures
        default_step(
            config,
            DefaultModel { jar, stage: DefaultStageModel::Application { session_id: None } },
            OutcomeModel::Application(true),
        ) == StepModel::<DefaultModel, DefaultReplyModel>::Finish(DefaultReplyModel::Response(jar)),
{
}

/// A cookie is renewed only after the cache has extended the session that it
/// names.
pub proof fn cookie_is_renewed_after_the_session(
    config: ConfigModel,
    flow: DefaultModel,
    outcome: OutcomeModel,
    jar: JarModel,
)
    requires
        flow.accepts(config, outcome),
        default_step(config, flow, outcome) == StepModel::<DefaultModel, DefaultReplyModel>::Finish(
            DefaultReplyModel::Response(jar),
        ),
        jar != flow.jar,
    ensures
        flow.stage is Extending,
        outcome->Done_0 is Ok,
{
}

/// The flow takes every outcome of the effect that it hands out.
pub proof fn default_flow_takes_each_outcome(
    config: ConfigModel,
    jar: JarModel,
    session_id: Option<Seq<char>>,
    flow: DefaultModel,
    outcome: OutcomeModel,
    answer: OutcomeModel,
)
    requires
        flow.accepts(config, outcome),
        config.is_session_age_bounded(),
    ensures
        default_begin(jar, session_id) matches StepModel::Perform(effect, next) ==>
            effect.is_answered_by(answer) ==> next.accepts(config, answer),
        default_step(config, flow, outcome) matches StepModel::Perform(effect, next) ==>
            effect.is_answered_by(answer) ==> next.accepts(config, answer),
{
}

} // verus!
