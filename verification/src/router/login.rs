//! The login route: a user who has a session is sent on, any other logs in.

use vstd::prelude::*;

use crate::effects::{Effect, EffectModel, Outcome, OutcomeModel, Step, StepModel};
use crate::text;
use crate::text::names_local_path;

verus! {

/// A request to the login route that carries a session identifier: the session
/// is looked up.
#[derive(Debug)]
pub struct LoginFlow {
    /// Where the user asked to go after the login.
    pub redirect: Option<String>,
}

/// How a request to the login route is answered.
#[derive(Debug)]
pub enum LoginReply {
    /// The user has a session: a redirect (303) to a path of the application.
    SeeOther(String),
    /// The login at the provider starts.
    StartLogin { redirect: Option<String> },
}

/// The mathematical counterpart of [`LoginFlow`].
pub struct LoginModel {
    pub redirect: Option<Seq<char>>,
}

/// The mathematical counterpart of [`LoginReply`].
pub enum LoginReplyModel {
    SeeOther(Seq<char>),
    StartLogin { redirect: Option<Seq<char>> },
}

impl View for LoginFlow {
    type V = LoginModel;

    open spec fn view(&self) -> LoginModel {
        LoginModel { redirect: text::optional_text(self.redirect) }
    }
}

impl View for LoginReply {
    type V = LoginReplyModel;

    open spec fn view(&self) -> LoginReplyModel {
        match *self {
            LoginReply::SeeOther(path) => LoginReplyModel::SeeOther(path@),
            LoginReply::StartLogin { redirect } => LoginReplyModel::StartLogin {
                redirect: text::optional_text(redirect),
            },
        }
    }
}

/// Where a user who has a session is sent: to the path asked for if it lies on
/// this host, else to the root.
pub open spec fn local_target(redirect: Option<Seq<char>>) -> Seq<char> {
    match redirect {
        Some(path) => if text::is_local_path(path) {
            path
        } else {
            "/"@
        },
        None => "/"@,
    }
}

/// How a request to the login route starts.
pub open spec fn login_begin(
    redirect: Option<Seq<char>>,
    session_id: Option<Seq<char>>,
) -> StepModel<LoginModel, LoginReplyModel> {
    match session_id {
        Some(id) => StepModel::Perform(EffectModel::GetAuthSession(id), LoginModel { redirect }),
        None => StepModel::Finish(LoginReplyModel::StartLogin { redirect }),
    }
}

/// How a request to the login route goes on: a session that is found ends it. A
/// cache that fails is taken for one that has no session.
pub open spec fn login_step(flow: LoginModel, outcome: OutcomeModel) -> StepModel<
    LoginModel,
    LoginReplyModel,
> {
    match outcome {
        OutcomeModel::Session(Ok(Some(_))) => StepModel::Finish(
            LoginReplyModel::SeeOther(local_target(flow.redirect)),
        ),
        _ => StepModel::Finish(LoginReplyModel::StartLogin { redirect: flow.redirect }),
    }
}

/// Starts a request to the login route, with the path to go to after the login
/// and the session identifier that the request carries.
pub fn dispatch_auth(
    post_login_redirect: Option<String>,
    existing_session_id: Option<String>,
) -> (step: Step<LoginFlow, LoginReply>)
    ensures
        step@ == login_begin(
            text::optional_text(post_login_redirect),
            text::optional_text(existing_session_id),
        ),
{
    match existing_session_id {
        Some(id) => Step::Perform(
            Effect::GetAuthSession(id),
            LoginFlow { redirect: post_login_redirect },
        ),
        None => Step::Finish(LoginReply::StartLogin { redirect: post_login_redirect }),
    }
}

impl LoginFlow {
    /// Goes on with the session that was looked up.
    pub fn step(self, outcome: Outcome) -> (step: Step<LoginFlow, LoginReply>)
        requires
            outcome@ is Session,
        ensures
            step@ == login_step(self@, outcome@),
    {
        match outcome {
            Outcome::Session(Ok(Some(_))) => {
                let target = match self.redirect {
                    Some(path) => if names_local_path(path.as_str()) {
                        path
                    } else {
                        "/".to_owned()
                    },
                    None => "/".to_owned(),
                };
                Step::Finish(LoginReply::SeeOther(target))
            },
            _ => Step::Finish(LoginReply::StartLogin { redirect: self.redirect }),
        }
    }
}

/// Wherever a user is sent, it is a path on this host.
pub proof fn target_is_local(redirect: Option<Seq<char>>)
    ensures
        text::is_local_path(local_target(redirect)),
{
    reveal_strlit("/");
}

/// A user who has a session is never sent to the provider; one who has none, or
/// whose session cannot be looked up, always is.
pub proof fn login_starts_without_a_session(flow: LoginModel, outcome: OutcomeModel)
    requires
        outcome is Session,
    ensures
        login_step(flow, outcome) == StepModel::<LoginModel, LoginReplyModel>::Finish(
            LoginReplyModel::StartLogin { redirect: flow.redirect },
        ) <==> !(outcome matches OutcomeModel::Session(Ok(Some(_)))),
{
}

} // verus!
