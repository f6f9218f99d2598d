//! Laws of the routes.

use vstd::prelude::*;

use crate::config::ConfigModel;
use crate::effects::{EffectModel, OutcomeModel, StepModel};
use crate::error::ErrorModel;
use crate::jar::JarModel;
use crate::laws::cookies;
use crate::outside;
use crate::router::dispatch;
use crate::router::dispatch::{DispatchModel, Route};
use crate::router::handle_default;
use crate::router::handle_default::{DefaultModel, DefaultReplyModel};
use crate::router::login;
use crate::router::login::{LoginModel, LoginReplyModel};
use crate::session::SessionModel;

verus! {

/// Three paths, and no others, are routes of the flow: the base path, and the
/// base path with `/callback` or `/logout` behind it.
pub proof fn three_paths_are_routes(base_path: Seq<char>, path: Seq<char>)
    ensures
        dispatch::route(base_path, path) == Route::Login <==> path == base_path,
        dispatch::route(base_path, path) == Route::Callback <==> path == base_path + "/callback"@,
        dispatch::route(base_path, path) == Route::Logout <==> path == base_path + "/logout"@,
        dispatch::route(base_path, path) == Route::Application <==> path != base_path && path
            != base_path + "/callback"@ && path != base_path + "/logout"@,
{
    reveal_strlit("/callback");
    reveal_strlit("/logout");
    assert((base_path + "/callback"@).len() == base_path.len() + 9);
    assert((base_path + "/logout"@).len() == base_path.len() + 7);
}

/// A request is sent on by its path alone. The login route looks up the session
/// that the cookie names, or starts a login where there is none, and either way
/// remembers the `redirect` of the query; any other request that is no route goes
/// to the application with its cookies and its session.
pub proof fn request_goes_by_its_path(
    config: ConfigModel,
    jar: JarModel,
    path: Seq<char>,
    query: Option<Seq<char>>,
)
    ensures
        ({
            let sent = dispatch::dispatched(config, jar, path, query);
            let redirect = outside::form_value(query, "redirect"@);
            &&& path == config.base_path ==> sent == DispatchModel::Login(
                match jar.value("AUTH_SESSION"@) {
                    Some(id) => StepModel::Perform(
                        EffectModel::GetAuthSession(id),
                        LoginModel { redirect },
                    ),
                    None => StepModel::Finish(LoginReplyModel::StartLogin { redirect }),
                },
            )
            &&& path == config.base_path + "/callback"@ ==> sent is Callback
            &&& path == config.base_path + "/logout"@ ==> sent is Logout
            &&& path != config.base_path && path != config.base_path + "/callback"@ && path
                != config.base_path + "/logout"@ ==> sent == DispatchModel::Application(
                handle_default::default_begin(jar, jar.value("AUTH_SESSION"@)),
            )
        }),
{
    three_paths_are_routes(config.base_path, path);
}

/// The value under a name is the one that the query gives it; a query that is
/// absent or cannot be read, or that does not hold the name, gives none.
pub proof fn query_gives_the_value(
    query: Seq<char>,
    form: Map<Seq<char>, Seq<char>>,
    name: Seq<char>,
)
    ensures
        outside::form_value(None, name) is None,
        outside::decoded_form(query) is None ==> outside::form_value(Some(query), name) is None,
        outside::decoded_form(query) == Some(form) && form.dom().contains(name)
            ==> outside::form_value(Some(query), name) == Some(form[name]),
        outside::decoded_form(query) == Some(form) && !form.dom().contains(name)
            ==> outside::form_value(Some(query), name) is None,
{
}

/// A user who has a session is sent to the path that was asked for where it starts
/// with one slash and not with two, and to the root in every other case; one who
/// has none, or of whose session the cache cannot tell, logs in, and the path is
/// remembered.
pub proof fn login_sends_on_or_starts(
    redirect: Option<Seq<char>>,
    id: Seq<char>,
    session: SessionModel,
    error: ErrorModel,
)
    ensures
        ({
            &&& login::login_begin(redirect, None) == StepModel::<
                LoginModel,
                LoginReplyModel,
            >::Finish(LoginReplyModel::StartLogin { redirect })
            &&& login::login_begin(redirect, Some(id)) matches StepModel::Perform(lookup, flow)
            &&& lookup == EffectModel::GetAuthSession(id)
            &&& login::login_step(flow, OutcomeModel::Session(Ok(None))) == StepModel::<
                LoginModel,
                LoginReplyModel,
            >::Finish(LoginReplyModel::StartLogin { redirect })
            &&& login::login_step(flow, OutcomeModel::Session(Err(error))) == StepModel::<
                LoginModel,
                LoginReplyModel,
            >::Finish(LoginReplyModel::StartLogin { redirect })
            &&& login::login_step(flow, OutcomeModel::Session(Ok(Some(session))))
                matches StepModel::Finish(LoginReplyModel::SeeOther(target))
            &&& redirect matches Some(path) ==> path.len() > 0 && path[0] == '/' && !(path.len()
                > 1 && path[1] == '/') ==> target == path
            &&& redirect matches Some(path) ==> !(path.len() > 0 && path[0] == '/' && !(path.len()
                > 1 && path[1] == '/')) ==> target == "/"@
            &&& redirect is None ==> target == "/"@
        }),
{
}

/// A request to the application goes this way, for every configuration: the
/// application answers first; then the session that the request carries, if any,
/// is extended by as many minutes as configured, and the response sets its cookie.
/// The application's error is handed on as it is, and so is the cache's.
pub proof fn session_lives_on_with_each_request(
    config: ConfigModel,
    jar: JarModel,
    id: Seq<char>,
    error: ErrorModel,
)
    requires
        i64::MIN <= 60 * config.session_max_age_minutes <= i64::MAX,
    ensures
        ({
            &&& handle_default::default_begin(jar, Some(id)) matches StepModel::Perform(
                await_it,
                waiting,
            )
            &&& await_it == EffectModel::AwaitApplication
            &&& handle_default::default_step(config, waiting, OutcomeModel::Application(false))
                == StepModel::<DefaultModel, DefaultReplyModel>::Finish(
                DefaultReplyModel::ApplicationError,
            )
            &&& handle_default::default_step(config, waiting, OutcomeModel::Application(true))
                matches StepModel::Perform(EffectModel::ExtendAuthSession(extended, ttl), extending)
            &&& extended == id
            &&& ttl == 60 * config.session_max_age_minutes
            &&& handle_default::default_step(config, extending, OutcomeModel::Done(Err(error)))
                == StepModel::<DefaultModel, DefaultReplyModel>::Finish(
                DefaultReplyModel::Refused(error),
            )
            &&& handle_default::default_step(config, extending, OutcomeModel::Done(Ok(())))
                matches StepModel::Finish(DefaultReplyModel::Response(changed))
            &&& cookies::sets_session_cookie(jar, changed, config, id)
        }),
{
}

/// A request without a session is answered by the application alone: nothing is
/// extended and no cookie is touched.
pub proof fn request_without_a_session_is_left_alone(config: ConfigModel, jar: JarModel)
    ensures
        ({
            &&& handle_default::default_begin(jar, None) matches StepModel::Perform(
                await_it,
                waiting,
            )
            &&& await_it == EffectModel::AwaitApplication
            &&& handle_default::default_step(config, waiting, OutcomeModel::Application(false))
                == StepModel::<DefaultModel, DefaultReplyModel>::Finish(
                DefaultReplyModel::ApplicationError,
            )
            &&& handle_default::default_step(config, waiting, OutcomeModel::Application(true))
                == StepModel::<DefaultModel, DefaultReplyModel>::Finish(
                DefaultReplyModel::Response(jar),
            )
        }),
{
}

/// Whatever comes of an effect, a request to the application can take it.
pub proof fn requests_take_what_comes(
    config: ConfigModel,
    jar: JarModel,
    id: Seq<char>,
    session_id: Option<Seq<char>>,
    outcome: OutcomeModel,
)
    requires
        i64::MIN <= 60 * config.session_max_age_minutes <= i64::MAX,
        vstd::utf8::encode_utf8(id).len() <= 68_719_476_736,
        session_id == Some(id) || session_id is None,
    ensures
        ({
            &&& handle_default::default_begin(jar, session_id) matches StepModel::Perform(
                _,
                waiting,
            )
            &&& waiting.is_valid()
            &&& outcome is Application ==> waiting.accepts(config, outcome)
            &&& session_id == Some(id) ==> ({
                &&& handle_default::default_step(config, waiting, OutcomeModel::Application(true))
                    matches StepModel::Perform(_, extending)
                &&& extending.is_valid()
                &&& outcome is Done ==> extending.accepts(config, outcome)
            })
        }),
{
}

} // verus!
