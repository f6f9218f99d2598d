//! Which route a request takes.

use axum_extra::extract::PrivateCookieJar;
use http::HeaderMap;
use vstd::prelude::*;

use crate::config::{ConfigModel, OAuthConfiguration};
use crate::effects::{Step, StepModel};
use crate::jar;
use crate::jar::{JarModel, jar_from_headers, read_session_id};
use crate::outside;
use crate::outside::query_value;
use crate::router::handle_default;
use crate::router::handle_default::{DefaultFlow, DefaultModel, DefaultReply, DefaultReplyModel};
use crate::router::login;
use crate::router::login::{LoginFlow, LoginModel, LoginReply, LoginReplyModel};
use crate::text::same_text;

verus! {

/// The routes of the authentication flow, and the application behind them.
#[derive(Debug, Clone, Copy, PartialEq, Eq, Structural)]
pub enum Route {
    Login,
    Callback,
    Logout,
    Application,
}

/// What becomes of a request.
pub enum Dispatch {
    /// It goes to the login route.
    Login(Step<LoginFlow, LoginReply>),
    /// It goes to the callback route.
    Callback,
    /// It goes to the logout route.
    Logout,
    /// It goes to the application.
    Application(Step<DefaultFlow, DefaultReply>),
}

/// The mathematical counterpart of [`Dispatch`].
pub enum DispatchModel {
    Login(StepModel<LoginModel, LoginReplyModel>),
    Callback,
    Logout,
    Application(StepModel<DefaultModel, DefaultReplyModel>),
}

impl View for Dispatch {
    type V = DispatchModel;

    open spec fn view(&self) -> DispatchModel {
        match *self {
            Dispatch::Login(step) => DispatchModel::Login(step@),
            Dispatch::Callback => DispatchModel::Callback,
            Dispatch::Logout => DispatchModel::Logout,
            Dispatch::Application(step) => DispatchModel::Application(step@),
        }
    }
}

/// The route that a path takes.
pub open spec fn route(base_path: Seq<char>, path: Seq<char>) -> Route {
    if path == base_path {
        Route::Login
    } else if path == base_path + "/callback"@ {
        Route::Callback
    } else if path == base_path + "/logout"@ {
        Route::Logout
    } else {
        Route::Application
    }
}

/// What becomes of a request with these cookies. The path to go to after a login
/// is the `redirect` of the query.
pub open spec fn dispatched(
    config: ConfigModel,
    jar: JarModel,
    path: Seq<char>,
    query: Option<Seq<char>>,
) -> DispatchModel {
    match route(config.base_path, path) {
        Route::Login => DispatchModel::Login(
            login::login_begin(
                outside::form_value(query, "redirect"@),
                jar::session_id(jar),
            ),
        ),
        Route::Callback => DispatchModel::Callback,
        Route::Logout => DispatchModel::Logout,
        Route::Application => DispatchModel::Application(
            handle_default::default_begin(jar, jar::session_id(jar)),
        ),
    }
}

/// The query of a request, as a sequence of characters.
pub open spec fn query_text(query: Option<&str>) -> Option<Seq<char>> {
    match query {
        Some(query) => Some(query@),
        None => None,
    }
}

/// Finds the route that a path takes.
pub fn find_route(base_path: &str, path: &str) -> (found: Route)
    ensures
        found == route(base_path@, path@),
{
    let mut callback_route = base_path.to_owned();
    callback_route.append("/callback");
    let mut logout_route = base_path.to_owned();
    logout_route.append("/logout");
    if same_text(path, base_path) {
        Route::Login
    } else if same_text(path, callback_route.as_str()) {
        Route::Callback
    } else if same_text(path, logout_route.as_str()) {
        Route::Logout
    } else {
        Route::Application
    }
}

/// Sends a request whose cookies have been opened on its route.
pub fn dispatch_opened(
    config: &OAuthConfiguration,
    jar: PrivateCookieJar,
    path: &str,
    query: Option<&str>,
) -> (dispatch: Dispatch)
    ensures
        dispatch@ == dispatched(config@, jar::jar_model(jar), path@, query_text(query)),
        dispatch matches Dispatch::Application(Step::Perform(_, flow)) ==> flow@.is_valid(),
{
    let session_id = read_session_id(&jar);
    match find_route(config.base_path.as_str(), path) {
        Route::Login => Dispatch::Login(
            login::dispatch_auth(query_value(query, "redirect"), session_id),
        ),
        Route::Callback => Dispatch::Callback,
        Route::Logout => Dispatch::Logout,
        Route::Application => Dispatch::Application(
            handle_default::handle_default(jar, session_id),
        ),
    }
}

/// Sends a request on its route.
pub fn dispatch(
    config: &OAuthConfiguration,
    headers: &HeaderMap,
    path: &str,
    query: Option<&str>,
) -> (dispatch: Dispatch)
    ensures
        dispatch@ == dispatched(
            config@,
            JarModel::of_request(*headers, config.private_cookie_key),
            path@,
            query_text(query),
        ),
        dispatch matches Dispatch::Application(Step::Perform(_, flow)) ==> flow@.is_valid(),
{
    let jar = jar_from_headers(headers, config.private_cookie_key.clone());
    dispatch_opened(config, jar, path, query)
}

/// Each route has a path of its own, whatever the base path is.
pub proof fn each_route_has_its_path(base_path: Seq<char>)
    ensures
        route(base_path, base_path) == Route::Login,
        route(base_path, base_path + "/callback"@) == Route::Callback,
        route(base_path, base_path + "/logout"@) == Route::Logout,
{
    reveal_strlit("/callback");
    reveal_strlit("/logout");
    assert((base_path + "/callback"@).len() != base_path.len());
    assert((base_path + "/logout"@).len() != base_path.len());
    assert((base_path + "/callback"@).len() != (base_path + "/logout"@).len());
}

/// Only paths that start with the base path are kept from the application.
pub proof fn other_paths_reach_the_application(base_path: Seq<char>, path: Seq<char>)
    requires
        !base_path.is_prefix_of(path),
    ensures
        route(base_path, path) == Route::Application,
{
    assert(base_path.is_prefix_of(base_path));
    assert(base_path.is_prefix_of(base_path + "/callback"@));
    assert(base_path.is_prefix_of(base_path + "/logout"@));
}

} // verus!
