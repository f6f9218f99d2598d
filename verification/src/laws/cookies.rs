//! Laws of the session cookie and the jar.

use axum_extra::extract::cookie::Key;
use http::HeaderMap;
use vstd::prelude::*;

use crate::config::{ConfigModel, SESSION_KEY};
use crate::cookies;
use crate::cookies::{CookieModel, SameSite};
use crate::jar;
use crate::jar::{CookieChange, JarModel};

verus! {

/// The response sets the session cookie, and does nothing else that was not done
/// before: the cookie holds the identifier, follows the policy and lives as many
/// minutes as configured.
pub open spec fn sets_session_cookie(
    before: JarModel,
    after: JarModel,
    config: ConfigModel,
    id: Seq<char>,
) -> bool {
    let name = "AUTH_SESSION"@;
    &&& after.received == before.received
    &&& after.changes.remove(name) =~= before.changes.remove(name)
    &&& after.changes.dom().contains(name)
    &&& after.changes[name] matches CookieChange::Added(cookie)
    &&& cookie.name == name
    &&& cookie.value == id
    &&& cookie.max_age matches Some(seconds)
    &&& seconds == 60 * config.session_max_age_minutes
    &&& follows_policy(cookie, config.lax_same_site, config.secure_cookies)
}

/// The response ends the session cookie, and does nothing else that was not done
/// before: a browser that sent the cookie is told to drop it, under the attributes
/// that it was set with; any other is told nothing.
pub open spec fn drops_session_cookie(
    before: JarModel,
    after: JarModel,
    config: ConfigModel,
) -> bool {
    let name = "AUTH_SESSION"@;
    &&& after.received == before.received
    &&& after.changes.remove(name) =~= before.changes.remove(name)
    &&& jar::session_id(after) is None
    &&& if before.received.dom().contains(name) {
        &&& after.changes.dom().contains(name)
        &&& after.changes[name] matches CookieChange::Removed(cookie)
        &&& cookie.name == name
        &&& cookie.value.len() == 0
        &&& cookie.max_age is None
        &&& follows_policy(cookie, config.lax_same_site, config.secure_cookies)
    } else {
        !after.changes.dom().contains(name)
    }
}

/// The cookie has the attributes that the two settings ask for, each by itself: it
/// is `Lax` exactly where that is asked for and else `Strict`, and `Secure` exactly
/// where that is asked for. It is for the whole host and not for scripts.
pub open spec fn follows_policy(
    cookie: CookieModel,
    lax_same_site: bool,
    secure_cookies: bool,
) -> bool {
    &&& cookie.same_site == SameSite::Lax <==> lax_same_site
    &&& cookie.same_site == SameSite::Strict <==> !lax_same_site
    &&& cookie.secure <==> secure_cookies
    &&& cookie.http_only
    &&& cookie.path == "/"@
}

/// Whatever its name, value and age, a session cookie follows the policy.
pub proof fn session_cookie_follows_the_policy(
    name: Seq<char>,
    value: Option<Seq<char>>,
    lax_same_site: bool,
    secure_cookies: bool,
    max_age: Option<i64>,
)
    ensures
        follows_policy(
            cookies::session_cookie(name, value, lax_same_site, secure_cookies, max_age),
            lax_same_site,
            secure_cookies,
        ),
{
}

/// Whatever the policy, a session cookie has the name, the value and the age that
/// it is given; without a value it is empty, and without an age it has none.
pub proof fn session_cookie_holds_what_it_is_given(
    name: Seq<char>,
    value: Option<Seq<char>>,
    lax_same_site: bool,
    secure_cookies: bool,
    max_age: Option<i64>,
)
    ensures
        ({
            let cookie = cookies::session_cookie(
                name,
                value,
                lax_same_site,
                secure_cookies,
                max_age,
            );
            &&& cookie.name == name
            &&& value matches Some(value) ==> cookie.value == value
            &&& value is None ==> cookie.value.len() == 0
            &&& cookie.max_age == max_age
        }),
{
}

/// The cookie that is set for a session has the session's identifier for its value
/// and lives as many minutes as configured.
pub proof fn cookie_names_the_session(config: ConfigModel, id: Seq<char>)
    requires
        i64::MIN <= 60 * config.session_max_age_minutes <= i64::MAX,
    ensures
        ({
            let cookie = jar::renewed_cookie(config, id);
            &&& cookie.name == "AUTH_SESSION"@
            &&& cookie.value == id
            &&& cookie.max_age matches Some(seconds)
            &&& seconds == 60 * config.session_max_age_minutes
            &&& follows_policy(cookie, config.lax_same_site, config.secure_cookies)
        }),
{
}

/// The cookie that ends a session has the name and the attributes of the one that
/// was set for it, and neither a value nor an age.
pub proof fn dropping_finds_the_cookie_again(config: ConfigModel, id: Seq<char>)
    ensures
        ({
            let dropped = jar::dropped_cookie(config);
            let renewed = jar::renewed_cookie(config, id);
            &&& dropped.name == "AUTH_SESSION"@
            &&& dropped.name == renewed.name
            &&& dropped.path == renewed.path
            &&& dropped.value.len() == 0
            &&& dropped.max_age is None
            &&& follows_policy(dropped, config.lax_same_site, config.secure_cookies)
        }),
{
}

/// A cookie that is set is in the response as it was built, and nothing else of
/// the jar changes.
pub proof fn setting_adds_one_cookie(jar: JarModel, cookie: CookieModel, name: Seq<char>)
    ensures
        ({
            let after = jar.with(cookie);
            &&& after.received == jar.received
            &&& after.changes.dom().contains(cookie.name)
            &&& after.changes[cookie.name] == CookieChange::Added(cookie)
            &&& name != cookie.name ==> (after.changes.dom().contains(name)
                <==> jar.changes.dom().contains(name))
            &&& name != cookie.name && jar.changes.dom().contains(name) ==> after.changes[name]
                == jar.changes[name]
        }),
{
}

/// A cookie that is removed is told to a browser that sent it, and only to such a
/// one; nothing else of the jar changes.
pub proof fn removing_tells_who_sent_the_cookie(
    jar: JarModel,
    cookie: CookieModel,
    name: Seq<char>,
)
    ensures
        ({
            let after = jar.without(cookie);
            &&& after.received == jar.received
            &&& after.changes.dom().contains(cookie.name) <==> jar.received.dom().contains(
                cookie.name,
            )
            &&& jar.received.dom().contains(cookie.name) ==> after.changes[cookie.name]
                == CookieChange::Removed(cookie)
            &&& name != cookie.name ==> (after.changes.dom().contains(name)
                <==> jar.changes.dom().contains(name))
            &&& name != cookie.name && jar.changes.dom().contains(name) ==> after.changes[name]
                == jar.changes[name]
        }),
{
}

/// The session of a request is the one that its cookie names, as it was received.
pub proof fn request_names_its_session(headers: HeaderMap, key: Key)
    ensures
        ({
            let jar = JarModel::of_request(headers, key);
            let cookies = jar::opened_cookies(headers, key);
            &&& jar.received == cookies
            &&& jar.changes.dom().is_empty()
            &&& jar::session_id(jar) == (if cookies.dom().contains("AUTH_SESSION"@) {
                Some(cookies["AUTH_SESSION"@])
            } else {
                None
            })
        }),
{
}

/// What is read of a cookie is what was done to it last: its value where it was
/// set, nothing where it was removed, and what was received where it was left
/// alone.
pub proof fn last_change_is_read(jar: JarModel, name: Seq<char>)
    ensures
        !jar.changes.dom().contains(name) && jar.received.dom().contains(name) ==> jar.value(name)
            == Some(jar.received[name]),
        !jar.changes.dom().contains(name) && !jar.received.dom().contains(name) ==> jar.value(
            name,
        ) is None,
        jar.changes.dom().contains(name) ==> (jar.changes[name] matches CookieChange::Added(cookie)
            ==> jar.value(name) == Some(cookie.value)),
        jar.changes.dom().contains(name) && jar.changes[name] is Removed ==> jar.value(name)
            is None,
        jar::session_id(jar) == jar.value("AUTH_SESSION"@),
        SESSION_KEY@ == "AUTH_SESSION"@,
{
}

/// Every value of up to two to the power of thirty-six bytes can be put into a
/// cookie.
pub proof fn values_fit_into_cookies(value: Seq<char>)
    ensures
        jar::is_sealable(value) <==> vstd::utf8::encode_utf8(value).len() <= 68_719_476_736,
{
}

} // verus!
