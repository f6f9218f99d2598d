//! The jar of encrypted cookies that a request brings and a response changes.

use axum_extra::extract::PrivateCookieJar;
use axum_extra::extract::cookie::{Cookie, Key};
use http::HeaderMap;
use vstd::prelude::*;

use crate::config::{ConfigModel, OAuthConfiguration, SESSION_KEY};
use crate::cookies;
use crate::cookies::{
    CookieModel, SameSite, SessionCookie, build_session_cookie, seconds_of_minutes,
};
use crate::text;

verus! {

/// The value of a header.
#[verifier::external_type_specification]
#[verifier::external_body]
pub struct ExHeaderValue(http::HeaderValue);

/// The headers of a request.
#[verifier::external_type_specification]
#[verifier::external_body]
#[verifier::reject_recursive_types(T)]
pub struct ExHeaderMap<T>(http::HeaderMap<T>);

/// A jar whose cookies are encrypted under a key.
#[verifier::external_type_specification]
#[verifier::external_body]
#[verifier::reject_recursive_types(K)]
pub struct ExPrivateCookieJar<K>(axum_extra::extract::PrivateCookieJar<K>);

/// What a response does to one cookie.
pub enum CookieChange {
    /// Sets the cookie, its value encrypted.
    Added(CookieModel),
    /// Has the browser drop the cookie.
    Removed(CookieModel),
}

/// The cookies that a request brought, and what the response does to them, by
/// the name of the cookie.
#[verifier::ext_equal]
pub struct JarModel {
    pub received: Map<Seq<char>, Seq<char>>,
    pub changes: Map<Seq<char>, CookieChange>,
}

/// The names and values of the cookies in a request's headers that
/// `PrivateCookieJar::from_headers` can decrypt under the key.
pub uninterp spec fn opened_cookies(headers: HeaderMap, key: Key) -> Map<Seq<char>, Seq<char>>;

/// The decrypted cookies that a jar was made with.
pub uninterp spec fn jar_received(jar: PrivateCookieJar) -> Map<Seq<char>, Seq<char>>;

/// What has been added to a jar and removed from it since it was made.
pub uninterp spec fn jar_changes(jar: PrivateCookieJar) -> Map<Seq<char>, CookieChange>;

/// A response that leaves every cookie as it is.
pub open spec fn no_changes() -> Map<Seq<char>, CookieChange> {
    Map::empty()
}

/// The contents of a jar.
pub open spec fn jar_model(jar: PrivateCookieJar) -> JarModel {
    JarModel { received: jar_received(jar), changes: jar_changes(jar) }
}

/// A cookie can be encrypted: its value has no more than two to the power of
/// thirty-six bytes.
pub open spec fn is_sealable(value: Seq<char>) -> bool {
    vstd::utf8::encode_utf8(value).len() <= 0x10_0000_0000
}

impl JarModel {
    /// The jar of a request, before the response changes it.
    pub open spec fn of_request(headers: HeaderMap, key: Key) -> JarModel {
        JarModel { received: opened_cookies(headers, key), changes: no_changes() }
    }

    /// The value of a cookie: the one set last, or the one received.
    pub open spec fn value(self, name: Seq<char>) -> Option<Seq<char>> {
        if self.changes.dom().contains(name) {
            match self.changes[name] {
                CookieChange::Added(cookie) => Some(cookie.value),
                CookieChange::Removed(_) => None,
            }
        } else if self.received.dom().contains(name) {
            Some(self.received[name])
        } else {
            None
        }
    }

    /// The jar after a cookie was set.
    pub open spec fn with(self, cookie: CookieModel) -> JarModel {
        JarModel {
            changes: self.changes.insert(cookie.name, CookieChange::Added(cookie)),
            ..self
        }
    }

    /// The jar after a cookie was removed. A browser that did not send the cookie
    /// is told nothing.
    pub open spec fn without(self, cookie: CookieModel) -> JarModel {
        JarModel {
            changes: if self.received.dom().contains(cookie.name) {
                self.changes.insert(cookie.name, CookieChange::Removed(cookie))
            } else {
                self.changes.remove(cookie.name)
            },
            ..self
        }
    }
}

/// The jar of a request: `PrivateCookieJar::from_headers`. It holds the cookies
/// that can be decrypted under the key, and nothing is changed yet. Each decrypted
/// value is encrypted anew: without a source of random numbers, or on a cookie of
/// more bytes than can be encrypted, that panics.
#[verifier::external_body]
pub(crate) fn jar_from_headers(headers: &HeaderMap, key: Key) -> (jar: PrivateCookieJar)
    ensures
        jar_received(jar) == opened_cookies(*headers, key),
        jar_changes(jar) == no_changes(),
{
    PrivateCookieJar::from_headers(headers, key)
}

/// The value of a cookie: `PrivateCookieJar::get`. It is the decrypted value of
/// the cookie that was set last or, where none was set or removed, received.
/// Since the jar encrypted it, it is one that can be encrypted.
#[verifier::external_body]
pub(crate) fn jar_get(jar: &PrivateCookieJar, name: &str) -> (value: Option<String>)
    ensures
        text::optional_text(value) == jar_model(*jar).value(name@),
        value matches Some(value) ==> is_sealable(value@),
{
    jar.get(name).map(|cookie| cookie.value().to_owned())
}

/// The jar with a cookie set: `PrivateCookieJar::add`, which encrypts the value
/// and takes the place of an earlier change under the name. It panics on a value
/// that is too long to encrypt.
#[verifier::external_body]
pub(crate) fn jar_add(jar: PrivateCookieJar, cookie: SessionCookie) -> (changed: PrivateCookieJar)
    requires
        is_sealable(cookie.value@),
    ensures
        jar_received(changed) == jar_received(jar),
        jar_changes(changed) == jar_model(jar).with(cookie@).changes,
{
    let mut added = Cookie::new(cookie.name, cookie.value);
    added.set_path(cookie.path);
    added.set_http_only(cookie.http_only);
    added.set_same_site(match cookie.same_site {
        SameSite::Lax => axum_extra::extract::cookie::SameSite::Lax,
        SameSite::Strict => axum_extra::extract::cookie::SameSite::Strict,
    });
    added.set_secure(cookie.secure);
    added.set_max_age(cookie.max_age.map(time::Duration::seconds));
    jar.add(added)
}

/// The jar with a cookie removed: `PrivateCookieJar::remove`. Where the request
/// brought the cookie, the response has the browser drop it, under the attributes
/// given; else an earlier change under the name is dropped.
#[verifier::external_body]
pub(crate) fn jar_remove(jar: PrivateCookieJar, cookie: SessionCookie) -> (changed:
    PrivateCookieJar)
    ensures
        jar_received(changed) == jar_received(jar),
        jar_changes(changed) == jar_model(jar).without(cookie@).changes,
{
    let mut removed = Cookie::new(cookie.name, cookie.value);
    removed.set_path(cookie.path);
    removed.set_http_only(cookie.http_only);
    removed.set_same_site(match cookie.same_site {
        SameSite::Lax => axum_extra::extract::cookie::SameSite::Lax,
        SameSite::Strict => axum_extra::extract::cookie::SameSite::Strict,
    });
    removed.set_secure(cookie.secure);
    removed.set_max_age(cookie.max_age.map(time::Duration::seconds));
    jar.remove(removed)
}

/// The session identifier in a request's cookies.
pub open spec fn session_id(jar: JarModel) -> Option<Seq<char>> {
    jar.value(SESSION_KEY@)
}

/// Reads the session identifier.
pub fn read_session_id(jar: &PrivateCookieJar) -> (id: Option<String>)
    ensures
        text::optional_text(id) == session_id(jar_model(*jar)),
        id matches Some(id) ==> is_sealable(id@),
{
    jar_get(jar, SESSION_KEY)
}

/// The cookie that holds a session's identifier for as long as the session lives.
pub open spec fn renewed_cookie(config: ConfigModel, id: Seq<char>) -> CookieModel {
    cookies::session_cookie(
        SESSION_KEY@,
        Some(id),
        config.lax_same_site,
        config.secure_cookies,
        Some(config.session_seconds() as i64),
    )
}

/// The cookie that has the browser drop the session's identifier.
pub open spec fn dropped_cookie(config: ConfigModel) -> CookieModel {
    cookies::session_cookie(
        SESSION_KEY@,
        None,
        config.lax_same_site,
        config.secure_cookies,
        None,
    )
}

/// Sets the session cookie in a response, for as long as the session lives.
pub fn renew_session_cookie(config: &OAuthConfiguration, jar: PrivateCookieJar, id: String) -> (
    changed: PrivateCookieJar)
    requires
        config@.is_session_age_bounded(),
        is_sealable(id@),
    ensures
        jar_model(changed) == jar_model(jar).with(renewed_cookie(config@, id@)),
{
    let max_age: i64 = seconds_of_minutes(config.session_max_age_minutes);
    jar_add(
        jar,
        build_session_cookie(
            SESSION_KEY,
            Some(id),
            config.lax_same_site,
            config.secure_cookies,
            Some(max_age),
        ),
    )
}

/// Removes the session cookie in a response.
pub fn drop_session_cookie(config: &OAuthConfiguration, jar: PrivateCookieJar) -> (changed:
    PrivateCookieJar)
    ensures
        jar_model(changed) == jar_model(jar).without(dropped_cookie(config@)),
{
    jar_remove(
        jar,
        build_session_cookie(
            SESSION_KEY,
            None,
            config.lax_same_site,
            config.secure_cookies,
            None,
        ),
    )
}

/// A cookie that was set is read back.
pub proof fn set_cookie_is_read_back(jar: JarModel, cookie: CookieModel)
    ensures
        jar.with(cookie).value(cookie.name) == Some(cookie.value),
{
}

/// A cookie that was removed is gone, whether or not the request brought it.
pub proof fn removed_cookie_is_gone(jar: JarModel, cookie: CookieModel)
    ensures
        jar.without(cookie).value(cookie.name) is None,
{
}

/// Setting and removing a cookie leave the other cookies alone.
pub proof fn other_cookies_stay(jar: JarModel, cookie: CookieModel, name: Seq<char>)
    requires
        name != cookie.name,
    ensures
        jar.with(cookie).value(name) == jar.value(name),
        jar.without(cookie).value(name) == jar.value(name),
{
}

} // verus!
