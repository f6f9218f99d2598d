//! The session cookie.
//!
//! The cookie is set after a login and renewed with every request, and removed
//! on a logout. All of these build it here, so that its attributes agree.

use vstd::prelude::*;

verus! {

/// Whether a cookie is sent along when the user comes from another site.
#[derive(Debug, Clone, Copy, PartialEq, Eq, Structural)]
pub enum SameSite {
    /// Only with a navigation to this site.
    Lax,
    /// Never.
    Strict,
}

/// A cookie to set or to remove.
#[derive(Debug)]
pub struct SessionCookie {
    pub name: &'static str,
    /// The value in the clear; empty in a cookie to remove.
    pub value: String,
    pub path: &'static str,
    pub http_only: bool,
    pub same_site: SameSite,
    pub secure: bool,
    /// The seconds that the cookie lives.
    pub max_age: Option<i64>,
}

/// The mathematical counterpart of [`SessionCookie`].
pub struct CookieModel {
    pub name: Seq<char>,
    pub value: Seq<char>,
    pub path: Seq<char>,
    pub http_only: bool,
    pub same_site: SameSite,
    pub secure: bool,
    pub max_age: Option<i64>,
}

impl View for SessionCookie {
    type V = CookieModel;

    open spec fn view(&self) -> CookieModel {
        CookieModel {
            name: self.name@,
            value: self.value@,
            path: self.path@,
            http_only: self.http_only,
            same_site: self.same_site,
            secure: self.secure,
            max_age: self.max_age,
        }
    }
}

/// The cookie of that name and value that the given policy asks for.
pub open spec fn session_cookie(
    name: Seq<char>,
    value: Option<Seq<char>>,
    lax_same_site: bool,
    secure_cookies: bool,
    max_age: Option<i64>,
) -> CookieModel {
    CookieModel {
        name,
        value: match value {
            Some(value) => value,
            None => Seq::empty(),
        },
        path: "/"@,
        http_only: true,
        same_site: if lax_same_site {
            SameSite::Lax
        } else {
            SameSite::Strict
        },
        secure: secure_cookies,
        max_age,
    }
}

/// Builds a cookie with the attributes of the session cookie: the path `/`,
/// `HttpOnly`, `SameSite` as asked, and `Secure` as asked. Without a value it is
/// a cookie to remove. Without a `max_age`, in seconds, it has none.
pub fn build_session_cookie(
    name: &'static str,
    value: Option<String>,
    lax_same_site: bool,
    secure_cookies: bool,
    max_age: Option<i64>,
) -> (cookie: SessionCookie)
    ensures
        cookie@ == session_cookie(
            name@,
            crate::text::optional_text(value),
            lax_same_site,
            secure_cookies,
            max_age,
        ),
{
    SessionCookie {
        name,
        value: match value {
            Some(value) => value,
            None => String::new(),
        },
        path: "/",
        http_only: true,
        same_site: if lax_same_site {
            SameSite::Lax
        } else {
            SameSite::Strict
        },
        secure: secure_cookies,
        max_age,
    }
}

/// The seconds in so many minutes: `time::Duration::minutes`, which panics where
/// they do not fit, and `whole_seconds`.
#[verifier::external_body]
pub(crate) fn seconds_of_minutes(minutes: i64) -> (seconds: i64)
    requires
        i64::MIN <= minutes * 60 <= i64::MAX,
    ensures
        seconds == minutes * 60,
{
    time::Duration::minutes(minutes).whole_seconds()
}

/// Whatever their values and ages, two cookies that are built under one name and
/// one policy agree in everything by which a browser finds a cookie again, and
/// in every other attribute.
pub proof fn cookies_of_one_policy_agree(
    name: Seq<char>,
    lax_same_site: bool,
    secure_cookies: bool,
    value: Option<Seq<char>>,
    max_age: Option<i64>,
    other_value: Option<Seq<char>>,
    other_max_age: Option<i64>,
)
    ensures
        ({
            let cookie = session_cookie(name, value, lax_same_site, secure_cookies, max_age);
            let other = session_cookie(
                name,
                other_value,
                lax_same_site,
                secure_cookies,
                other_max_age,
            );
            &&& cookie.name == other.name
            &&& cookie.path == other.path
            &&& cookie.http_only == other.http_only
            &&& cookie.same_site == other.same_site
            &&& cookie.secure == other.secure
        }),
{
}

} // verus!
