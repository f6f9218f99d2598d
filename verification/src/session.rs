//! Token responses, and the session made of one.

use vstd::prelude::*;

use crate::clock;
use crate::clock::{Timestamp, clock_now, token_expiration_at};
use crate::config::OAuthConfiguration;
use crate::text;
use crate::text::copy_optional;

verus! {

/// The provider's answer to an authorization code.
#[derive(Debug, PartialEq)]
pub struct AccessTokenResponse {
    pub id_token: String,
    pub access_token: String,
    pub token_type: String,
    /// The seconds until the access token expires.
    pub expires_in: Option<i64>,
    pub refresh_token: Option<String>,
    pub scope: Option<String>,
}

/// The provider's answer to a refresh token.
#[derive(Debug)]
pub struct RefreshTokenResponse {
    pub access_token: String,
    pub token_type: String,
    /// The seconds until the access token expires.
    pub expires_in: Option<i64>,
    pub refresh_token: Option<String>,
    pub scope: Option<String>,
    pub id_token: Option<String>,
}

/// A user's session.
#[derive(Debug)]
pub struct AuthSession {
    pub id_token: String,
    pub access_token: String,
    pub token_type: String,
    pub refresh_token: Option<String>,
    pub scope: Option<String>,
    /// When the access token expires; `None` where that is not tracked.
    pub expires: Option<Timestamp>,
}

/// The mathematical counterpart of [`AccessTokenResponse`].
pub struct AccessTokenModel {
    pub id_token: Seq<char>,
    pub access_token: Seq<char>,
    pub token_type: Seq<char>,
    pub expires_in: Option<i64>,
    pub refresh_token: Option<Seq<char>>,
    pub scope: Option<Seq<char>>,
}

/// The mathematical counterpart of [`RefreshTokenResponse`].
pub struct RefreshTokenModel {
    pub access_token: Seq<char>,
    pub token_type: Seq<char>,
    pub expires_in: Option<i64>,
    pub refresh_token: Option<Seq<char>>,
    pub scope: Option<Seq<char>>,
    pub id_token: Option<Seq<char>>,
}

/// The mathematical counterpart of [`AuthSession`].
pub struct SessionModel {
    pub id_token: Seq<char>,
    pub access_token: Seq<char>,
    pub token_type: Seq<char>,
    pub refresh_token: Option<Seq<char>>,
    pub scope: Option<Seq<char>>,
    pub expires: Option<Timestamp>,
}

impl View for AccessTokenResponse {
    type V = AccessTokenModel;

    open spec fn view(&self) -> AccessTokenModel {
        AccessTokenModel {
            id_token: self.id_token@,
            access_token: self.access_token@,
            token_type: self.token_type@,
            expires_in: self.expires_in,
            refresh_token: text::optional_text(self.refresh_token),
            scope: text::optional_text(self.scope),
        }
    }
}

impl View for RefreshTokenResponse {
    type V = RefreshTokenModel;

    open spec fn view(&self) -> RefreshTokenModel {
        RefreshTokenModel {
            access_token: self.access_token@,
            token_type: self.token_type@,
            expires_in: self.expires_in,
            refresh_token: text::optional_text(self.refresh_token),
            scope: text::optional_text(self.scope),
            id_token: text::optional_text(self.id_token),
        }
    }
}

impl View for AuthSession {
    type V = SessionModel;

    open spec fn view(&self) -> SessionModel {
        SessionModel {
            id_token: self.id_token@,
            access_token: self.access_token@,
            token_type: self.token_type@,
            refresh_token: text::optional_text(self.refresh_token),
            scope: text::optional_text(self.scope),
            expires: self.expires,
        }
    }
}

impl Clone for AccessTokenResponse {
    fn clone(&self) -> (copy: Self)
        ensures
            copy@ == self@,
    {
        AccessTokenResponse {
            id_token: self.id_token.clone(),
            access_token: self.access_token.clone(),
            token_type: self.token_type.clone(),
            expires_in: self.expires_in,
            refresh_token: copy_optional(&self.refresh_token),
            scope: copy_optional(&self.scope),
        }
    }
}

impl Clone for AuthSession {
    fn clone(&self) -> (copy: Self)
        ensures
            copy@ == self@,
    {
        AuthSession {
            id_token: self.id_token.clone(),
            access_token: self.access_token.clone(),
            token_type: self.token_type.clone(),
            refresh_token: copy_optional(&self.refresh_token),
            scope: copy_optional(&self.scope),
            expires: self.expires,
        }
    }
}

/// The session that a token response received at `now` opens.
pub open spec fn opened_session(
    now: Timestamp,
    response: AccessTokenModel,
    token_max_age: Option<i64>,
) -> SessionModel {
    SessionModel {
        id_token: response.id_token,
        access_token: response.access_token,
        token_type: response.token_type,
        refresh_token: response.refresh_token,
        scope: response.scope,
        expires: clock::expiration(now, response.expires_in, token_max_age),
    }
}

/// The session after its tokens were renewed at `now`. What the response leaves
/// out stays as it was.
pub open spec fn refreshed_session(
    now: Timestamp,
    session: SessionModel,
    response: RefreshTokenModel,
    token_max_age: Option<i64>,
) -> SessionModel {
    SessionModel {
        id_token: match response.id_token {
            Some(id_token) => id_token,
            None => session.id_token,
        },
        access_token: response.access_token,
        token_type: response.token_type,
        refresh_token: match response.refresh_token {
            Some(refresh_token) => Some(refresh_token),
            None => session.refresh_token,
        },
        scope: match response.scope {
            Some(scope) => Some(scope),
            None => session.scope,
        },
        expires: match clock::expiration(now, response.expires_in, token_max_age) {
            Some(expires) => Some(expires),
            None => session.expires,
        },
    }
}

/// The access token of a session has expired at `now`.
pub open spec fn is_expired(session: SessionModel, now: Timestamp) -> bool {
    session.expires matches Some(expires) && expires.is_at_or_before(now)
}

impl AuthSession {
    /// The session that a token response received at `now` opens.
    pub fn opened_at(
        now: Timestamp,
        response: &AccessTokenResponse,
        conf: &OAuthConfiguration,
    ) -> (session: AuthSession)
        requires
            now.is_reading(),
            clock::is_lifetime_bounded(response.expires_in, conf.token_max_age_seconds),
        ensures
            session@ == opened_session(now, response@, conf.token_max_age_seconds),
    {
        AuthSession {
            id_token: response.id_token.clone(),
            access_token: response.access_token.clone(),
            token_type: response.token_type.clone(),
            refresh_token: copy_optional(&response.refresh_token),
            scope: copy_optional(&response.scope),
            expires: token_expiration_at(now, response.expires_in, conf.token_max_age_seconds),
        }
    }

    /// The session that a token response received now opens.
    pub fn new(response: &AccessTokenResponse, conf: &OAuthConfiguration) -> (session: AuthSession)
        requires
            clock::is_lifetime_bounded(response.expires_in, conf.token_max_age_seconds),
        ensures
            exists|now: Timestamp| #[trigger]
                now.is_reading() && session@ == opened_session(
                    now,
                    response@,
                    conf.token_max_age_seconds,
                ),
    {
        AuthSession::opened_at(clock_now(), response, conf)
    }

    /// Tests whether the access token has expired at `now`.
    pub fn expired_at(&self, now: Timestamp) -> (expired: bool)
        ensures
            expired == is_expired(self@, now),
    {
        match self.expires {
            Some(expires) => expires.at_or_before(&now),
            None => false,
        }
    }

    /// The session after its tokens were renewed at `now`.
    pub fn refreshed_at(
        self,
        now: Timestamp,
        response: RefreshTokenResponse,
        token_max_age: Option<i64>,
    ) -> (session: AuthSession)
        requires
            now.is_reading(),
            clock::is_lifetime_bounded(response.expires_in, token_max_age),
        ensures
            session@ == refreshed_session(now, self@, response@, token_max_age),
    {
        AuthSession {
            id_token: match response.id_token {
                Some(id_token) => id_token,
                None => self.id_token,
            },
            access_token: response.access_token,
            token_type: response.token_type,
            refresh_token: match response.refresh_token {
                Some(refresh_token) => Some(refresh_token),
                None => self.refresh_token,
            },
            scope: match response.scope {
                Some(scope) => Some(scope),
                None => self.scope,
            },
            expires: match token_expiration_at(now, response.expires_in, token_max_age) {
                Some(expires) => Some(expires),
                None => self.expires,
            },
        }
    }
}

/// A renewal keeps what the provider's answer leaves out, and takes what it holds.
pub proof fn refresh_keeps_what_is_left_out(
    now: Timestamp,
    session: SessionModel,
    response: RefreshTokenModel,
    token_max_age: Option<i64>,
)
    ensures
        ({
            let after = refreshed_session(now, session, response, token_max_age);
            &&& after.access_token == response.access_token
            &&& after.token_type == response.token_type
            &&& response.refresh_token is None ==> after.refresh_token == session.refresh_token
            &&& response.refresh_token is Some ==> after.refresh_token == response.refresh_token
            &&& response.id_token is None ==> after.id_token == session.id_token
            &&& response.id_token is Some ==> Some(after.id_token) == response.id_token
            &&& response.scope is None ==> after.scope == session.scope
            &&& response.scope is Some ==> after.scope == response.scope
            &&& response.expires_in is None && token_max_age is None ==> after.expires
                == session.expires
        }),
{
}

/// A session that has just been opened has not expired.
pub proof fn opened_session_is_live(
    now: Timestamp,
    response: AccessTokenModel,
    token_max_age: Option<i64>,
)
    requires
        now.is_reading(),
        clock::is_lifetime_bounded(response.expires_in, token_max_age),
    ensures
        !is_expired(opened_session(now, response, token_max_age), now),
{
    clock::fresh_token_is_live(now, response.expires_in, token_max_age);
}

/// A session whose tokens have just been renewed has not expired, if their
/// lifetime is known.
pub proof fn refreshed_session_is_live(
    now: Timestamp,
    session: SessionModel,
    response: RefreshTokenModel,
    token_max_age: Option<i64>,
)
    requires
        now.is_reading(),
        clock::is_lifetime_bounded(response.expires_in, token_max_age),
        response.expires_in is Some || token_max_age is Some,
    ensures
        !is_expired(refreshed_session(now, session, response, token_max_age), now),
{
    clock::fresh_token_is_live(now, response.expires_in, token_max_age);
}

/// A session of which neither the provider nor the configuration limits the life
/// never expires.
pub proof fn untracked_session_never_expires(
    now: Timestamp,
    response: AccessTokenModel,
    later: Timestamp,
)
    requires
        response.expires_in is None,
    ensures
        !is_expired(opened_session(now, response, None), later),
{
}

/// Once the configured limit has passed, a session's token has expired, however
/// long the provider grants it.
pub proof fn token_expires_within_the_limit(
    now: Timestamp,
    response: AccessTokenModel,
    limit: i64,
    later: Timestamp,
)
    requires
        now.is_reading(),
        limit >= 1,
        clock::is_lifetime_bounded(response.expires_in, Some(limit)),
        later.seconds >= now.seconds + limit,
        later.nanos >= now.nanos,
    ensures
        is_expired(opened_session(now, response, Some(limit)), later),
{
}

} // verus!
