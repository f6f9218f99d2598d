//! Laws of times and lifetimes.

use vstd::prelude::*;

use crate::clock;
use crate::clock::Timestamp;
use crate::config::ConfigModel;
use crate::session;
use crate::session::{AccessTokenModel, RefreshTokenModel, SessionModel};

verus! {

/// The longest lifetime that a duration in milliseconds can hold, in seconds.
pub open spec fn longest() -> int {
    i64::MAX as int / 1000
}

/// A time that the clock can show.
pub open spec fn is_shown(now: Timestamp) -> bool {
    -0x800_0000_0000 <= now.seconds <= 0x800_0000_0000 && now.nanos < 1_000_000_000
}

/// The lifetime under a grant and a limit is one that a duration can hold.
pub open spec fn is_short_enough(granted: Option<i64>, limit: Option<i64>) -> bool {
    ||| granted is None && limit is None
    ||| granted matches Some(granted) && granted - 1 <= longest()
    ||| limit matches Some(limit) && limit <= longest()
}

/// `expires` lies the longest time after `now` that both the grant, less a second,
/// and the limit allow, in whole seconds and at least one. It is absent where
/// neither is known.
pub open spec fn expires_in_time(
    now: Timestamp,
    expires: Option<Timestamp>,
    granted: Option<i64>,
    limit: Option<i64>,
) -> bool {
    match expires {
        None => granted is None && limit is None,
        Some(expires) => {
            let lives = expires.seconds - now.seconds;
            &&& granted is Some || limit is Some
            &&& expires.nanos == now.nanos
            &&& lives >= 1
            &&& granted matches Some(granted) ==> lives == 1 || lives <= granted - 1
            &&& limit matches Some(limit) ==> lives == 1 || lives <= limit
            &&& lives > 1 ==> (granted matches Some(granted) && lives == granted - 1) || (
            limit matches Some(limit) && lives == limit)
            &&& lives == 1 ==> (granted matches Some(granted) && granted <= 2) || (
            limit matches Some(limit) && limit <= 1)
        },
    }
}

/// A token expires the longest time after it was obtained that the provider's
/// grant, less a second, and the configured limit allow, and after a second at
/// the earliest; where neither is known, its expiry is not tracked.
pub proof fn token_expires_in_time(now: Timestamp, granted: Option<i64>, limit: Option<i64>)
    requires
        is_shown(now),
        is_short_enough(granted, limit),
    ensures
        expires_in_time(now, clock::expiration(now, granted, limit), granted, limit),
{
}

/// The expiry is fixed by what is known: with a grant of more than a second alone
/// it is a second before the grant ends, with a limit of at least one alone it is
/// the limit, and with both it is the earlier one.
pub proof fn earlier_bound_decides(now: Timestamp, granted: i64, limit: i64)
    requires
        is_shown(now),
        1 < granted <= longest(),
        1 <= limit <= longest(),
    ensures
        clock::expiration(now, Some(granted), None) matches Some(by_grant)
            && clock::expiration(now, None, Some(limit)) matches Some(by_limit)
            && clock::expiration(now, Some(granted), Some(limit)) matches Some(by_both)
            && by_grant.seconds == now.seconds + granted - 1 && by_limit.seconds == now.seconds
            + limit && by_both == (if granted - 1 < limit {
            by_grant
        } else {
            by_limit
        }) && by_grant.nanos == now.nanos && by_limit.nanos == now.nanos,
{
}

/// Every lifetime that a duration can hold is accepted, and every time that the
/// clock can show.
pub proof fn lifetimes_are_accepted(now: Timestamp, granted: Option<i64>, limit: Option<i64>)
    ensures
        clock::is_lifetime_bounded(granted, limit) <==> is_short_enough(granted, limit),
        now.is_reading() <==> is_shown(now),
{
}

/// Times are ordered as the nanoseconds since the epoch are, and a time that is
/// put off by some seconds is later by as many.
pub proof fn times_are_ordered_by_nanoseconds(a: Timestamp, b: Timestamp, seconds: int)
    requires
        a.nanos < 1_000_000_000,
        b.nanos < 1_000_000_000,
        i64::MIN <= a.seconds + seconds <= i64::MAX,
    ensures
        a.is_at_or_before(b) <==> a.seconds * 1_000_000_000 + a.nanos <= b.seconds * 1_000_000_000
            + b.nanos,
        a.is_before(b) <==> a.seconds * 1_000_000_000 + a.nanos < b.seconds * 1_000_000_000
            + b.nanos,
        a.later_by(seconds).seconds == a.seconds + seconds,
        a.later_by(seconds).nanos == a.nanos,
{
}

/// A session that is opened holds the tokens of the answer, each as it came, and
/// expires in time.
pub proof fn opened_session_holds_the_tokens(
    now: Timestamp,
    response: AccessTokenModel,
    limit: Option<i64>,
)
    requires
        is_shown(now),
        is_short_enough(response.expires_in, limit),
    ensures
        ({
            let opened = session::opened_session(now, response, limit);
            &&& opened.id_token == response.id_token
            &&& opened.access_token == response.access_token
            &&& opened.token_type == response.token_type
            &&& opened.refresh_token == response.refresh_token
            &&& opened.scope == response.scope
            &&& expires_in_time(now, opened.expires, response.expires_in, limit)
        }),
{
}

/// A session whose tokens are renewed expires in time once more: wherever the
/// answer grants a time or a limit is configured, the expiry is set anew, the
/// longest time after now that both allow. Only where neither is known does it
/// stay as it was.
pub proof fn renewed_session_expires_in_time(
    now: Timestamp,
    session: SessionModel,
    response: RefreshTokenModel,
    limit: Option<i64>,
)
    requires
        is_shown(now),
        is_short_enough(response.expires_in, limit),
    ensures
        ({
            let renewed = session::refreshed_session(now, session, response, limit);
            if response.expires_in is None && limit is None {
                renewed.expires == session.expires
            } else {
                &&& renewed.expires is Some
                &&& expires_in_time(now, renewed.expires, response.expires_in, limit)
            }
        }),
{
}

/// A renewed session has expired at every time from the end of its tokens' life
/// on, and at none before: what the provider grants, less a second, where there is
/// no limit, and the limit where that is shorter or stands alone.
pub proof fn renewed_session_expires_again(
    now: Timestamp,
    session: SessionModel,
    response: RefreshTokenModel,
    limit: Option<i64>,
    end: int,
    later: Timestamp,
)
    requires
        is_shown(now),
        is_short_enough(response.expires_in, limit),
        response.expires_in is Some || limit is Some,
        response.expires_in matches Some(granted) ==> granted > 1,
        limit matches Some(limit) ==> limit >= 1,
        end == (match (response.expires_in, limit) {
            (Some(granted), Some(limit)) => if granted - 1 < limit {
                granted - 1
            } else {
                limit as int
            },
            (Some(granted), None) => granted - 1,
            (None, Some(limit)) => limit as int,
            (None, None) => 0,
        }),
    ensures
        session::is_expired(session::refreshed_session(now, session, response, limit), later)
            <==> later.seconds > now.seconds + end || (later.seconds == now.seconds + end
            && later.nanos >= now.nanos),
{
}

/// The tokens of a renewed session are those of the answer; what the answer leaves
/// out, and only that, stays.
pub proof fn renewed_session_holds_the_tokens(
    now: Timestamp,
    session: SessionModel,
    response: RefreshTokenModel,
    limit: Option<i64>,
)
    ensures
        ({
            let renewed = session::refreshed_session(now, session, response, limit);
            &&& renewed.access_token == response.access_token
            &&& renewed.token_type == response.token_type
            &&& response.refresh_token matches Some(token) ==> renewed.refresh_token == Some(token)
            &&& response.refresh_token is None ==> renewed.refresh_token == session.refresh_token
            &&& response.scope matches Some(scope) ==> renewed.scope == Some(scope)
            &&& response.scope is None ==> renewed.scope == session.scope
            &&& response.id_token matches Some(token) ==> renewed.id_token == token
            &&& response.id_token is None ==> renewed.id_token == session.id_token
        }),
{
}

/// A session has expired from its expiry on, and never where that is not tracked.
pub proof fn session_expires_at_its_expiry(session: SessionModel, now: Timestamp)
    ensures
        session.expires is None ==> !session::is_expired(session, now),
        session.expires matches Some(expires) ==> (session::is_expired(session, now) <==> (
        expires.seconds < now.seconds || (expires.seconds == now.seconds && expires.nanos
            <= now.nanos))),
{
}

/// A session lives sixty seconds for each minute configured, and every number of
/// minutes whose seconds fit is accepted.
pub proof fn a_minute_has_sixty_seconds(config: ConfigModel)
    ensures
        config.session_seconds() == 60 * config.session_max_age_minutes,
        config.is_session_age_bounded() <==> i64::MIN <= 60 * config.session_max_age_minutes
            <= i64::MAX,
{
}

} // verus!
