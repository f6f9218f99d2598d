//! Points in time, and when a token expires.

use vstd::prelude::*;

verus! {

/// A point in time: whole seconds since the Unix epoch and the nanoseconds
/// past them.
#[derive(Debug, Clone, Copy, PartialEq, Eq, Structural)]
pub struct Timestamp {
    /// Whole seconds since the Unix epoch.
    pub seconds: i64,
    /// Nanoseconds past the whole seconds.
    pub nanos: u32,
}

/// A bound on the distance of every calendar date from the Unix epoch, in seconds.
pub const CALENDAR_BOUND: i64 = 0x800_0000_0000;

/// The longest lifetime that a token can be given, in seconds: a duration is
/// held in milliseconds.
pub const LONGEST_LIFETIME: i64 = 9_223_372_036_854_775;

impl Timestamp {
    /// A time that the clock can show.
    pub open spec fn is_reading(self) -> bool {
        -CALENDAR_BOUND <= self.seconds <= CALENDAR_BOUND && self.nanos < 1_000_000_000
    }

    /// Not later than `other`.
    pub open spec fn is_at_or_before(self, other: Timestamp) -> bool {
        self.seconds < other.seconds || (self.seconds == other.seconds && self.nanos
            <= other.nanos)
    }

    /// Earlier than `other`.
    pub open spec fn is_before(self, other: Timestamp) -> bool {
        !other.is_at_or_before(self)
    }

    /// The time `seconds` seconds later.
    pub open spec fn later_by(self, seconds: int) -> Timestamp {
        Timestamp { seconds: (self.seconds + seconds) as i64, nanos: self.nanos }
    }

    /// Tests whether this time is not later than `other`.
    pub fn at_or_before(&self, other: &Timestamp) -> (result: bool)
        ensures
            result == self.is_at_or_before(*other),
    {
        self.seconds < other.seconds || (self.seconds == other.seconds && self.nanos
            <= other.nanos)
    }
}

/// The whole seconds that a token lives: one second less than the provider
/// grants, no more than the configured limit, and at least one. None where
/// neither is known.
pub open spec fn token_lifetime(expires_in: Option<i64>, token_max_age: Option<i64>) -> Option<
    int,
> {
    match (expires_in, token_max_age) {
        (None, None) => None,
        (Some(granted), None) => Some(at_least_one(granted - 1)),
        (None, Some(limit)) => Some(at_least_one(limit as int)),
        (Some(granted), Some(limit)) => Some(
            at_least_one(
                if granted - 1 < limit {
                    granted - 1
                } else {
                    limit as int
                },
            ),
        ),
    }
}

/// `seconds`, or one where that is less.
pub open spec fn at_least_one(seconds: int) -> int {
    if seconds < 1 {
        1
    } else {
        seconds
    }
}

/// The lifetime, where one is known, is no longer than a token can be given.
pub open spec fn is_lifetime_bounded(
    expires_in: Option<i64>,
    token_max_age: Option<i64>,
) -> bool {
    token_lifetime(expires_in, token_max_age) matches Some(seconds) ==> seconds
        <= LONGEST_LIFETIME
}

/// When a token obtained at `now` expires.
pub open spec fn expiration(
    now: Timestamp,
    expires_in: Option<i64>,
    token_max_age: Option<i64>,
) -> Option<Timestamp> {
    match token_lifetime(expires_in, token_max_age) {
        Some(seconds) => Some(now.later_by(seconds)),
        None => None,
    }
}

/// Tests whether a lifetime, where one is known, is no longer than a token can be
/// given.
pub fn lifetime_fits(expires_in: Option<i64>, token_max_age: Option<i64>) -> (fits: bool)
    ensures
        fits == is_lifetime_bounded(expires_in, token_max_age),
{
    match (expires_in, token_max_age) {
        (None, None) => true,
        (Some(granted), None) => granted <= LONGEST_LIFETIME + 1,
        (None, Some(limit)) => limit <= LONGEST_LIFETIME,
        (Some(granted), Some(limit)) => granted <= LONGEST_LIFETIME + 1 || limit
            <= LONGEST_LIFETIME,
    }
}

/// When a token obtained at `now` expires; see [`expiration`].
pub fn token_expiration_at(
    now: Timestamp,
    expires_in: Option<i64>,
    token_max_age: Option<i64>,
) -> (expires: Option<Timestamp>)
    requires
        now.is_reading(),
        is_lifetime_bounded(expires_in, token_max_age),
    ensures
        expires == expiration(now, expires_in, token_max_age),
{
    let wanted: i64 = match (expires_in, token_max_age) {
        (None, None) => return None,
        (Some(granted), None) => if granted < 1 {
            0
        } else {
            granted - 1
        },
        (None, Some(limit)) => limit,
        (Some(granted), Some(limit)) => if granted <= limit {
            if granted < 1 {
                0
            } else {
                granted - 1
            }
        } else {
            limit
        },
    };
    let seconds: i64 = if wanted < 1 {
        1
    } else {
        wanted
    };
    Some(Timestamp { seconds: now.seconds + seconds, nanos: now.nanos })
}

/// Reads the clock: `chrono::Local::now`. The time returned lies within the
/// calendar, whose dates are all within [`CALENDAR_BOUND`] of the epoch, and its
/// nanoseconds stay below one second. Which time it is, is left open.
#[verifier::external_body]
pub(crate) fn clock_now() -> (now: Timestamp)
    ensures
        now.is_reading(),
{
    let now = chrono::Local::now();
    Timestamp { seconds: now.timestamp(), nanos: now.timestamp_subsec_nanos() }
}

/// When a token obtained now expires: the present time and the lifetime that
/// [`token_lifetime`] gives, or `None` where no lifetime is known.
pub fn calculate_token_expiration(
    expires_in: Option<i64>,
    token_max_age: Option<i64>,
) -> (expires: Option<Timestamp>)
    requires
        is_lifetime_bounded(expires_in, token_max_age),
    ensures
        exists|now: Timestamp|
            #[trigger] now.is_reading() && expires == expiration(now, expires_in, token_max_age),
{
    token_expiration_at(clock_now(), expires_in, token_max_age)
}

/// A lifetime is known exactly where the provider grants one or a limit is
/// configured. It is at least one second, shorter than a grant of more than one
/// second, and within a limit of at least one second.
pub proof fn lifetime_keeps_its_bounds(expires_in: Option<i64>, token_max_age: Option<i64>)
    ensures
        token_lifetime(expires_in, token_max_age) is None <==> expires_in is None
            && token_max_age is None,
        token_lifetime(expires_in, token_max_age) matches Some(seconds) ==> {
            &&& seconds >= 1
            &&& expires_in matches Some(granted) ==> granted > 1 ==> seconds < granted
            &&& token_max_age matches Some(limit) ==> limit >= 1 ==> seconds <= limit
        },
{
}

/// A token that has just been obtained has not expired yet.
pub proof fn fresh_token_is_live(
    now: Timestamp,
    expires_in: Option<i64>,
    token_max_age: Option<i64>,
)
    requires
        now.is_reading(),
        is_lifetime_bounded(expires_in, token_max_age),
    ensures
        expiration(now, expires_in, token_max_age) matches Some(expires) ==> now.is_before(expires),
{
}

} // verus!
