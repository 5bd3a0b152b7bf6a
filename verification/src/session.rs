//! Cached sessions and their lifetime of one day.

use vstd::prelude::*;
use std::time::{Duration, SystemTime, SystemTimeError};

verus! {

/// `std::time::SystemTime`: a point in time on the system clock.
#[verifier::external_type_specification]
#[verifier::external_body]
pub struct ExSystemTime(SystemTime);

/// `std::time::SystemTimeError`: the failure of taking a difference of
/// two points in time.
#[verifier::external_type_specification]
#[verifier::external_body]
pub struct ExSystemTimeError(SystemTimeError);

/// `SystemTime::now`: the time of the system clock.
pub assume_specification[ SystemTime::now ]() -> SystemTime;

/// `SystemTime::duration_since`: the time elapsed since `earlier`, or an
/// error where `earlier` is the later of the two.
pub assume_specification[ SystemTime::duration_since ](
    this: &SystemTime,
    earlier: SystemTime,
) -> Result<Duration, SystemTimeError>;

/// `Duration::as_secs`: the whole seconds of a duration.
pub assume_specification[ Duration::as_secs ](this: &Duration) -> u64;

/// `SystemTime::UNIX_EPOCH`: the start of 1970 in UTC.
#[verifier::external_body]
fn unix_epoch() -> SystemTime {
    SystemTime::UNIX_EPOCH
}

/// The clock reading that stands for `elapsed`, the whole seconds from the
/// epoch to now: that number, held to the largest that fits, and 0 where
/// the clock stands before the epoch and there is no such number.
pub open spec fn clock_reading(elapsed: Option<u64>) -> i64 {
    match elapsed {
        Some(secs) => if secs > i64::MAX as u64 {
            i64::MAX
        } else {
            secs as i64
        },
        None => 0,
    }
}

/// The clock reading that stands for `elapsed`.
pub fn seconds_since_epoch(elapsed: Option<u64>) -> (secs: i64)
    ensures
        secs == clock_reading(elapsed),
        secs >= 0,
{
    match elapsed {
        Some(secs) => {
            if secs > i64::MAX as u64 {
                i64::MAX
            } else {
                secs as i64
            }
        },
        None => 0,
    }
}

/// Seconds since the epoch on the system clock; 0 where the clock stands
/// before the epoch. The clock decides the number: all that holds of
/// every reading is that it is not negative.
pub fn unix_now() -> (secs: i64)
    ensures
        secs >= 0,
{
    let now = SystemTime::now();
    let elapsed = match now.duration_since(unix_epoch()) {
        Ok(d) => Some(d.as_secs()),
        Err(_) => None,
    };
    seconds_since_epoch(elapsed)
}

/// How long a cached session stays valid: one day, in seconds.
pub const CACHE_DURATION_SECS: i64 = 86400;

/// What is kept of a login so that the next launch needs none.
#[derive(Debug, Clone)]
pub struct CachedSession {
    pub unique_id: String,
    pub region: i32,
    pub max_expansion: u32,
    /// When the session was created, in seconds since the epoch.
    pub created_at: i64,
}

impl CachedSession {
    /// A session is valid for less than a day after it was created.
    pub open spec fn valid_at(self, now: i64) -> bool {
        now - self.created_at < CACHE_DURATION_SECS
    }

    /// Seconds of validity left at `now`, capped at the largest number.
    pub open spec fn remaining_at(self, now: i64) -> int {
        let left = CACHE_DURATION_SECS - (now - self.created_at);
        if left < 0 {
            0
        } else if left > i64::MAX {
            i64::MAX as int
        } else {
            left
        }
    }

    /// Whether the session is valid at the time `now`.
    pub fn is_valid_at(&self, now: i64) -> (r: bool)
        ensures
            r == self.valid_at(now),
    {
        (now as i128) - (self.created_at as i128) < (CACHE_DURATION_SECS as i128)
    }

    /// Seconds of validity left at the time `now`; 0 once it has expired.
    pub fn remaining_secs_at(&self, now: i64) -> (r: i64)
        ensures
            r == self.remaining_at(now),
            r > 0 <==> self.valid_at(now),
    {
        let left: i128 = (CACHE_DURATION_SECS as i128) - ((now as i128) - (self.created_at as i128));
        if left < 0 {
            0
        } else if left > i64::MAX as i128 {
            i64::MAX
        } else {
            left as i64
        }
    }

    /// Whether the session is valid now.
    pub fn is_valid(&self) -> (r: bool)
        ensures
            exists|now: i64| r == #[trigger] self.valid_at(now),
    {
        let now = unix_now();
        let r = self.is_valid_at(now);
        assert(r == self.valid_at(now));
        r
    }

    /// Seconds of validity left now.
    pub fn remaining_secs(&self) -> (r: i64)
        ensures
            exists|now: i64| r == #[trigger] self.remaining_at(now),
    {
        let now = unix_now();
        let r = self.remaining_secs_at(now);
        assert(r == self.remaining_at(now));
        r
    }

    /// The session to use: the cached one if it is valid at `now`. An
    /// expired session counts as none.
    pub fn usable_at(cached: Option<CachedSession>, now: i64) -> (r: Option<CachedSession>)
        ensures
            r == (match cached {
                Some(s) => if s.valid_at(now) {
                    Some(s)
                } else {
                    None
                },
                None => None,
            }),
    {
        match cached {
            Some(s) => if s.is_valid_at(now) {
                Some(s)
            } else {
                None
            },
            None => None,
        }
    }
}

/// A session younger than a day is valid, one of a day or more is not.
pub proof fn lemma_session_validity(s: CachedSession, now: i64)
    ensures
        now - s.created_at < 24 * 60 * 60 ==> s.valid_at(now),
        now - s.created_at >= 24 * 60 * 60 ==> !s.valid_at(now),
{
}

} // verus!
