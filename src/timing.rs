//! Deadlines and daily schedules, on wall-clock values.

use crate::error::Error;
use crate::model::Timestamp;
use vstd::prelude::*;

verus! {

/// Seconds in a day.
pub const SECONDS_PER_DAY: u32 = 86400;

/// Relies on std::time::SystemTime::now for the current wall-clock time; a
/// clock set before the Unix epoch reads as the epoch. Nothing is known of the
/// value.
#[verifier::external_body]
pub(crate) fn now() -> (r: Timestamp) {
    let since = std::time::SystemTime::now().duration_since(std::time::UNIX_EPOCH);
    Timestamp { millis: since.map_or(0, |d| d.as_millis() as u64) }
}

/// Whether the work may go on at `now` under `deadline`: an absent deadline
/// never passes, and a deadline passes at the moment it names.
pub fn check_at(now: Timestamp, deadline: Option<Timestamp>) -> (r: Result<(), Error>)
    ensures
        match deadline {
            None => r is Ok,
            Some(d) => if now.millis >= d.millis {
                r matches Err(Error::DeadlineExceeded(x)) && x == d
            } else {
                r is Ok
            },
        },
{
    match deadline {
        None => Ok(()),
        Some(d) => if now.millis >= d.millis {
            Err(Error::DeadlineExceeded(d))
        } else {
            Ok(())
        },
    }
}

/// Whether the work may go on now under `deadline`; fails with
/// `DeadlineExceeded` once the clock has reached it.
pub fn check(deadline: Option<Timestamp>) -> (r: Result<(), Error>)
    ensures
        deadline is None ==> r is Ok,
        r matches Err(e) ==> deadline matches Some(d) && e matches Error::DeadlineExceeded(x) && x == d,
{
    check_at(now(), deadline)
}

/// The second of the day, counted from the start of today, at which a daily
/// run is launched: at `time` (by default, at once), today if that has not
/// passed yet, else tomorrow.
pub fn desired_launch_at(now_of_day: u32, time: Option<u32>) -> (r: u64)
    requires
        now_of_day < SECONDS_PER_DAY,
        time matches Some(t) ==> t < SECONDS_PER_DAY,
    ensures
        ({
            let t = match time {
                Some(t) => t,
                None => now_of_day,
            };
            r == if t < now_of_day {
                t + SECONDS_PER_DAY
            } else {
                t as int
            }
        }),
{
    let t = match time {
        Some(t) => t,
        None => now_of_day,
    };
    if t < now_of_day {
        t as u64 + SECONDS_PER_DAY as u64
    } else {
        t as u64
    }
}

/// Seconds from `now_of_day` until the next launch at `time` of day.
pub fn duration_until(now_of_day: u32, time: Option<u32>) -> (r: u64)
    requires
        now_of_day < SECONDS_PER_DAY,
        time matches Some(t) ==> t < SECONDS_PER_DAY,
    ensures
        r < SECONDS_PER_DAY,
        ({
            let t = match time {
                Some(t) => t,
                None => now_of_day,
            };
            r == if t < now_of_day {
                t + SECONDS_PER_DAY - now_of_day
            } else {
                t - now_of_day
            }
        }),
{
    desired_launch_at(now_of_day, time) - now_of_day as u64
}

/// Whether a periodic run goes on after `iteration` runs, when at most
/// `at_most` are wanted; without a limit it stops only when the count is
/// exhausted.
pub fn should_repeat(iteration: usize, at_most: Option<usize>) -> (r: bool)
    ensures
        r == (iteration < match at_most {
            Some(m) => m,
            None => usize::MAX,
        }),
{
    let max_iterations = match at_most {
        Some(m) => m,
        None => usize::MAX,
    };
    iteration < max_iterations
}

} // verus!
