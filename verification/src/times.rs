//! When a worktree was created, from the times that the file system keeps.

use chrono::TimeZone;
use vstd::prelude::*;

verus! {

/// The seconds since the epoch that a UTC date and time can stand for: from the
/// beginning of the year -262143 to the end of the year 262142.
pub open spec fn representable(secs: int) -> bool {
    -8334601228800 <= secs <= 8210266876799
}

/// `chrono`'s `Utc.timestamp_opt(secs, 0).single()`, as the seconds since the
/// epoch (`DateTime::timestamp`) of the date and time that it gives.  There is
/// one exactly where the year is in `chrono`'s range, and its timestamp is the
/// number of seconds that it was made from.
#[verifier::external_body]
fn utc_timestamp(secs: i64) -> (r: Option<i64>)
    ensures
        r == (if representable(secs as int) {
            Some(secs)
        } else {
            None
        }),
{
    chrono::Utc.timestamp_opt(secs, 0).single().map(|time| time.timestamp())
}

/// A reading of the system clock.
#[derive(Debug, Clone, Copy, PartialEq, Eq)]
pub enum ClockTime {
    /// Before the epoch.
    BeforeEpoch,
    /// This many whole seconds since the epoch.
    SinceEpoch(u64),
}

/// The times that stand in for a creation time that is not kept.
#[derive(Debug, Clone, Copy, PartialEq, Eq)]
pub enum FallbackTimes {
    /// On Unix: the seconds since the epoch of the last change of the file's
    /// status and of its contents.
    Unix { ctime: i64, mtime: i64 },
    /// Elsewhere: the last modification, where it is known.
    Other { modified: Option<ClockTime> },
}

/// The times of a file.
#[derive(Debug, Clone, Copy, PartialEq, Eq)]
pub struct FileTimes {
    /// The creation time, where the file system keeps it.
    pub created: Option<ClockTime>,
    pub fallback: FallbackTimes,
}

/// A number of seconds as a signed one, which wraps around at 2^63.
pub open spec fn signed(secs: u64) -> int {
    if secs <= i64::MAX {
        secs as int
    } else {
        secs - 0x1_0000_0000_0000_0000
    }
}

/// The number of seconds, where a UTC date and time can stand for it.
pub open spec fn timestamp(secs: int) -> Option<int> {
    if representable(secs) {
        Some(secs)
    } else {
        None
    }
}

/// The timestamp of a clock reading.
pub open spec fn clock_timestamp(time: ClockTime) -> Option<int> {
    match time {
        ClockTime::BeforeEpoch => None,
        ClockTime::SinceEpoch(secs) => timestamp(signed(secs)),
    }
}

/// An optional number of seconds as a mathematical integer.
pub open spec fn seconds(r: Option<i64>) -> Option<int> {
    match r {
        Some(secs) => Some(secs as int),
        None => None,
    }
}

/// The timestamp of a clock reading, if it is after the epoch and in range.
pub fn system_time_to_datetime(time: ClockTime) -> (r: Option<i64>)
    ensures
        seconds(r) == clock_timestamp(time),
{
    match time {
        ClockTime::BeforeEpoch => None,
        ClockTime::SinceEpoch(secs) => {
            let wrapped = secs as i64;
            assert(secs <= 0x7fff_ffff_ffff_ffffu64 ==> wrapped == secs) by (bit_vector)
                requires
                    wrapped == secs as i64,
            ;
            assert(secs > 0x7fff_ffff_ffff_ffffu64 ==> wrapped == secs - 0x1_0000_0000_0000_0000)
                by (bit_vector)
                requires
                    wrapped == secs as i64,
            ;
            utc_timestamp(wrapped)
        },
    }
}

/// When a file was created, in seconds since the epoch.  A creation time that is
/// kept decides alone.  Otherwise the first of the Unix times that lies after
/// the epoch does, or elsewhere the time of the last modification.
pub open spec fn creation_timestamp(times: FileTimes) -> Option<int> {
    match times.created {
        Some(time) => clock_timestamp(time),
        None => match times.fallback {
            FallbackTimes::Unix { ctime, mtime } => if ctime > 0 {
                timestamp(ctime as int)
            } else if mtime > 0 {
                timestamp(mtime as int)
            } else {
                None
            },
            FallbackTimes::Other { modified } => match modified {
                Some(time) => clock_timestamp(time),
                None => None,
            },
        },
    }
}

/// When a file was created, in seconds since the epoch, see [`creation_timestamp`].
pub fn metadata_created_at(times: &FileTimes) -> (r: Option<i64>)
    ensures
        seconds(r) == creation_timestamp(*times),
{
    if let Some(time) = times.created {
        return system_time_to_datetime(time);
    }
    match times.fallback {
        FallbackTimes::Unix { ctime, mtime } => {
            if ctime > 0 {
                return utc_timestamp(ctime);
            }
            if mtime > 0 {
                return utc_timestamp(mtime);
            }
            None
        },
        FallbackTimes::Other { modified } => match modified {
            Some(time) => system_time_to_datetime(time),
            None => None,
        },
    }
}

} // verus!
