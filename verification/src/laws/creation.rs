//! Laws on creation times.

use vstd::prelude::*;

use crate::times;
use crate::times::{ClockTime, FallbackTimes, FileTimes};

verus! {

/// A number of seconds that a date and time can stand for.
pub open spec fn in_range(secs: int) -> bool {
    -8334601228800 <= secs <= 8210266876799
}

/// A creation time that is kept decides alone, and the seconds since the epoch are
/// kept as they are.  Before the epoch, and out of the range of dates, there is none.
pub proof fn law_kept_creation_time_decides(fallback: FallbackTimes, secs: u64)
    ensures
        times::creation_timestamp(
            FileTimes { created: Some(ClockTime::BeforeEpoch), fallback },
        ) is None,
        ({
            let created = times::creation_timestamp(
                FileTimes { created: Some(ClockTime::SinceEpoch(secs)), fallback },
            );
            &&& secs <= 8210266876799 ==> created == Some(secs as int)
            &&& 8210266876799 < secs < 0x1_0000_0000_0000_0000 - 8334601228800 ==> created is None
            &&& secs >= 0x1_0000_0000_0000_0000 - 8334601228800 ==> created == Some(
                secs - 0x1_0000_0000_0000_0000,
            )
        }),
{
}

/// Where no creation time is kept, on Unix the status change stands in for it if it
/// lies after the epoch, and otherwise the last modification if that does.
pub proof fn law_unix_times_stand_in(ctime: i64, mtime: i64)
    ensures
        ({
            let created = times::creation_timestamp(
                FileTimes { created: None, fallback: FallbackTimes::Unix { ctime, mtime } },
            );
            let secs = if ctime > 0 {
                ctime
            } else {
                mtime
            };
            &&& created is Some <==> secs > 0 && in_range(secs as int)
            &&& created matches Some(found) ==> found == secs
        }),
{
}

/// Elsewhere the last modification stands in for a creation time that is not kept,
/// as if it were the creation time.
pub proof fn law_modification_stands_in(modified: Option<ClockTime>)
    ensures
        ({
            let created = times::creation_timestamp(
                FileTimes { created: None, fallback: FallbackTimes::Other { modified } },
            );
            &&& modified is None ==> created is None
            &&& modified is Some ==> created == times::creation_timestamp(
                FileTimes { created: modified, fallback: FallbackTimes::Other { modified: None } },
            )
        }),
{
}

} // verus!
