//! Dates as tokens hold them: whole seconds since the Unix epoch.

use crate::time::{UtcDateTime, MAX_TIMESTAMP, MIN_TIMESTAMP};
use vstd::prelude::*;

verus! {

/// The date that a token means by `timestamp`: that second, where it is a
/// second of a supported date.
pub open spec fn spec_deserialize(timestamp: i64) -> Option<UtcDateTime> {
    if MIN_TIMESTAMP <= timestamp <= MAX_TIMESTAMP {
        Some(UtcDateTime { secs: timestamp, nanos: 0 })
    } else {
        None
    }
}

/// The seconds that a token holds for `date`. What `date` has beyond whole
/// seconds is dropped.
pub fn serialize(date: &UtcDateTime) -> (timestamp: i64)
    ensures
        timestamp == date.secs,
{
    date.timestamp()
}

/// The date that a token means by `timestamp`, or `None` where that is no
/// second of a supported date.
pub fn deserialize(timestamp: i64) -> (date: Option<UtcDateTime>)
    ensures
        date == spec_deserialize(timestamp),
        date matches Some(dt) ==> dt.wf(),
{
    UtcDateTime::from_timestamp(timestamp, 0)
}

/// A date that was written and read again is the same date to the second.
pub proof fn lemma_written_date_reads_back(date: UtcDateTime)
    requires
        date.wf(),
    ensures
        spec_deserialize(date.secs) == Some(UtcDateTime { secs: date.secs, nanos: 0 }),
{
}

} // verus!
