//! Instants as seconds and nanoseconds since the Unix epoch: the clock, the
//! local offset, shifts by days and hours, differences, and formatting.

use ::chrono::{DateTime, FixedOffset, Local, Utc};
use vstd::prelude::*;

verus! {

/// The earliest second that an instant can hold: the first second of the
/// year -262143.
pub const MIN_TIMESTAMP: i64 = -8_334_601_228_800;

/// The latest second that an instant can hold: the last second of the year
/// 262142.
pub const MAX_TIMESTAMP: i64 = 8_210_266_876_799;

/// Nanoseconds in a second.
pub const NANOS_PER_SECOND: u32 = 1_000_000_000;

/// Seconds in a day.
pub const SECONDS_PER_DAY: i64 = 86_400;

/// Seconds in an hour.
pub const SECONDS_PER_HOUR: i64 = 3_600;

/// An instant in UTC: whole seconds since the Unix epoch, and the
/// nanoseconds into that second.
#[derive(Clone, Copy, Debug, PartialEq, Eq)]
pub struct UtcDateTime {
    pub secs: i64,
    pub nanos: u32,
}

/// An instant together with the offset of a local clock from UTC, in seconds
/// east of Greenwich. `secs` and `nanos` count in UTC.
#[derive(Clone, Copy, Debug, PartialEq, Eq)]
pub struct LocalDateTime {
    pub secs: i64,
    pub nanos: u32,
    pub offset: i32,
}

/// Seconds and nanoseconds that make an instant in the supported range.
pub open spec fn valid_instant(secs: int, nanos: int) -> bool {
    &&& MIN_TIMESTAMP <= secs <= MAX_TIMESTAMP
    &&& 0 <= nanos < NANOS_PER_SECOND
}

/// An offset from UTC of less than a day either way.
pub open spec fn valid_offset(offset: int) -> bool {
    -SECONDS_PER_DAY < offset < SECONDS_PER_DAY
}

/// Nanoseconds since the Unix epoch.
pub open spec fn total_nanos(secs: int, nanos: int) -> int {
    secs * NANOS_PER_SECOND + nanos
}

/// The whole seconds in a span of nanoseconds, rounded towards zero.
pub open spec fn whole_seconds(nanos: int) -> int {
    if nanos >= 0 {
        nanos / (NANOS_PER_SECOND as int)
    } else {
        -((-nanos) / (NANOS_PER_SECOND as int))
    }
}

/// The text that `chrono` writes for an instant at an offset under a
/// `strftime` pattern, or `None` where it cannot: the pattern is malformed,
/// or asks for a form that does not exist for this date.
pub uninterp spec fn strftime(secs: int, nanos: int, offset: int, pattern: Seq<char>) -> Option<
    Seq<char>,
>;

impl UtcDateTime {
    /// The instant lies in the supported range.
    pub open spec fn wf(&self) -> bool {
        valid_instant(self.secs as int, self.nanos as int)
    }

    /// The instant `secs` seconds and `nanos` nanoseconds after the epoch, if
    /// that lies in the supported range.
    pub fn from_timestamp(secs: i64, nanos: u32) -> (instant: Option<UtcDateTime>)
        ensures
            instant is Some <==> valid_instant(secs as int, nanos as int),
            instant matches Some(dt) ==> dt.secs == secs && dt.nanos == nanos,
    {
        if MIN_TIMESTAMP <= secs && secs <= MAX_TIMESTAMP && nanos < NANOS_PER_SECOND {
            Some(UtcDateTime { secs, nanos })
        } else {
            None
        }
    }

    /// The instant for seconds and nanoseconds in which a leap second may be
    /// written as `chrono` writes it: as a second or more of nanoseconds on
    /// the second before. The library counts no leap seconds, so such an
    /// instant becomes the last nanosecond of its second.
    pub fn from_timestamp_folded(secs: i64, nanos: u32) -> (instant: Option<UtcDateTime>)
        ensures
            instant is Some <==> MIN_TIMESTAMP <= secs <= MAX_TIMESTAMP && nanos < 2
                * NANOS_PER_SECOND,
            instant matches Some(dt) ==> dt.wf() && dt.secs == secs && dt.nanos == if nanos
                < NANOS_PER_SECOND {
                nanos
            } else {
                (NANOS_PER_SECOND - 1) as u32
            },
    {
        if nanos < NANOS_PER_SECOND {
            UtcDateTime::from_timestamp(secs, nanos)
        } else if nanos - NANOS_PER_SECOND < NANOS_PER_SECOND {
            UtcDateTime::from_timestamp(secs, NANOS_PER_SECOND - 1)
        } else {
            None
        }
    }

    /// Whole seconds since the epoch.
    pub fn timestamp(&self) -> (secs: i64)
        ensures
            secs == self.secs,
    {
        self.secs
    }

    /// Whole milliseconds since the epoch.
    pub fn timestamp_millis(&self) -> (millis: i64)
        requires
            self.wf(),
        ensures
            millis == self.secs * 1000 + self.nanos / 1_000_000,
    {
        self.secs * 1000 + (self.nanos / 1_000_000) as i64
    }
}

impl LocalDateTime {
    /// The instant lies in the supported range and the offset is less than a
    /// day.
    pub open spec fn wf(&self) -> bool {
        &&& valid_instant(self.secs as int, self.nanos as int)
        &&& valid_offset(self.offset as int)
    }

    /// What [`format`] writes for this instant under `pattern`, if anything.
    pub open spec fn formatted(&self, pattern: Seq<char>) -> Option<Seq<char>> {
        strftime(self.secs as int, self.nanos as int, self.offset as int, pattern)
    }
}

/// `chrono::Utc::now`, read as its timestamp and the nanoseconds into the
/// second. `chrono` takes the system clock, which it expects not to stand
/// before the epoch, and hands out only instants of its own range.
#[verifier::external_body]
fn system_clock() -> (now: (i64, u32))
    ensures
        0 <= now.0 <= MAX_TIMESTAMP,
        now.1 < NANOS_PER_SECOND,
{
    let now = Utc::now();
    (now.timestamp(), now.timestamp_subsec_nanos())
}

/// The offset that `chrono::Local` gives to an instant: seconds east of
/// Greenwich on this machine's clock, always less than a day.
#[verifier::external_body]
fn local_offset(secs: i64, nanos: u32) -> (offset: i32)
    requires
        valid_instant(secs as int, nanos as int),
    ensures
        valid_offset(offset as int),
{
    DateTime::from_timestamp(secs, nanos).unwrap().with_timezone(&Local).offset().local_minus_utc()
}

/// `DateTime::format` on the instant at the offset, written out with the
/// formatter's `write_to`, which fails where `to_string` would panic. The
/// text depends on instant, offset and pattern alone.
#[verifier::external_body]
fn write_formatted(secs: i64, nanos: u32, offset: i32, pattern: &str) -> (text: Option<String>)
    requires
        valid_instant(secs as int, nanos as int),
        valid_offset(offset as int),
    ensures
        text is Some <==> strftime(secs as int, nanos as int, offset as int, pattern@) is Some,
        text matches Some(written) ==> strftime(secs as int, nanos as int, offset as int, pattern@)
            == Some(written@),
{
    let zone = FixedOffset::east_opt(offset).unwrap();
    let instant = DateTime::from_timestamp(secs, nanos).unwrap().with_timezone(&zone);
    let mut text = String::new();
    instant.format(pattern).write_to(&mut text).ok().map(|_| text)
}

/// The current instant with this machine's local offset.
pub fn now() -> (dt: LocalDateTime)
    ensures
        dt.wf(),
        dt.secs >= 0,
{
    utc_to_local(utc_now())
}

/// The current instant in UTC.
pub fn utc_now() -> (dt: UtcDateTime)
    ensures
        dt.wf(),
        dt.secs >= 0,
{
    let (secs, nanos) = system_clock();
    UtcDateTime { secs, nanos }
}

/// Whole seconds since the Unix epoch, now.
pub fn timestamp() -> (secs: i64)
    ensures
        0 <= secs <= MAX_TIMESTAMP,
{
    utc_now().timestamp()
}

/// Whole milliseconds since the Unix epoch, now.
pub fn timestamp_millis() -> (millis: i64)
    ensures
        0 <= millis <= MAX_TIMESTAMP * 1000 + 999,
{
    utc_now().timestamp_millis()
}

/// The text of the instant under a `strftime` pattern such as
/// `%Y-%m-%d %H:%M:%S`, where there is one; [`try_format`] asks first.
pub fn format(dt: LocalDateTime, fmt: &str) -> (text: String)
    requires
        dt.wf(),
        dt.formatted(fmt@) is Some,
    ensures
        Some(text@) == dt.formatted(fmt@),
{
    write_formatted(dt.secs, dt.nanos, dt.offset, fmt).unwrap()
}

/// The text of the instant under a `strftime` pattern, or `None` where the
/// pattern cannot be applied to it. It writes once to find out, and once
/// more for the text.
pub fn try_format(dt: LocalDateTime, fmt: &str) -> (text: Option<String>)
    requires
        dt.wf(),
    ensures
        text is Some <==> dt.formatted(fmt@) is Some,
        text matches Some(written) ==> Some(written@) == dt.formatted(fmt@),
{
    if write_formatted(dt.secs, dt.nanos, dt.offset, fmt).is_some() {
        Some(format(dt, fmt))
    } else {
        None
    }
}

/// The same instant, with this machine's local offset.
pub fn utc_to_local(dt: UtcDateTime) -> (local: LocalDateTime)
    requires
        dt.wf(),
    ensures
        local.wf(),
        local.secs == dt.secs,
        local.nanos == dt.nanos,
{
    let offset = local_offset(dt.secs, dt.nanos);
    LocalDateTime { secs: dt.secs, nanos: dt.nanos, offset }
}

/// The same instant, without the offset.
pub fn local_to_utc(dt: LocalDateTime) -> (utc: UtcDateTime)
    ensures
        utc.secs == dt.secs,
        utc.nanos == dt.nanos,
        dt.wf() ==> utc.wf(),
{
    UtcDateTime { secs: dt.secs, nanos: dt.nanos }
}

/// The instant `days` days later (earlier, for a negative count). The result
/// must lie in the supported range; [`checked_add_days`] asks first.
pub fn add_days(dt: UtcDateTime, days: i64) -> (shifted: UtcDateTime)
    requires
        dt.wf(),
        valid_instant(dt.secs + days * SECONDS_PER_DAY, dt.nanos as int),
    ensures
        shifted.wf(),
        shifted.secs == dt.secs + days * SECONDS_PER_DAY,
        shifted.nanos == dt.nanos,
{
    UtcDateTime { secs: dt.secs + days * SECONDS_PER_DAY, nanos: dt.nanos }
}

/// The instant `hours` hours later (earlier, for a negative count). The
/// result must lie in the supported range; [`checked_add_hours`] asks first.
pub fn add_hours(dt: UtcDateTime, hours: i64) -> (shifted: UtcDateTime)
    requires
        dt.wf(),
        valid_instant(dt.secs + hours * SECONDS_PER_HOUR, dt.nanos as int),
    ensures
        shifted.wf(),
        shifted.secs == dt.secs + hours * SECONDS_PER_HOUR,
        shifted.nanos == dt.nanos,
{
    UtcDateTime { secs: dt.secs + hours * SECONDS_PER_HOUR, nanos: dt.nanos }
}

/// The instant `seconds` seconds after `dt`, or `None` where that lies
/// outside the supported range.
fn checked_shift(dt: UtcDateTime, seconds: Option<i64>) -> (shifted: Option<UtcDateTime>)
    requires
        dt.wf(),
    ensures
        match seconds {
            Some(delta) => shifted == if valid_instant(dt.secs + delta, dt.nanos as int) {
                Some(UtcDateTime { secs: (dt.secs + delta) as i64, nanos: dt.nanos })
            } else {
                None
            },
            None => shifted is None,
        },
{
    match seconds {
        Some(delta) => match dt.secs.checked_add(delta) {
            Some(secs) => if MIN_TIMESTAMP <= secs && secs <= MAX_TIMESTAMP {
                Some(UtcDateTime { secs, nanos: dt.nanos })
            } else {
                None
            },
            None => None,
        },
        None => None,
    }
}

/// The instant `days` days later, or `None` where that lies outside the
/// supported range.
pub fn checked_add_days(dt: UtcDateTime, days: i64) -> (shifted: Option<UtcDateTime>)
    requires
        dt.wf(),
    ensures
        shifted is Some <==> valid_instant(dt.secs + days * SECONDS_PER_DAY, dt.nanos as int),
        shifted matches Some(later) ==> later.secs == dt.secs + days * SECONDS_PER_DAY
            && later.nanos == dt.nanos,
{
    match checked_shift(dt, days.checked_mul(SECONDS_PER_DAY)) {
        Some(_) => Some(add_days(dt, days)),
        None => None,
    }
}

/// The instant `hours` hours later, or `None` where that lies outside the
/// supported range.
pub fn checked_add_hours(dt: UtcDateTime, hours: i64) -> (shifted: Option<UtcDateTime>)
    requires
        dt.wf(),
    ensures
        shifted is Some <==> valid_instant(dt.secs + hours * SECONDS_PER_HOUR, dt.nanos as int),
        shifted matches Some(later) ==> later.secs == dt.secs + hours * SECONDS_PER_HOUR
            && later.nanos == dt.nanos,
{
    match checked_shift(dt, hours.checked_mul(SECONDS_PER_HOUR)) {
        Some(_) => Some(add_hours(dt, hours)),
        None => None,
    }
}

/// From an instant to the same instant shifted by whole seconds it is that
/// many seconds, whatever the nanoseconds: shifting by days or hours and
/// taking the difference agree.
pub proof fn lemma_shift_is_the_difference(dt: UtcDateTime, seconds: int)
    ensures
        whole_seconds(
            total_nanos(dt.secs + seconds, dt.nanos as int) - total_nanos(
                dt.secs as int,
                dt.nanos as int,
            ),
        ) == seconds,
{
}

/// The difference changes its sign, and nothing else, when the two instants
/// change places.
pub proof fn lemma_difference_is_antisymmetric(nanos: int)
    ensures
        whole_seconds(-nanos) == -whole_seconds(nanos),
{
}

/// The whole seconds from `dt1` to `dt2`, rounded towards zero; negative
/// where `dt2` is the earlier one.
pub fn diff_seconds(dt1: UtcDateTime, dt2: UtcDateTime) -> (seconds: i64)
    requires
        dt1.wf(),
        dt2.wf(),
    ensures
        seconds == whole_seconds(
            total_nanos(dt2.secs as int, dt2.nanos as int) - total_nanos(
                dt1.secs as int,
                dt1.nanos as int,
            ),
        ),
{
    let secs: i64 = dt2.secs - dt1.secs;
    if secs > 0 && dt2.nanos < dt1.nanos {
        secs - 1
    } else if secs < 0 && dt2.nanos > dt1.nanos {
        secs + 1
    } else {
        secs
    }
}

} // verus!
