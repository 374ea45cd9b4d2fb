use std::fmt::Write;
use vstd::prelude::*;

verus! {

/// The `strftime`-style pattern of a record's timestamp: UTC, nanosecond
/// fraction, `Z` suffix.
pub const TIMESTAMP_FORMAT: &'static str = "%Y-%m-%dT%H:%M:%S.%fZ";

/// The first second of the year 1, counted from the Unix epoch.
pub open spec fn first_second_of_year_one() -> int {
    -62_135_596_800
}

/// The last second of the year 9999, counted from the Unix epoch.
pub open spec fn last_second_of_year_9999() -> int {
    253_402_300_799
}

/// Whether an instant lies in the years 1 to 9999, with a fraction below one second.
pub open spec fn in_calendar_range(secs: int, nanos: int) -> bool {
    first_second_of_year_one() <= secs <= last_second_of_year_9999() && 0 <= nanos
        < 1_000_000_000
}

/// What chrono writes for the UTC instant `secs` seconds and `nanos`
/// nanoseconds after the Unix epoch under the given pattern: `None` where
/// chrono has no such instant or the pattern cannot be rendered.
pub uninterp spec fn utc_strftime(secs: i64, nanos: u32, pattern: Seq<char>) -> Option<Seq<char>>;

/// The view of an optional text.
pub open spec fn text_of(s: Option<String>) -> Option<Seq<char>> {
    match s {
        Some(t) => Some(t@),
        None => None,
    }
}

/// Reads the system clock (`std::time::SystemTime::now`) as the time since
/// `UNIX_EPOCH`: whole seconds and the nanoseconds of the second, or `None` for a
/// clock set before the epoch (`duration_since` reports an error).
/// Claimed: the nanoseconds are below one billion, as `Duration::subsec_nanos`
/// documents. Not claimed: anything of the seconds, which depend on the time of the call.
#[verifier::external_body]
fn read_system_clock() -> (res: Option<(u64, u32)>)
    ensures
        res matches Some(r) ==> r.1 < 1_000_000_000,
{
    let since = std::time::SystemTime::now().duration_since(std::time::UNIX_EPOCH).ok()?;
    Some((since.as_secs(), since.subsec_nanos()))
}

/// Renders an instant with `chrono::DateTime::<Utc>::from_timestamp` and
/// `DateTime::format`, written into a `String`.
/// Claimed: the outcome depends on the three arguments alone and is
/// `utc_strftime(secs, nanos, pattern@)`; and under the record pattern every
/// instant of the years 1 to 9999 renders (`from_timestamp` accepts it, and the
/// pattern's items `%Y %m %d %H %M %S %f` and its literals never fail to write).
#[verifier::external_body]
fn strftime_utc(secs: i64, nanos: u32, pattern: &str) -> (res: Option<String>)
    ensures
        text_of(res) == utc_strftime(secs, nanos, pattern@),
        pattern@ == "%Y-%m-%dT%H:%M:%S.%fZ"@ && in_calendar_range(secs as int, nanos as int)
            ==> res is Some,
{
    let instant = chrono::DateTime::from_timestamp(secs, nanos)?;
    let mut out = String::new();
    write!(out, "{}", instant.format(pattern)).ok()?;
    Some(out)
}

/// The timestamp text of the given instant, in the record's pattern; every
/// instant of the years 1 to 9999 has one.
pub fn format_timestamp(secs: i64, nanos: u32) -> (res: Option<String>)
    ensures
        text_of(res) == utc_strftime(secs, nanos, TIMESTAMP_FORMAT@),
        in_calendar_range(secs as int, nanos as int) ==> res is Some,
{
    strftime_utc(secs, nanos, TIMESTAMP_FORMAT)
}

/// The timestamp text of a clock reading (seconds and nanoseconds since the
/// Unix epoch), or `None` where there is no reading.
pub open spec fn reading_text(reading: Option<(u64, u32)>) -> Option<Seq<char>> {
    match reading {
        Some((secs, nanos)) => if secs <= i64::MAX {
            utc_strftime(secs as i64, nanos, TIMESTAMP_FORMAT@)
        } else {
            None
        },
        None => None,
    }
}

/// Whether a clock reading lies between the Unix epoch and the end of the year 9999.
pub open spec fn reading_in_range(reading: Option<(u64, u32)>) -> bool {
    match reading {
        Some((secs, nanos)) => secs <= last_second_of_year_9999() && nanos < 1_000_000_000,
        None => false,
    }
}

/// The timestamp text of a clock reading.
pub fn timestamp_of_reading(reading: Option<(u64, u32)>) -> (res: Option<String>)
    ensures
        text_of(res) == reading_text(reading),
        reading_in_range(reading) ==> res is Some,
{
    match reading {
        Some((secs, nanos)) => {
            if secs <= 0x7fff_ffff_ffff_ffff {
                format_timestamp(secs as i64, nanos)
            } else {
                None
            }
        },
        None => None,
    }
}

/// Reads the system clock: seconds and nanoseconds since the Unix epoch, or
/// `None` for a clock set before the epoch.
pub fn read_clock() -> (res: Option<(u64, u32)>)
    ensures
        res matches Some(r) ==> r.1 < 1_000_000_000,
{
    read_system_clock()
}

/// The timestamp text of the present instant: the text of some reading of the
/// clock, which exists for every clock set between 1970 and the end of 9999.
pub fn time_now() -> (res: Option<String>)
    ensures
        exists|reading: Option<(u64, u32)>|
            #![trigger reading_text(reading)]
            {
                &&& reading matches Some(r) ==> r.1 < 1_000_000_000
                &&& text_of(res) == reading_text(reading)
                &&& reading_in_range(reading) ==> res is Some
            },
{
    let reading = read_clock();
    timestamp_of_reading(reading)
}

} // verus!
