//! Points in time as text.

use vstd::prelude::*;

use crate::text::opt_view;

verus! {

/// What `chrono` makes of a point in time: the RFC 3339 text of the UTC time, if the point is in
/// the range that it represents.
pub uninterp spec fn rfc3339(secs: i64, nanos: u32) -> Option<Seq<char>>;

/// `chrono::Utc.timestamp_opt` and `DateTime::to_rfc3339`: the UTC time that many seconds and
/// nanoseconds after 1970, as text. The result depends on the two numbers alone and is called
/// `rfc3339`.
#[verifier::external_body]
pub(crate) fn format_time(secs: i64, nanos: u32) -> (r: Option<String>)
    ensures
        opt_view(r) == rfc3339(secs, nanos),
{
    chrono::TimeZone::timestamp_opt(&chrono::Utc, secs, nanos).single().map(|t| t.to_rfc3339())
}

/// What `chrono` makes of a number of microseconds since 1970: the RFC 3339 text of the UTC time,
/// if it is in the range that it represents.
pub uninterp spec fn rfc3339_micros(micros: i64) -> Option<Seq<char>>;

/// `chrono::DateTime::from_timestamp_micros` and `DateTime::to_rfc3339`: the UTC time that many
/// microseconds after 1970, as text. The result depends on the number alone and is called
/// `rfc3339_micros`.
#[verifier::external_body]
pub(crate) fn format_micros(micros: i64) -> (r: Option<String>)
    ensures
        opt_view(r) == rfc3339_micros(micros),
{
    chrono::DateTime::from_timestamp_micros(micros).map(|t| t.to_rfc3339())
}

/// What `chrono` makes of a number of seconds since 1970 and a format: the UTC time in that format,
/// if it is in the range that it represents.
pub uninterp spec fn utc_text(secs: i64, format: Seq<char>) -> Option<Seq<char>>;

/// The format of a point in time: year, month, day, hour, minute and second, and the name of the
/// zone behind them.
pub open spec fn utc_format() -> Seq<char> {
    "%Y-%m-%d %H:%M:%S UTC"@
}

/// `chrono::DateTime::from_timestamp` and `DateTime::format`: the UTC time that many seconds after
/// 1970, as text. The result depends on the number and the format alone and is called `utc_text`.
/// A format that is not valid panics, so that only the one in use is let in.
#[verifier::external_body]
fn format_time_as(secs: i64, format: &str) -> (r: Option<String>)
    requires
        format@ == utc_format(),
    ensures
        opt_view(r) == utc_text(secs, format@),
{
    chrono::DateTime::from_timestamp(secs, 0).map(|t| t.format(format).to_string())
}

/// The UTC time that many seconds after 1970, if it is in the range that is represented.
pub open spec fn utc_time(secs: i64) -> Option<Seq<char>> {
    utc_text(secs, utc_format())
}

/// The UTC time that many seconds after 1970, if it is in the range that is represented.
pub fn format_utc(secs: i64) -> (r: Option<String>)
    ensures
        opt_view(r) == utc_time(secs),
{
    format_time_as(secs, "%Y-%m-%d %H:%M:%S UTC")
}

/// How many whole seconds ago a point in time was, rounded towards zero.
pub open spec fn seconds_between(now_micros: i64, micros: i64) -> int {
    let d = now_micros - micros;
    if d >= 0 {
        d / 1_000_000
    } else {
        -((-d) / 1_000_000)
    }
}

/// How many whole seconds ago a point in time was, rounded towards zero.
pub fn age_seconds(now_micros: i64, micros: i64) -> (r: i64)
    requires
        i64::MIN <= now_micros - micros <= i64::MAX,
    ensures
        r == seconds_between(now_micros, micros),
{
    let d: i128 = now_micros as i128 - micros as i128;
    if d >= 0 {
        (d / 1_000_000) as i64
    } else {
        (-((-d) / 1_000_000)) as i64
    }
}

/// The age of a time is the whole seconds since, counted towards zero: it is never further from
/// zero than the time that passed, by less than a second; and it has the other sign the other way
/// round.
pub proof fn law_ages(now_micros: i64, micros: i64)
    ensures
        ({
            let passed = now_micros - micros;
            let age = seconds_between(now_micros, micros);
            &&& passed >= 0 ==> age >= 0 && 0 <= passed - age * 1_000_000 < 1_000_000
            &&& passed < 0 ==> age <= 0 && -1_000_000 < passed - age * 1_000_000 <= 0
            &&& seconds_between(micros, now_micros) == -age
        }),
{
}

} // verus!
