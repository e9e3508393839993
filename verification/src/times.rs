//! Timestamp rendering. Remote modification times arrive as Unix epoch
//! seconds; the calendar arithmetic that turns them into display text
//! is chrono's, named here so that contracts can speak of the result.

use vstd::prelude::*;

verus! {

/// What chrono renders for a Unix timestamp in RFC 3339 form; the
/// empty sequence for a timestamp outside chrono's range.
pub uninterp spec fn rfc3339_of(secs: i64) -> Seq<char>;

/// What chrono renders for a Unix timestamp as "year-month-day
/// hour:minute"; the empty sequence for a timestamp outside chrono's
/// range.
pub uninterp spec fn minute_stamp_of(secs: i64) -> Seq<char>;

/// Relies on chrono's DateTime::from_timestamp (UTC, `None` only when
/// the seconds are out of range) and DateTime::to_rfc3339: the result
/// depends on the seconds alone.
#[verifier::external_body]
pub(crate) fn format_rfc3339(secs: i64) -> (r: String)
    ensures
        r@ == rfc3339_of(secs),
{
    chrono::DateTime::from_timestamp(secs, 0).map(|dt| dt.to_rfc3339()).unwrap_or_default()
}

/// Relies on chrono's DateTime::from_timestamp (UTC, `None` only when
/// the seconds are out of range) and its "%Y-%m-%d %H:%M" formatting:
/// the result depends on the seconds alone.
#[verifier::external_body]
pub(crate) fn format_minute_stamp(secs: i64) -> (r: String)
    ensures
        r@ == minute_stamp_of(secs),
{
    chrono::DateTime::from_timestamp(secs, 0).map(
        |dt| dt.format("%Y-%m-%d %H:%M").to_string(),
    ).unwrap_or_default()
}

} // verus!
