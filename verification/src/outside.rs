//! What this library takes from std and from the outside crates `chrono` and
//! `uuid`, with the contracts that the verified code relies on. Nothing in
//! this file is proved: each item states what the outside source shows.
use vstd::prelude::*;

verus! {

/// `String::push` (std): appends the one character to the end of the string.
pub assume_specification[ String::push ](string: &mut String, ch: char)
    ensures
        final(string)@ == old(string)@.push(ch),
;

/// The Unicode lower-case mapping of a text, as `str::to_lowercase` (std)
/// computes it; a function of the text alone.
pub uninterp spec fn spec_to_lowercase(text: Seq<char>) -> Seq<char>;

/// `str::to_lowercase` (std): returns the lower-case mapping of the text,
/// named `spec_to_lowercase`.
pub assume_specification[ str::to_lowercase ](text: &str) -> (lower: String)
    ensures
        lower@ == spec_to_lowercase(text@),
;

/// The Unicode upper-case mapping of a text, as `str::to_uppercase` (std)
/// computes it; a function of the text alone.
pub uninterp spec fn spec_to_uppercase(text: Seq<char>) -> Seq<char>;

/// `str::to_uppercase` (std): returns the upper-case mapping of the text,
/// named `spec_to_uppercase`.
pub assume_specification[ str::to_uppercase ](text: &str) -> (upper: String)
    ensures
        upper@ == spec_to_uppercase(text@),
;

/// The whole seconds from the instant `then` to the instant `now_secs`
/// seconds and `now_nanos` nanoseconds after the Unix epoch, as chrono counts
/// them: `then` read by `chrono::DateTime::parse_from_rfc3339` and taken to
/// UTC, `now` built by `chrono::DateTime::from_timestamp`, the two subtracted
/// by `DateTime::signed_duration_since` and the difference measured by
/// `TimeDelta::num_seconds`, which drops the part of a second toward zero.
/// `None` where `then` does not parse or `now` lies outside chrono's range.
pub uninterp spec fn spec_seconds_since(now_secs: i64, now_nanos: u32, then: Seq<char>) -> Option<i64>;

/// Calls `chrono::DateTime::from_timestamp`, `DateTime::parse_from_rfc3339`,
/// `DateTime::signed_duration_since` and `TimeDelta::num_seconds` as
/// `spec_seconds_since` describes; the result is named `spec_seconds_since`
/// of the arguments.
#[verifier::external_body]
pub(crate) fn seconds_since(now_secs: i64, now_nanos: u32, then: &str) -> (elapsed: Option<i64>)
    ensures
        elapsed == spec_seconds_since(now_secs, now_nanos, then@),
{
    let now = chrono::DateTime::from_timestamp(now_secs, now_nanos)?;
    let then = chrono::DateTime::parse_from_rfc3339(then).ok()?;
    Some(now.signed_duration_since(then.with_timezone(&chrono::Utc)).num_seconds())
}

/// The year and month, written "%Y-%m" by `DelayedFormat`, of the instant
/// `days` days after the instant `now_secs` seconds and `now_nanos`
/// nanoseconds after the Unix epoch: `now` built by
/// `chrono::DateTime::from_timestamp`, the days by `TimeDelta::try_days`, the
/// sum by `DateTime::checked_add_signed`; `None` where any of these is out of
/// chrono's range.
pub uninterp spec fn spec_year_month_after(now_secs: i64, now_nanos: u32, days: i64) -> Option<Seq<char>>;

/// Calls `chrono::DateTime::from_timestamp`, `TimeDelta::try_days`,
/// `DateTime::checked_add_signed` and `DateTime::format("%Y-%m")` as
/// `spec_year_month_after` describes; the result is named
/// `spec_year_month_after` of the arguments.
#[verifier::external_body]
pub(crate) fn year_month_after(now_secs: i64, now_nanos: u32, days: i64) -> (text: Option<String>)
    ensures
        match text {
            Some(t) => spec_year_month_after(now_secs, now_nanos, days) == Some(t@),
            None => spec_year_month_after(now_secs, now_nanos, days) is None,
        },
{
    let now = chrono::DateTime::from_timestamp(now_secs, now_nanos)?;
    let later = now.checked_add_signed(chrono::TimeDelta::try_days(days)?)?;
    Some(later.format("%Y-%m").to_string())
}

/// Calls `chrono::Utc::now` and reads the instant with `DateTime::timestamp`
/// and `DateTime::timestamp_subsec_nanos`: whole seconds since the Unix epoch
/// and nanoseconds past them. `Utc::now` builds the instant from the system
/// clock's seconds and sub-second nanoseconds since the epoch (and panics on a
/// clock before it), so the seconds are not negative and the nanoseconds are
/// under a second; which instant comes is not stated.
#[verifier::external_body]
pub(crate) fn now_instant() -> (instant: (i64, u32))
    ensures
        instant.0 >= 0,
        instant.1 < 1_000_000_000,
{
    let now = chrono::Utc::now();
    (now.timestamp(), now.timestamp_subsec_nanos())
}

/// The RFC 3339 text that `DateTime::to_rfc3339` writes for the UTC instant
/// `secs` whole seconds and `nanos` nanoseconds after the Unix epoch (the
/// instant that `chrono::DateTime::from_timestamp` builds from them); a
/// function of the instant alone.
pub uninterp spec fn spec_rfc3339(secs: i64, nanos: u32) -> Seq<char>;

/// Calls `chrono::Utc::now`, reads the instant with `DateTime::timestamp` and
/// `DateTime::timestamp_subsec_nanos`, and writes it with
/// `DateTime::to_rfc3339`: the text is named `spec_rfc3339` of the instant
/// read. As for `now_instant`, the seconds are not negative and the
/// nanoseconds are under a second; which instant comes is not stated.
#[verifier::external_body]
pub(crate) fn now_stamp() -> (stamp: (i64, u32, String))
    ensures
        stamp.0 >= 0,
        stamp.1 < 1_000_000_000,
        stamp.2@ == spec_rfc3339(stamp.0, stamp.1),
{
    let now = chrono::Utc::now();
    (now.timestamp(), now.timestamp_subsec_nanos(), now.to_rfc3339())
}

/// A lower-case hexadecimal digit.
pub open spec fn is_lower_hex_digit(c: char) -> bool {
    ('0' <= c && c <= '9') || ('a' <= c && c <= 'f')
}

/// The hyphenated lower-case layout of a UUID: 36 characters, hyphens at
/// positions 8, 13, 18 and 23, lower-case hex digits everywhere else.
pub open spec fn is_hyphenated_uuid(text: Seq<char>) -> bool {
    &&& text.len() == 36
    &&& forall|i: int|
        0 <= i < 36 ==> if i == 8 || i == 13 || i == 18 || i == 23 {
            #[trigger] text[i] == '-'
        } else {
            is_lower_hex_digit(text[i])
        }
}

/// Calls `uuid::Uuid::new_v4` and writes the UUID with its `Display` impl
/// (`to_string`), which formats the hyphenated lower-case layout. The digits
/// are random: only the layout is stated.
#[verifier::external_body]
pub(crate) fn random_uuid_text() -> (text: String)
    ensures
        is_hyphenated_uuid(text@),
{
    uuid::Uuid::new_v4().to_string()
}

} // verus!
