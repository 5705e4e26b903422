//! The clock: the current time, time spans, and the local timestamps sent
//! to the server.

use chrono::TimeZone;
use vstd::prelude::*;

use crate::text::is_digit;

verus! {

#[verifier::external_type_specification]
#[verifier::external_body]
pub struct ExTimeDelta(chrono::TimeDelta);

/// `TimeDelta::clone`: `TimeDelta` is `Copy`, and its derived `clone`
/// gives back the same span.
pub assume_specification[ <chrono::TimeDelta as Clone>::clone ](span: &chrono::TimeDelta) -> (r: chrono::TimeDelta)
    ensures
        r == *span,
;

#[verifier::external_type_specification]
#[verifier::external_body]
pub struct ExNaiveDateTime(chrono::NaiveDateTime);

/// `chrono::Utc::now`, as a UTC date and time without zone. Nothing is
/// stated of it; it depends on the clock.
#[verifier::external_body]
fn utc_now() -> chrono::NaiveDateTime {
    chrono::Utc::now().naive_utc()
}

/// `NaiveDateTime::checked_sub_signed`: the time `span` before `t`, or
/// `None` where that lies outside the dates chrono can represent. Nothing
/// more is stated; the result depends on `t`, which comes from the clock.
#[verifier::external_body]
fn checked_sub(t: &chrono::NaiveDateTime, span: chrono::TimeDelta) -> Option<chrono::NaiveDateTime> {
    t.checked_sub_signed(span)
}

/// A timestamp in the form the server takes, `%Y-%m-%dT%H:%M:%S.000Z`: a
/// year of at least four characters, then `-MM-DDTHH:MM:SS.000Z` with
/// two-digit month, day, hour, minute and second.
pub open spec fn is_timestamp(s: Seq<char>) -> bool {
    let n = s.len();
    &&& n >= 24
    &&& s[n - 20] == '-'
    &&& is_digit(s[n - 19]) && is_digit(s[n - 18])
    &&& s[n - 17] == '-'
    &&& is_digit(s[n - 16]) && is_digit(s[n - 15])
    &&& s[n - 14] == 'T'
    &&& is_digit(s[n - 13]) && is_digit(s[n - 12])
    &&& s[n - 11] == ':'
    &&& is_digit(s[n - 10]) && is_digit(s[n - 9])
    &&& s[n - 8] == ':'
    &&& is_digit(s[n - 7]) && is_digit(s[n - 6])
    &&& s[n - 5] == '.' && s[n - 4] == '0' && s[n - 3] == '0' && s[n - 2] == '0'
    &&& s[n - 1] == 'Z'
}

/// `DateTime::format` with `%Y-%m-%dT%H:%M:%S.000Z` of the UTC time `t` in
/// the local time zone, written out: the form of the timestamps the server
/// takes. chrono documents `%Y` as the year zero-padded to at least four
/// digits (with a sign outside 0 to 9999) and `%m`, `%d`, `%H`, `%M`, `%S`
/// as zero-padded to two digits; the rest of the format is copied as it
/// stands. Which date and time the text gives is not stated: it depends on
/// `t` and on the machine's time zone.
#[verifier::external_body]
fn format_local(t: &chrono::NaiveDateTime) -> (s: String)
    ensures
        is_timestamp(s@),
{
    chrono::Local.from_utc_datetime(t).format("%Y-%m-%dT%H:%M:%S.000Z").to_string()
}

/// The first timestamp the charts start from by default.
pub open spec fn epoch_start() -> Seq<char> {
    "2019-01-01T00:00:00.000Z"@
}

/// The default time range of the charts: from the start of 2019 until now.
pub fn default_timerange() -> (r: (String, String))
    ensures
        r.0@ == epoch_start(),
        is_timestamp(r.1@),
{
    let now = utc_now();
    (String::from_str("2019-01-01T00:00:00.000Z"), format_local(&now))
}

/// The time range that ends now and lasts `span`, as local timestamps in
/// the server's form; `None` where its start lies outside the dates chrono
/// can represent.
pub fn timerange_until_now(span: chrono::TimeDelta) -> (r: Option<(String, String)>)
    ensures
        r matches Some((from, to)) ==> is_timestamp(from@) && is_timestamp(to@),
{
    let now = utc_now();
    match checked_sub(&now, span) {
        Some(start) => Some((format_local(&start), format_local(&now))),
        None => None,
    }
}

} // verus!
