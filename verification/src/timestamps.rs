use vstd::prelude::*;
use crate::errors::{DecodeError, DecodeFailure, plain_result};

verus! {

#[verifier::external_type_specification]
#[verifier::external_body]
pub struct ExOffsetDateTime(time::OffsetDateTime);

#[verifier::external_type_specification]
#[verifier::external_body]
pub struct ExComponentRange(time::error::ComponentRange);

#[verifier::external_type_specification]
#[verifier::external_body]
pub struct ExTimeParseError(time::error::Parse);

/// The first second of the year -9999, in seconds since the Unix epoch.
pub const MIN_UNIX_SECONDS: i64 = -377_705_116_800;

/// The last second of the year 9999, in seconds since the Unix epoch.
pub const MAX_UNIX_SECONDS: i64 = 253_402_300_799;

/// The Unix times that stand for a calendar date and time of day.
pub open spec fn unix_time_in_range(seconds: i64) -> bool {
    MIN_UNIX_SECONDS <= seconds <= MAX_UNIX_SECONDS
}

/// The text that `time` prints for the UTC date and time at the given Unix
/// time.
pub uninterp spec fn unix_time_text(seconds: i64) -> Seq<char>;

/// The date and time that `time` reads from an RFC 3339 text, if it reads
/// one.
pub uninterp spec fn rfc3339_time(text: Seq<char>) -> Option<time::OffsetDateTime>;

/// Calls `time::OffsetDateTime::from_unix_timestamp` and prints the date and
/// time it gives. The contract claims that the call succeeds exactly from the
/// first second of the year -9999 to the last second of the year 9999, and
/// that the text depends on the Unix time alone.
#[verifier::external_body]
fn print_unix_time(seconds: i64) -> (r: Result<String, time::error::ComponentRange>)
    ensures
        r is Ok <==> unix_time_in_range(seconds),
        r matches Ok(t) ==> t@ == unix_time_text(seconds),
{
    match time::OffsetDateTime::from_unix_timestamp(seconds) {
        Ok(t) => Ok(t.to_string()),
        Err(e) => Err(e),
    }
}

/// Calls `time::OffsetDateTime::parse` with the RFC 3339 format. The
/// contract claims that the outcome depends on the text alone.
#[verifier::external_body]
fn read_rfc3339(text: &str) -> (r: Result<time::OffsetDateTime, time::error::Parse>)
    ensures
        r is Ok <==> rfc3339_time(text@) is Some,
        r matches Ok(t) ==> rfc3339_time(text@) == Some(t),
{
    time::OffsetDateTime::parse(text, &time::format_description::well_known::Rfc3339)
}

/// What [`unix_time_to_text`] returns for the given Unix time.
pub open spec fn text_of_unix_time(seconds: i64) -> Result<Seq<char>, DecodeFailure> {
    if unix_time_in_range(seconds) {
        Ok(unix_time_text(seconds))
    } else {
        Err(DecodeFailure::InvalidTimestamp)
    }
}

/// What [`parse_timestamp`] returns for the given text.
pub open spec fn timestamp_of(text: Seq<char>) -> Result<time::OffsetDateTime, DecodeFailure> {
    match rfc3339_time(text) {
        Some(t) => Ok(t),
        None => Err(DecodeFailure::InvalidTimestamp),
    }
}

/// The UTC date and time at the given Unix time, as text. A Unix time
/// outside the supported range is an error.
pub fn unix_time_to_text(seconds: i64) -> (r: Result<String, DecodeError>)
    ensures
        crate::errors::viewed_result(r) == text_of_unix_time(seconds),
{
    match print_unix_time(seconds) {
        Ok(t) => Ok(t),
        Err(_) => Err(DecodeError::InvalidTimestamp),
    }
}

/// Reads an RFC 3339 date and time. A text that is none is an error.
pub fn parse_timestamp(text: &str) -> (r: Result<time::OffsetDateTime, DecodeError>)
    ensures
        plain_result(r) == timestamp_of(text@),
{
    match read_rfc3339(text) {
        Ok(t) => Ok(t),
        Err(_) => Err(DecodeError::InvalidTimestamp),
    }
}

} // verus!
