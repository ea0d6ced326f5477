use vstd::prelude::*;
use crate::types::Timestamp;

verus! {

/// The RFC 3339 text, in UTC with milliseconds and a `Z` suffix
/// (`YYYY-MM-DDTHH:MM:SS.sssZ`), of a time in milliseconds since the Unix
/// epoch; `None` where the time is out of the representable range.
pub uninterp spec fn utc_text_of(millis: i64) -> Option<Seq<char>>;

/// The time, in milliseconds since the Unix epoch, that an RFC 3339 text
/// denotes, whatever its offset; `None` where the text is not RFC 3339.
pub uninterp spec fn rfc3339_millis_of(text: Seq<char>) -> Option<i64>;

/// The first millisecond of the year 0, `0000-01-01T00:00:00.000Z`.
pub const MIN_TEXT_MILLIS: i64 = -62167219200000;

/// The last millisecond of the year 9999, `9999-12-31T23:59:59.999Z`.
pub const MAX_TEXT_MILLIS: i64 = 253402300799999;

/// The times whose text has the fixed shape `YYYY-MM-DDTHH:MM:SS.sssZ`:
/// those of the years 0 to 9999.
pub open spec fn in_text_range(millis: i64) -> bool {
    MIN_TEXT_MILLIS <= millis <= MAX_TEXT_MILLIS
}

/// Relies on chrono's `DateTime::from_timestamp_millis` and
/// `DateTime::to_rfc3339_opts` with millisecond precision and `Z`: the text
/// depends on the time alone, and every time of the years 0 to 9999 lies in
/// chrono's range.
#[verifier::external_body]
fn utc_text(millis: i64) -> (r: Option<String>)
    ensures
        r is Some <==> utc_text_of(millis) is Some,
        in_text_range(millis) ==> r is Some,
        r is Some ==> utc_text_of(millis) == Some(r->Some_0@),
{
    chrono::DateTime::from_timestamp_millis(millis).map(|d| d.to_rfc3339_opts(chrono::SecondsFormat::Millis, true))
}

/// Relies on chrono's `DateTime::parse_from_rfc3339` and
/// `DateTime::timestamp_millis`: the result depends on the text alone.
#[verifier::external_body]
fn rfc3339_millis(text: &str) -> (r: Option<i64>)
    ensures
        r == rfc3339_millis_of(text@),
{
    chrono::DateTime::parse_from_rfc3339(text).ok().map(|d| d.timestamp_millis())
}

/// Why a timestamp field cannot be encoded or decoded.
#[derive(Clone, Copy, Debug, PartialEq, Eq)]
pub enum TimestampError {
    /// The time lies outside the years 0 to 9999, which the text format covers.
    OutOfRange,
    /// The stored text is not an RFC 3339 date and time.
    NotRfc3339,
}

/// Encodes an optional timestamp field: an absent time stays absent, a
/// present one of the years 0 to 9999 becomes its UTC text with
/// milliseconds, and any other is `OutOfRange`.
pub fn encode_timestamp(t: Option<Timestamp>) -> (r: Result<Option<String>, TimestampError>)
    ensures
        t is None ==> r == Ok::<Option<String>, TimestampError>(None),
        t is Some && !in_text_range(t->Some_0.millis) ==> r == Err::<Option<String>, TimestampError>(
            TimestampError::OutOfRange,
        ),
        t is Some && in_text_range(t->Some_0.millis) ==> r is Ok && r->Ok_0 is Some
            && utc_text_of(t->Some_0.millis) == Some(r->Ok_0->Some_0@),
{
    match t {
        None => Ok(None),
        Some(time) => if time.millis < MIN_TEXT_MILLIS || time.millis > MAX_TEXT_MILLIS {
            Err(TimestampError::OutOfRange)
        } else {
            match utc_text(time.millis) {
                Some(text) => Ok(Some(text)),
                None => Err(TimestampError::OutOfRange),
            }
        },
    }
}

/// Decodes an optional timestamp field: an absent text stays absent, a
/// present one is read as RFC 3339 and normalised to UTC milliseconds.
pub fn decode_timestamp(text: Option<String>) -> (r: Result<Option<Timestamp>, TimestampError>)
    ensures
        text is None ==> r == Ok::<Option<Timestamp>, TimestampError>(None),
        text is Some ==> match rfc3339_millis_of(text->Some_0@) {
            None => r == Err::<Option<Timestamp>, TimestampError>(TimestampError::NotRfc3339),
            Some(millis) => r == Ok::<Option<Timestamp>, TimestampError>(Some(Timestamp { millis })),
        },
{
    match text {
        None => Ok(None),
        Some(s) => match rfc3339_millis(s.as_str()) {
            Some(millis) => Ok(Some(Timestamp { millis })),
            None => Err(TimestampError::NotRfc3339),
        },
    }
}

} // verus!
