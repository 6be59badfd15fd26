//! Timestamps: instants in time together with their RFC 3339 text.

use vstd::prelude::*;

verus! {

/// What `time::OffsetDateTime::parse` reads from a text under the RFC 3339
/// format: the instant as nanoseconds since the Unix epoch and the offset
/// from UTC in seconds, or `None` when the text is no RFC 3339 date-time.
pub uninterp spec fn rfc3339_parsed(input: Seq<char>) -> Option<(int, int)>;

/// What `time::OffsetDateTime::format` writes under the RFC 3339 format for
/// the date-time at the given instant and offset, or `None` when the two
/// denote no date-time or the date-time has no RFC 3339 form.
pub uninterp spec fn rfc3339_written(unix_nanos: int, offset_seconds: int) -> Option<Seq<char>>;

/// `time::Error`, the error of the `time` crate; nothing is known of its
/// values.
#[verifier::external_type_specification]
#[verifier::external_body]
pub struct ExTimeError(time::Error);

/// Reads `input` with `time::OffsetDateTime::parse` under the RFC 3339
/// format and hands out the instant and the offset of what was read. Not
/// proved: that the pair is the one [`rfc3339_parsed`] names, which only says
/// that equal texts are read alike.
#[verifier::external_body]
fn parse_rfc3339(input: &str) -> (parsed: Result<(i128, i32), time::Error>)
    ensures
        match parsed {
            Ok(pair) => rfc3339_parsed(input@) == Some((pair.0 as int, pair.1 as int)),
            Err(_) => rfc3339_parsed(input@) is None,
        },
{
    let format = time::format_description::well_known::Rfc3339;
    let date_time = time::OffsetDateTime::parse(input, &format)?;
    Ok((date_time.unix_timestamp_nanos(), date_time.offset().whole_seconds()))
}

/// Writes the date-time at the given instant and offset with
/// `time::OffsetDateTime::format` under the RFC 3339 format. Not proved: that
/// the text is the one [`rfc3339_written`] names, which only says that equal
/// instants and offsets are written alike.
#[verifier::external_body]
fn write_rfc3339(unix_nanos: i128, offset_seconds: i32) -> (text: Option<String>)
    ensures
        match text {
            Some(t) => rfc3339_written(unix_nanos as int, offset_seconds as int) == Some(t@),
            None => rfc3339_written(unix_nanos as int, offset_seconds as int) is None,
        },
{
    let format = time::format_description::well_known::Rfc3339;
    let offset = time::UtcOffset::from_whole_seconds(offset_seconds).ok()?;
    let utc = time::OffsetDateTime::from_unix_timestamp_nanos(unix_nanos).ok()?;
    utc.checked_to_offset(offset)?.format(&format).ok()
}

/// The error for a text that is no RFC 3339 date-time.
#[derive(Clone, Copy, Debug, PartialEq, Eq, Structural)]
pub struct InvalidTimestamp;

impl InvalidTimestamp {
    /// The error in words.
    pub fn message(&self) -> (message: &'static str)
        ensures
            message@ == "invalid timestamp"@,
    {
        "invalid timestamp"
    }
}

/// An instant in time. Two timestamps are the same when they denote the same
/// instant, whatever offset their text is written in.
#[derive(Debug)]
pub struct Timestamp {
    unix_nanos: i128,
    offset_seconds: i32,
    text: String,
}

/// The mathematical value of a [`Timestamp`].
pub struct TimestampView {
    /// Nanoseconds since the Unix epoch.
    pub unix_nanos: int,
    /// The offset from UTC, in seconds, that the timestamp is written in.
    pub offset_seconds: int,
    /// The timestamp in RFC 3339 form.
    pub text: Seq<char>,
}

impl View for Timestamp {
    type V = TimestampView;

    closed spec fn view(&self) -> TimestampView {
        TimestampView {
            unix_nanos: self.unix_nanos as int,
            offset_seconds: self.offset_seconds as int,
            text: self.text@,
        }
    }
}

impl Clone for Timestamp {
    fn clone(&self) -> (copy: Self)
        ensures
            copy@ == self@,
    {
        Timestamp {
            unix_nanos: self.unix_nanos,
            offset_seconds: self.offset_seconds,
            text: self.text.clone(),
        }
    }
}

/// The timestamp that a text denotes, if it is an RFC 3339 date-time: the
/// instant and the offset that are read from it, and the RFC 3339 form that
/// is written for the two.
pub open spec fn parsed_timestamp(input: Seq<char>) -> Option<TimestampView> {
    match rfc3339_parsed(input) {
        Some(pair) => match rfc3339_written(pair.0, pair.1) {
            Some(text) => Some(
                TimestampView { unix_nanos: pair.0, offset_seconds: pair.1, text },
            ),
            None => None,
        },
        None => None,
    }
}

impl Timestamp {
    /// Parses an RFC 3339 date-time such as `2020-01-01T00:00:00Z`.
    pub fn parse(input: &str) -> (timestamp: Result<Timestamp, InvalidTimestamp>)
        ensures
            match timestamp {
                Ok(t) => parsed_timestamp(input@) == Some(t@),
                Err(_) => parsed_timestamp(input@) is None,
            },
    {
        match parse_rfc3339(input) {
            Ok(pair) => match write_rfc3339(pair.0, pair.1) {
                Some(text) => Ok(
                    Timestamp { unix_nanos: pair.0, offset_seconds: pair.1, text },
                ),
                None => Err(InvalidTimestamp),
            },
            Err(_) => Err(InvalidTimestamp),
        }
    }

    /// The timestamp in RFC 3339 form.
    pub fn to_rfc3339(&self) -> (text: String)
        ensures
            text@ == self@.text,
    {
        self.text.clone()
    }

    /// Nanoseconds since the Unix epoch.
    pub fn unix_timestamp_nanos(&self) -> (nanos: i128)
        ensures
            nanos == self@.unix_nanos,
    {
        self.unix_nanos
    }

    /// The offset from UTC, in seconds, that the timestamp is written in.
    pub fn offset_seconds(&self) -> (seconds: i32)
        ensures
            seconds == self@.offset_seconds,
    {
        self.offset_seconds
    }

    /// Whether two timestamps denote the same instant.
    pub fn same_instant(&self, other: &Timestamp) -> (equal: bool)
        ensures
            equal == (self@.unix_nanos == other@.unix_nanos),
    {
        self.unix_nanos == other.unix_nanos
    }
}

} // verus!
