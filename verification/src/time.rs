//! Points in time.
//!
//! The library carries times as plain numbers.  Reading a date out of a form
//! field is left to `chrono`; what comes back is taken apart into a
//! [`Timestamp`] at once.

use chrono::TimeZone;
use vstd::prelude::*;

verus! {

/// A point on the UTC time line: the whole seconds since the start of 1970 and
/// the nanoseconds within that second.
#[derive(Debug, Clone, Copy, PartialEq, Eq, Hash, Structural)]
pub struct Timestamp {
    /// Seconds since 1970-01-01T00:00:00 UTC, leap seconds not counted.
    pub secs: i64,
    /// Nanoseconds since the last full second.
    pub nanos: u32,
}

/// A point in time together with the offset from UTC at which it is shown.
#[derive(Debug, Clone, Copy, PartialEq, Eq, Hash, Structural)]
pub struct LocalTimestamp {
    /// The point in time.
    pub utc: Timestamp,
    /// Seconds that the shown wall clock is ahead of UTC.
    pub offset_secs: i32,
}

/// The offset, in seconds east of UTC, at which the public feed shows its
/// times: nine hours.
pub const FEED_OFFSET_SECS: i32 = 32400;

/// The form in which a form field writes a date and time, in the notation
/// of `chrono`: year, month and day with `-` between them, a `T`, then hour,
/// minute and second with `:` between them.
pub open spec fn datetime_format() -> Seq<char> {
    seq![
        '%', 'Y', '-', '%', 'm', '-', '%', 'd', 'T', '%', 'H', ':', '%', 'M', ':', '%', 'S',
    ]
}

/// Why a text was not taken as a date and time.
#[verifier::external_type_specification]
#[verifier::external_body]
pub struct ExParseError(chrono::format::ParseError);

/// A form field that should hold a date and time and does not.
#[derive(Debug, PartialEq, Eq)]
pub struct InvalidDate {
    /// What `chrono` found wrong with the text.
    pub cause: chrono::format::ParseError,
}

impl LocalTimestamp {
    /// A point in time, shown at the offset of the public feed.
    pub open spec fn spec_for_feed(utc: Timestamp) -> Self {
        LocalTimestamp { utc, offset_secs: FEED_OFFSET_SECS }
    }

    /// Shows a point in time at the offset of the public feed.
    pub fn for_feed(utc: Timestamp) -> (shown: Self)
        ensures
            shown == Self::spec_for_feed(utc),
    {
        LocalTimestamp { utc, offset_secs: FEED_OFFSET_SECS }
    }
}

/// Reads a wall-clock time in the machine's own time zone and gives the point
/// in time it stands for.
///
/// Calls `chrono::TimeZone::datetime_from_str` on `chrono::Local` and takes
/// the result apart with `DateTime::timestamp` and
/// `DateTime::timestamp_subsec_nanos`.  Which point in time a wall-clock time
/// stands for, and whether it stands for one at all, depends on the time zone
/// the machine is set to, so nothing is claimed of the result.
#[verifier::external_body]
#[allow(deprecated)]
fn local_datetime_from_str(text: &str, format: &str) -> (parsed: Result<
    Timestamp,
    chrono::format::ParseError,
>) {
    let moment = chrono::Local.datetime_from_str(text, format)?;
    Ok(Timestamp { secs: moment.timestamp(), nanos: moment.timestamp_subsec_nanos() })
}

/// What a date field holds, given what reading its text as a date and time
/// came to: the point in time, or the reason why there is none.
pub fn date_field(parsed: Result<Timestamp, chrono::format::ParseError>) -> (field: Result<
    Option<Timestamp>,
    InvalidDate,
>)
    ensures
        field == match parsed {
            Ok(moment) => Ok::<Option<Timestamp>, InvalidDate>(Some(moment)),
            Err(cause) => Err(InvalidDate { cause }),
        },
{
    match parsed {
        Ok(moment) => Ok(Some(moment)),
        Err(cause) => Err(InvalidDate { cause }),
    }
}

/// Gives the form in which a form field writes a date and time:
/// `%Y-%m-%dT%H:%M:%S`.
pub fn form_datetime_format() -> (format: &'static str)
    ensures
        format@ == datetime_format(),
{
    let format = "%Y-%m-%dT%H:%M:%S";
    proof {
        reveal_strlit("%Y-%m-%dT%H:%M:%S");
        assert(format@ =~= datetime_format());
    }
    format
}

/// Reads a date field of a form.  An empty field holds no date.  Any other
/// text is read in the form that [`form_datetime_format`] gives,
/// `YYYY-MM-DDThh:mm:ss`, on the machine's wall clock, and either stands for
/// a point in time or is refused.
pub fn parse_optdate(text: &str) -> (field: Result<Option<Timestamp>, InvalidDate>)
    ensures
        text@.len() == 0 ==> field == Ok::<Option<Timestamp>, InvalidDate>(None),
        text@.len() > 0 ==> !(field matches Ok(None)),
{
    if text.is_empty() {
        Ok(None)
    } else {
        date_field(local_datetime_from_str(text, form_datetime_format()))
    }
}

} // verus!
