//! A moment as Exif and XMP give it: with or without an offset from UTC.
use vstd::prelude::*;

verus! {

/// A date and time.
///
/// `timestamp` counts the seconds since 1970-01-01 00:00:00 and `nanos` the
/// nanoseconds of the second. With an offset the moment is known: the
/// timestamp is in UTC and `offset` tells how many seconds the local time
/// is ahead of UTC. Without one, the timestamp is the local date and time
/// read as if it were UTC.
#[derive(Debug, Clone, Copy, PartialEq, Eq, Structural)]
pub enum DateTime {
    FixedOffset { timestamp: i64, nanos: u32, offset: i32 },
    Naive { timestamp: i64, nanos: u32 },
}

/// What an RFC 3339 parser reads from a text: the seconds since the epoch
/// in UTC, the nanoseconds of the second and the offset from UTC in
/// seconds; `None` for a text that is not a date and time in that format.
pub uninterp spec fn rfc3339(text: Seq<char>) -> Option<(i64, u32, i32)>;

/// Parses a date and time in the format of RFC 3339.
///
/// Calls `chrono::DateTime::parse_from_rfc3339`. The contract names what
/// comes out; it is a function of the text alone.
#[verifier::external_body]
pub(crate) fn parse_rfc3339(text: &str) -> (parsed: Option<(i64, u32, i32)>)
    ensures
        parsed == rfc3339(text@),
{
    match chrono::DateTime::parse_from_rfc3339(text) {
        Ok(x) => Some((x.timestamp(), x.timestamp_subsec_nanos(), x.offset().local_minus_utc())),
        Err(_) => None,
    }
}

impl DateTime {
    /// The date and time that was parsed, with its offset if the text had
    /// one of its own, without it if the offset was only put there for the
    /// parser.
    pub open spec fn of_parsed(parsed: (i64, u32, i32), with_offset: bool) -> DateTime {
        if with_offset {
            DateTime::FixedOffset { timestamp: parsed.0, nanos: parsed.1, offset: parsed.2 }
        } else {
            DateTime::Naive { timestamp: parsed.0, nanos: parsed.1 }
        }
    }

    /// The date and time that was parsed.
    pub fn from_parsed(parsed: (i64, u32, i32), with_offset: bool) -> (moment: DateTime)
        ensures
            moment == DateTime::of_parsed(parsed, with_offset),
    {
        if with_offset {
            DateTime::FixedOffset { timestamp: parsed.0, nanos: parsed.1, offset: parsed.2 }
        } else {
            DateTime::Naive { timestamp: parsed.0, nanos: parsed.1 }
        }
    }

    /// The date and time that a text in the format of RFC 3339 gives.
    pub open spec fn read(text: Seq<char>, with_offset: bool) -> Option<DateTime> {
        match rfc3339(text) {
            Some(parsed) => Some(DateTime::of_parsed(parsed, with_offset)),
            None => None,
        }
    }

    /// Reads a date and time in the format of RFC 3339.
    pub fn parse(text: &str, with_offset: bool) -> (moment: Option<DateTime>)
        ensures
            moment == DateTime::read(text@, with_offset),
    {
        match parse_rfc3339(text) {
            Some(parsed) => Some(DateTime::from_parsed(parsed, with_offset)),
            None => None,
        }
    }
}

} // verus!
