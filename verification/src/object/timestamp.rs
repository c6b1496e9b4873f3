//! Points in time, as far as this layer looks at them.

use vstd::prelude::*;

verus! {

/// Nanoseconds in one second.
pub const NANOS_PER_SECOND: u32 = 1_000_000_000u32;

/// A point in time: whole seconds since the Unix epoch, and the nanoseconds
/// within that second. Two timestamps are equal when they name the same
/// instant.
#[derive(Debug, Clone, Copy, PartialEq, Eq, Hash, Structural)]
pub struct Timestamp {
    seconds: i64,
    nanosecond: u32,
}

/// What went wrong when a date and time was parsed.
#[verifier::external_type_specification]
#[verifier::external_body]
pub struct ExParse(time::error::Parse);

/// The instant that a text in the date-time format of RFC 3339 names, as
/// seconds since the Unix epoch and nanoseconds within the second; `None`
/// where the text is not of that format.
pub uninterp spec fn rfc3339_instant(text: Seq<char>) -> Option<(i64, u32)>;

/// `time::OffsetDateTime::parse` with the format `Rfc3339`, the result read
/// through `unix_timestamp` and `nanosecond`. Claimed: the outcome depends on
/// the text alone, and the nanoseconds lie within one second, as the
/// documentation of `nanosecond` says.
#[verifier::external_body]
fn parse_rfc3339_parts(text: &str) -> (r: Result<(i64, u32), time::error::Parse>)
    ensures
        rfc3339_instant(text@) == match r {
            Ok(parts) => Some(parts),
            Err(_) => None::<(i64, u32)>,
        },
        r matches Ok(parts) ==> parts.1 < NANOS_PER_SECOND,
{
    match time::OffsetDateTime::parse(text, &time::format_description::well_known::Rfc3339) {
        Ok(v) => Ok((v.unix_timestamp(), v.nanosecond())),
        Err(e) => Err(e),
    }
}

/// The words of a parse error, as its `Debug` form gives them. Nothing is
/// claimed of them.
#[verifier::external_body]
fn parse_error_text(e: &time::error::Parse) -> String {
    format!("{:?}", e)
}

impl Timestamp {
    #[verifier::type_invariant]
    spec fn in_range(self) -> bool {
        self.nanosecond < NANOS_PER_SECOND
    }

    /// The instant `nanosecond` nanoseconds after second `seconds`.
    pub closed spec fn at(seconds: i64, nanosecond: u32) -> Timestamp {
        Timestamp { seconds, nanosecond }
    }

    /// Seconds since the Unix epoch; negative before it.
    pub closed spec fn seconds(self) -> i64 {
        self.seconds
    }

    /// Nanoseconds within the second.
    pub closed spec fn subsec(self) -> u32 {
        self.nanosecond
    }

    /// A timestamp is made of its two parts and of nothing else.
    pub broadcast proof fn lemma_parts(seconds: i64, nanosecond: u32)
        ensures
            (#[trigger] Timestamp::at(seconds, nanosecond)).seconds() == seconds,
            Timestamp::at(seconds, nanosecond).subsec() == nanosecond,
    {
    }

    /// The instant `nanosecond` nanoseconds after `seconds`, or `None` where
    /// `nanosecond` does not lie within one second.
    pub fn new(seconds: i64, nanosecond: u32) -> (r: Option<Timestamp>)
        ensures
            r == if nanosecond < NANOS_PER_SECOND {
                Some(Timestamp::at(seconds, nanosecond))
            } else {
                None
            },
    {
        if nanosecond < NANOS_PER_SECOND {
            Some(Timestamp { seconds, nanosecond })
        } else {
            None
        }
    }

    /// The instant at the start of second `seconds`.
    pub fn from_unix_timestamp(seconds: i64) -> (r: Timestamp)
        ensures
            r == Timestamp::at(seconds, 0),
    {
        Timestamp { seconds, nanosecond: 0 }
    }

    /// The instant that `text` names in the date-time format of RFC 3339, or
    /// the parser's words where it names none.
    pub fn parse_rfc3339(text: &str) -> (r: Result<Timestamp, String>)
        ensures
            match rfc3339_instant(text@) {
                Some(parts) => r == Ok::<Timestamp, String>(Timestamp::at(parts.0, parts.1)),
                None => r is Err,
            },
    {
        match parse_rfc3339_parts(text) {
            Ok(parts) => Ok(Timestamp { seconds: parts.0, nanosecond: parts.1 }),
            Err(e) => Err(parse_error_text(&e)),
        }
    }

    /// Seconds since the Unix epoch.
    pub fn unix_timestamp(&self) -> (r: i64)
        ensures
            r == self.seconds(),
    {
        self.seconds
    }

    /// Nanoseconds within the second, always below [`NANOS_PER_SECOND`].
    pub fn nanosecond(&self) -> (r: u32)
        ensures
            r == self.subsec(),
            r < NANOS_PER_SECOND,
    {
        proof {
            use_type_invariant(self);
        }
        self.nanosecond
    }

    /// This instant with what lies below the second cut off.
    pub fn truncate_to_second(self) -> (r: Timestamp)
        ensures
            r == Timestamp::at(self.seconds(), 0),
    {
        Timestamp { seconds: self.seconds, nanosecond: 0 }
    }
}

} // verus!
