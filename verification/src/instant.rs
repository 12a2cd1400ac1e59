//! Instants and their RFC 3339 notation.

use time::format_description::well_known::Rfc3339;
use time::OffsetDateTime;
use vstd::prelude::*;

use crate::failure::Failure;

verus! {

/// An instant, in nanoseconds since the Unix epoch.
#[derive(Clone, Copy, Debug, PartialEq, Eq, Structural)]
pub struct Timestamp {
    pub unix_nanos: i128,
}

/// The start of the year -9999, the first instant that a clock can show.
pub const EARLIEST_NANOS: i128 = -377_705_116_800_000_000_000;

/// The start of the year 0.
pub const YEAR_ZERO_NANOS: i128 = -62_167_219_200_000_000_000;

/// The end of the year 9999, the first instant that no clock can show.
pub const END_NANOS: i128 = 253_402_300_800_000_000_000;

/// The result of formatting an instant by RFC 3339: the text, or why there is none.
pub uninterp spec fn rfc3339(unix_nanos: int) -> Result<Seq<char>, Seq<char>>;

/// The characters of a text or of an error's text.
pub open spec fn viewed(r: Result<String, String>) -> Result<Seq<char>, Seq<char>> {
    match r {
        Ok(text) => Ok(text@),
        Err(error) => Err(error@),
    }
}

impl Timestamp {
    /// Whether a clock can show this instant and the one `seconds` later.
    pub open spec fn reaches(self, seconds: int) -> bool {
        &&& EARLIEST_NANOS <= self.unix_nanos
        &&& self.unix_nanos + seconds * 1_000_000_000 < END_NANOS
    }

    /// The instant `seconds` later.
    pub open spec fn later(self, seconds: int) -> Timestamp {
        Timestamp { unix_nanos: (self.unix_nanos + seconds * 1_000_000_000) as i128 }
    }

    pub fn plus_seconds(self, seconds: u64) -> (r: Timestamp)
        requires
            self.reaches(seconds as int),
        ensures
            r == self.later(seconds as int),
    {
        Timestamp { unix_nanos: self.unix_nanos + seconds as i128 * 1_000_000_000 }
    }

    /// Whether a clock can show this instant and the one `seconds` later.
    pub fn can_reach(self, seconds: u64) -> (r: bool)
        ensures
            r == self.reaches(seconds as int),
    {
        EARLIEST_NANOS <= self.unix_nanos && self.unix_nanos < END_NANOS - seconds as i128
            * 1_000_000_000
    }
}

/// Formats an instant with `time`'s `OffsetDateTime::format` and its `Rfc3339` description.
///
/// The text is a function of the instant alone. There is one exactly for the years 0 to 9999,
/// the years that RFC 3339 can write; otherwise the error's text is given.
#[verifier::external_body]
fn format_rfc3339(unix_nanos: i128) -> (r: Result<String, String>)
    ensures
        viewed(r) == rfc3339(unix_nanos as int),
        r is Ok <==> YEAR_ZERO_NANOS <= unix_nanos < END_NANOS,
{
    OffsetDateTime::from_unix_timestamp_nanos(unix_nanos)
        .map_err(|error| error.to_string())?
        .format(&Rfc3339)
        .map_err(|error| error.to_string())
}

/// The RFC 3339 text of an instant.
pub fn format_time(value: Timestamp) -> (r: Result<String, Failure>)
    ensures
        r is Ok <==> YEAR_ZERO_NANOS <= value.unix_nanos < END_NANOS,
        match r {
            Ok(text) => rfc3339(value.unix_nanos as int) == Ok::<Seq<char>, Seq<char>>(text@),
            Err(Failure::Timestamp(error)) => rfc3339(value.unix_nanos as int) == Err::<
                Seq<char>,
                Seq<char>,
            >(error@),
            Err(_) => false,
        },
{
    match format_rfc3339(value.unix_nanos) {
        Ok(text) => Ok(text),
        Err(error) => Err(Failure::Timestamp(error)),
    }
}

} // verus!
