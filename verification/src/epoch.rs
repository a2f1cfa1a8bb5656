//! The epoch register: the reference instant, in milliseconds since the Unix
//! epoch, against which every generated identifier's timestamp field is
//! offset. It defaults to 2021-01-01T00:00:00Z and may be replaced once, at
//! configuration time, from an RFC3339 timestamp string.

use vstd::prelude::*;

verus! {

/// Milliseconds since the Unix epoch at 2021-01-01T00:00:00Z, the default
/// reference instant.
pub const DEFAULT_EPOCH_MILLIS: u64 = 1609459200000;

/// The instant named by a valid RFC3339 timestamp, in (non-leap) milliseconds
/// since the Unix epoch, or nothing when the characters are not a valid
/// RFC3339 timestamp.
pub uninterp spec fn rfc3339_millis_of(s: Seq<char>) -> Option<i64>;

/// The error returned for an epoch string that is not a valid RFC3339
/// timestamp.
#[derive(Clone, Copy, Debug, PartialEq, Eq, Structural)]
pub struct ParseError;

/// How a parsed millisecond count, possibly negative for instants before the
/// Unix epoch, is stored in the register: reinterpreted modulo 2^64 as an
/// unsigned value.
pub open spec fn stored_epoch_of(millis: i64) -> u64 {
    if millis >= 0 {
        millis as u64
    } else {
        (millis + 0x1_0000_0000_0000_0000) as u64
    }
}

/// Relies on chrono::DateTime::parse_from_rfc3339 and
/// chrono::DateTime::timestamp_millis: whether a string is a valid RFC3339
/// timestamp, and the instant it names in milliseconds since the Unix epoch,
/// are functions of the characters alone.
#[verifier::external_body]
fn parse_rfc3339_millis(s: &str) -> (r: Option<i64>)
    ensures
        r == rfc3339_millis_of(s@),
{
    match chrono::DateTime::parse_from_rfc3339(s) {
        Ok(dt) => Some(dt.timestamp_millis()),
        Err(_) => None,
    }
}

/// Holds the reference instant that generated timestamps are offset against.
pub struct EpochRegister {
    millis: u64,
}

impl EpochRegister {
    /// The stored reference instant, in milliseconds since the Unix epoch.
    pub closed spec fn spec_millis(&self) -> u64 {
        self.millis
    }

    /// A register holding the default reference instant.
    pub fn new() -> (r: EpochRegister)
        ensures
            r.spec_millis() == DEFAULT_EPOCH_MILLIS,
    {
        EpochRegister { millis: DEFAULT_EPOCH_MILLIS }
    }

    /// Parses an RFC3339 timestamp string and stores the instant it names,
    /// replacing the previous reference value; a string that is not valid
    /// RFC3339 is rejected and leaves the register unchanged.
    pub fn set_epoch(&mut self, rfc3339_str: &str) -> (r: Result<(), ParseError>)
        ensures
            r is Ok <==> rfc3339_millis_of(rfc3339_str@) is Some,
            r is Ok ==> final(self).spec_millis() == stored_epoch_of(
                rfc3339_millis_of(rfc3339_str@).unwrap(),
            ),
            r is Err ==> *final(self) == *old(self) && r == Err::<(), ParseError>(ParseError),
    {
        match parse_rfc3339_millis(rfc3339_str) {
            Some(millis) => {
                self.millis = 0u64.wrapping_add_signed(millis);
                Ok(())
            },
            None => Err(ParseError),
        }
    }

    /// The currently stored reference value.
    pub fn get_epoch(&self) -> (r: u64)
        ensures
            r == self.spec_millis(),
    {
        self.millis
    }
}

impl ParseError {
    /// What went wrong, in words.
    pub fn message(&self) -> (m: String)
        ensures
            m@ == "malformed RFC3339 timestamp"@,
    {
        "malformed RFC3339 timestamp".to_owned()
    }
}

} // verus!
