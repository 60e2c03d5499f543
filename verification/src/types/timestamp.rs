//! Instants at which records were created and updated, with millisecond
//! precision, written in RFC 3339.

use vstd::prelude::*;

verus! {

/// The RFC 3339 text that `chrono` writes for the instant `millis`
/// milliseconds after 1970-01-01T00:00:00Z; `None` where `chrono` cannot
/// represent the instant.
pub uninterp spec fn rfc3339_of_millis(millis: int) -> Option<Seq<char>>;

/// What `chrono::DateTime::parse_from_rfc3339` makes of a text: the instant
/// in milliseconds after 1970-01-01T00:00:00Z, or the text of the parse error.
pub uninterp spec fn rfc3339_parsed(text: Seq<char>) -> Result<int, Seq<char>>;

/// Calls `chrono::DateTime::from_timestamp_millis` and, where that gives an
/// instant, `to_rfc3339` on it. The contract claims only that the outcome is
/// a function of `millis`.
#[verifier::external_body]
fn format_rfc3339(millis: i64) -> (r: Option<String>)
    ensures
        match r {
            Some(text) => rfc3339_of_millis(millis as int) == Some(text@),
            None => rfc3339_of_millis(millis as int) is None,
        },
{
    match chrono::DateTime::from_timestamp_millis(millis) {
        Some(instant) => Some(instant.to_rfc3339()),
        None => None,
    }
}

/// Calls `chrono::DateTime::parse_from_rfc3339` and, where that gives an
/// instant, `timestamp_millis` on it. The contract claims that the outcome is
/// a function of the text, and that an instant which was read can be written
/// again: `chrono` documents that `from_timestamp_millis` round-trips with
/// `timestamp_millis`.
#[verifier::external_body]
fn parse_rfc3339(text: &str) -> (r: Result<i64, String>)
    ensures
        match r {
            Ok(millis) => rfc3339_parsed(text@) == Ok::<int, Seq<char>>(millis as int)
                && rfc3339_of_millis(millis as int) is Some,
            Err(cause) => rfc3339_parsed(text@) == Err::<int, Seq<char>>(cause@),
        },
{
    match chrono::DateTime::parse_from_rfc3339(text) {
        Ok(instant) => Ok(instant.timestamp_millis()),
        Err(e) => Err(e.to_string()),
    }
}

/// The pattern in which instants are stored, in the notation of `chrono`:
/// RFC 3339 in UTC with three digits of milliseconds.
pub open spec fn stored_pattern() -> Seq<char> {
    "%Y-%m-%dT%H:%M:%S%.3fZ"@
}

/// The text that `chrono` writes for the instant `millis` milliseconds after
/// 1970-01-01T00:00:00Z under `pattern`; `None` where `chrono` cannot
/// represent the instant.
pub uninterp spec fn instant_formatted(millis: int, pattern: Seq<char>) -> Option<Seq<char>>;

/// Calls `chrono::DateTime::from_timestamp_millis` and, where that gives an
/// instant, `format` on it. The contract claims that the outcome is a
/// function of `millis` and the pattern, and that there is a text for
/// exactly the instants that `from_timestamp_millis` accepts, which are
/// those that can be written in RFC 3339. The pattern is fixed, because
/// `chrono` panics on a pattern that it does not know.
#[verifier::external_body]
fn format_instant(millis: i64, pattern: &str) -> (r: Option<String>)
    requires
        pattern@ == stored_pattern(),
    ensures
        match r {
            Some(text) => instant_formatted(millis as int, pattern@) == Some(text@),
            None => instant_formatted(millis as int, pattern@) is None,
        },
        r is Some <==> rfc3339_of_millis(millis as int) is Some,
{
    match chrono::DateTime::from_timestamp_millis(millis) {
        Some(instant) => Some(instant.format(pattern).to_string()),
        None => None,
    }
}

/// An instant in UTC, in milliseconds. Only instants that can be written in
/// RFC 3339 are held.
#[derive(Clone, Copy, Debug, PartialEq, Eq, PartialOrd, Ord, Structural)]
pub struct Timestamp {
    millis: i64,
}

impl View for Timestamp {
    type V = int;

    /// Milliseconds after 1970-01-01T00:00:00Z.
    closed spec fn view(&self) -> int {
        self.millis as int
    }
}

impl Timestamp {
    #[verifier::type_invariant]
    spec fn writable(self) -> bool {
        rfc3339_of_millis(self.millis as int) is Some
    }

    /// The instant `millis` milliseconds after 1970-01-01T00:00:00Z, where it
    /// can be written in RFC 3339.
    pub fn from_millis(millis: i64) -> (r: Option<Self>)
        ensures
            rfc3339_of_millis(millis as int) is Some ==> r is Some && r->0@ == millis,
            rfc3339_of_millis(millis as int) is None ==> r is None,
    {
        match format_rfc3339(millis) {
            Some(_) => Some(Timestamp { millis }),
            None => None,
        }
    }

    pub fn millis(&self) -> (m: i64)
        ensures
            m == self@,
            rfc3339_of_millis(m as int) is Some,
    {
        proof {
            use_type_invariant(self);
        }
        self.millis
    }

    /// The instant in RFC 3339.
    pub fn to_rfc3339(&self) -> (s: String)
        ensures
            rfc3339_of_millis(self@) == Some(s@),
    {
        proof {
            use_type_invariant(self);
        }
        match format_rfc3339(self.millis) {
            Some(text) => text,
            None => String::new(),
        }
    }

    /// The instant as it is stored, such as `2026-01-10T12:30:00.250Z`.
    pub fn to_stored_text(&self) -> (s: String)
        ensures
            instant_formatted(self@, stored_pattern()) == Some(s@),
    {
        proof {
            use_type_invariant(self);
        }
        match format_instant(self.millis, "%Y-%m-%dT%H:%M:%S%.3fZ") {
            Some(text) => text,
            None => String::new(),
        }
    }

    /// The instant that a parse gave, or the error of the parse. An instant
    /// that cannot be written in RFC 3339 is refused.
    pub fn from_parsed(parsed: Result<i64, String>) -> (r: Result<Self, String>)
        ensures
            match parsed {
                Ok(millis) => if rfc3339_of_millis(millis as int) is Some {
                    r is Ok && r->Ok_0@ == millis
                } else {
                    r is Err && r->Err_0@ == "instant out of range"@
                },
                Err(cause) => r == Err::<Self, String>(cause),
            },
    {
        match parsed {
            Ok(millis) => match Timestamp::from_millis(millis) {
                Some(instant) => Ok(instant),
                None => Err("instant out of range".to_owned()),
            },
            Err(cause) => Err(cause),
        }
    }

    /// Reads an instant from RFC 3339, dropping what is finer than a
    /// millisecond.
    pub fn parse_rfc3339(text: &str) -> (r: Result<Self, String>)
        ensures
            match rfc3339_parsed(text@) {
                Ok(millis) => r is Ok && r->Ok_0@ == millis,
                Err(cause) => r is Err && r->Err_0@ == cause,
            },
    {
        Timestamp::from_parsed(parse_rfc3339(text))
    }
}

} // verus!
