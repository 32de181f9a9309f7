use vstd::prelude::*;

verus! {

/// A point in time: whole seconds since the Unix epoch and the nanoseconds
/// past that second (above 999_999_999 only inside a leap second).
#[derive(Clone, Copy, Debug, PartialEq, Eq, Structural)]
pub struct Stamp {
    pub secs: i64,
    pub nanos: u32,
}

/// Strict chronological order: by second, then by the fraction.
pub open spec fn precedes(a: Stamp, b: Stamp) -> bool {
    a.secs < b.secs || (a.secs == b.secs && a.nanos < b.nanos)
}

/// Chronological order, equal stamps included.
pub open spec fn not_after(a: Stamp, b: Stamp) -> bool {
    precedes(a, b) || a == b
}

/// What a strftime-style timestamp format reads from a text, if anything.
pub uninterp spec fn stamp_read(text: Seq<char>, format: Seq<char>) -> Option<Stamp>;

/// The one textual timestamp format that requests use.
pub const STAMP_FORMAT: &'static str = "%Y-%m-%d %H:%M:%S";

/// What the format `YYYY-MM-DD HH:MM:SS` reads from a text, if anything.
pub open spec fn stamp_parsed(text: Seq<char>) -> Option<Stamp> {
    stamp_read(text, STAMP_FORMAT@)
}

/// Relies on chrono's `NaiveDateTime::parse_from_str`, the result taken as
/// UTC: the outcome depends on the text and the format alone.
#[verifier::external_body]
fn parse_with_chrono(text: &str, format: &str) -> (r: Option<Stamp>)
    ensures
        r == stamp_read(text@, format@),
{
    match chrono::NaiveDateTime::parse_from_str(text, format) {
        Ok(t) => Some(Stamp { secs: t.and_utc().timestamp(), nanos: t.and_utc().timestamp_subsec_nanos() }),
        Err(_) => None,
    }
}

impl Stamp {
    /// Reads a timestamp written as `YYYY-MM-DD HH:MM:SS`.
    pub fn parse(text: &str) -> (r: Option<Stamp>)
        ensures
            r == stamp_parsed(text@),
    {
        parse_with_chrono(text, STAMP_FORMAT)
    }

    /// Whether `self` lies strictly before `other`.
    pub fn is_before(&self, other: &Stamp) -> (r: bool)
        ensures
            r == precedes(*self, *other),
    {
        self.secs < other.secs || (self.secs == other.secs && self.nanos < other.nanos)
    }

    /// Whether `self` lies before `other` or equals it.
    pub fn is_not_after(&self, other: &Stamp) -> (r: bool)
        ensures
            r == not_after(*self, *other),
    {
        self.is_before(other) || (self.secs == other.secs && self.nanos == other.nanos)
    }
}

} // verus!
