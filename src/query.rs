use vstd::prelude::*;

verus! {

/// What `str::parse::<u64>` reads from a text, if anything.
pub uninterp spec fn u64_parsed(text: Seq<char>) -> Option<u64>;

/// Relies on `str::parse::<u64>`: the outcome depends on the text alone.
#[verifier::external_body]
fn parse_u64(text: &str) -> (r: Option<u64>)
    ensures
        r == u64_parsed(text@),
{
    text.parse::<u64>().ok()
}

/// The number of rows a listing returns when the request names none.
pub const DEFAULT_LIMIT: u64 = 50;

/// The limit that a listing request asks for: the number given, or the
/// default when none is given or it does not read as a `u64`.
pub open spec fn requested_limit(text: Option<&str>) -> u64 {
    match text {
        Some(t) => match u64_parsed(t@) {
            Some(n) => n,
            None => DEFAULT_LIMIT,
        },
        None => DEFAULT_LIMIT,
    }
}

pub fn parse_limit(text: Option<&str>) -> (r: u64)
    ensures
        r == requested_limit(text),
{
    match text {
        Some(t) => match parse_u64(t) {
            Some(n) => n,
            None => DEFAULT_LIMIT,
        },
        None => DEFAULT_LIMIT,
    }
}

} // verus!
