//! The two computations that are left to other crates: matching a regular
//! expression and reading an RFC 3339 instant. Nothing in this file is proved;
//! each contract says what the crate's own documentation says.

use vstd::prelude::*;

verus! {

/// What group `group` of the leftmost match of the regular expression
/// `pattern` in `text` holds, as the `regex` crate finds it: `None` where
/// `pattern` is no regular expression to that crate, where nothing in `text`
/// matches it, or where the match leaves that group out.
pub uninterp spec fn regex_capture(pattern: Seq<char>, text: Seq<char>, group: nat) -> Option<
    Seq<char>,
>;

/// The instant that `text` names, `None` where `text` is not an RFC 3339 date
/// and time to the `chrono` crate: the whole seconds from the Unix epoch to
/// it, and the nanoseconds past them.
pub uninterp spec fn rfc3339_instant(text: Seq<char>) -> Option<(int, int)>;

/// Compiles `pattern` with `regex::Regex::new`, searches `text` with
/// `Regex::captures` and copies out group `group` of the match. The contract
/// claims only that the answer is the one named `regex_capture`: the same
/// pattern, text and group always give the same answer.
#[verifier::external_body]
pub(crate) fn capture(pattern: &str, text: &str, group: usize) -> (found: Option<String>)
    ensures
        match found {
            Some(part) => regex_capture(pattern@, text@, group as nat) == Some(part@),
            None => regex_capture(pattern@, text@, group as nat) is None,
        },
{
    let expression = regex::Regex::new(pattern).ok()?;
    let captures = expression.captures(text)?;
    let part = captures.get(group)?;
    Some(part.as_str().to_string())
}

/// Reads `text` with `chrono::DateTime::parse_from_rfc3339` and takes the
/// instant's `timestamp` and `timestamp_subsec_nanos`. The contract claims
/// only that the answer is the one named `rfc3339_instant`: the same text
/// always names the same instant.
#[verifier::external_body]
pub(crate) fn parse_rfc3339(text: &str) -> (instant: Option<(i64, u32)>)
    ensures
        match instant {
            Some(parts) => rfc3339_instant(text@) == Some((parts.0 as int, parts.1 as int)),
            None => rfc3339_instant(text@) is None,
        },
{
    match chrono::DateTime::parse_from_rfc3339(text) {
        Ok(instant) => Some((instant.timestamp(), instant.timestamp_subsec_nanos())),
        Err(_) => None,
    }
}

} // verus!
