//! The heading pattern and the calls into the `regex` crate.
//!
//! Everything that is believed of `regex` without proof stands in this file.
//! Of a search it is believed only that it is a function of the compiled
//! pattern, the group name and the text: what it finds is checked against the
//! text before it is used (see `entry::heading_ok`).

use regex::Regex;
use vstd::prelude::*;

verus! {

/// The pattern of a line that opens a version section: at the start of a
/// line `##`, then whitespace and the word `Version`. Where whitespace, a
/// version token made of numbers, punctuation and `~`, and one whitespace
/// character that ends the token follow, the line is the heading of an entry
/// and the group `version` holds the token. Where they do not, the line is
/// the heading of no entry and only ends the entry before it.
pub const CHANGELOG_REGEX: &'static str =
    r"(?m)^##\s+Version(?:\s+(?P<version>[\p{N}\p{P}~]+)\s)?";

/// The name of the capture group that holds the version token.
pub const VERSION_GROUP: &'static str = "version";

/// A compiled pattern of the `regex` crate.
#[verifier::external_type_specification]
#[verifier::external_body]
pub struct ExRegex(regex::Regex);

/// A range of byte offsets into a text, `end` excluded.
#[derive(Clone, Copy, Debug, PartialEq, Eq)]
pub struct Span {
    pub start: usize,
    pub end: usize,
}

/// The offsets of one match: of the whole match, and of a named group where
/// it took part in the match.
#[derive(Clone, Copy, Debug, PartialEq, Eq)]
pub struct Capture {
    pub whole: Span,
    pub group: Option<Span>,
}

/// What `Regex::new` has against `pattern`: nothing where the pattern
/// compiles, else the text of the error that it returns.
pub uninterp spec fn compile_failure(pattern: Seq<char>) -> Option<Seq<char>>;

/// The text that a compiled pattern was made from: what `Regex::as_str`
/// returns.
pub uninterp spec fn regex_pattern(regex: Regex) -> Seq<char>;

/// The successive non-overlapping matches of a compiled pattern in
/// `haystack`, in the order in which `Regex::captures_iter` yields them, each
/// with the offsets of the group named `group`.
pub uninterp spec fn captures_in(
    regex: Regex,
    group: Seq<char>,
    haystack: Seq<char>,
) -> Seq<Capture>;

/// Calls `Regex::new`, and `Display` of the `regex::Error` where it fails.
/// Claimed: whether a pattern compiles, and with which error text it does
/// not, depends on the pattern text alone; a compiled pattern keeps the text
/// it was made from.
#[verifier::external_body]
pub(crate) fn compile(pattern: &str) -> (compiled: Result<Regex, String>)
    ensures
        match compiled {
            Ok(regex) => compile_failure(pattern@) is None && regex_pattern(regex) == pattern@,
            Err(cause) => compile_failure(pattern@) == Some(cause@),
        },
{
    Regex::new(pattern).map_err(|error| format!("{error}"))
}

/// Calls `Regex::captures_iter` and copies the offsets out of each
/// `Captures`: those of the whole match and those of the group named
/// `group`. Claimed: the same compiled pattern, group name and haystack give
/// the same matches.
#[verifier::external_body]
pub(crate) fn captures(regex: &Regex, group: &str, haystack: &str) -> (found: Vec<Capture>)
    ensures
        found@ == captures_in(*regex, group@, haystack@),
{
    let mut found = Vec::new();
    for caps in regex.captures_iter(haystack) {
        let whole = caps.get_match();
        let named = caps.name(group);
        found.push(Capture {
            whole: Span { start: whole.start(), end: whole.end() },
            group: named.map(|part| Span { start: part.start(), end: part.end() }),
        });
    }
    found
}

} // verus!
