//! Ignore patterns: the boundary to the `regex` crate.
//!
//! Everything proved about patterns rests on the contracts in this file.

use regex::Regex;
use std::str::FromStr;
use vstd::prelude::*;

verus! {

/// `regex::Regex`, a compiled matcher. Nothing inside it is visible here.
#[verifier::external_type_specification]
#[verifier::external_body]
pub struct ExRegex(regex::Regex);

/// `regex::Error`, the reason a pattern was turned down. Nothing inside it is visible here.
#[verifier::external_type_specification]
#[verifier::external_body]
pub struct ExRegexError(regex::Error);

/// What `regex::Regex::new` objects to in `pattern`: nothing where it
/// compiles the pattern, and otherwise the message of the error it returns.
pub uninterp spec fn rejection(pattern: Seq<char>) -> Option<Seq<char>>;

/// The pattern text that a compiled matcher reports through `Regex::as_str`.
pub uninterp spec fn pattern_source(matcher: Regex) -> Seq<char>;

/// The text that a compile error of `regex` shows through `Display`.
pub uninterp spec fn error_message(error: regex::Error) -> Seq<char>;

/// Whether `pattern` compiles.
pub open spec fn pattern_compiles(pattern: Seq<char>) -> bool {
    rejection(pattern) is None
}

/// Calls `Regex::from_str`, which forwards to `Regex::new`.
///
/// Trusted: the outcome depends on the pattern alone, as `rejection` names
/// it. The matcher that comes back keeps the text it was compiled from, and
/// the error that comes back shows the message that belongs to the pattern.
#[verifier::external_body]
pub(crate) fn compile_pattern(pattern: &str) -> (res: Result<Regex, regex::Error>)
    ensures
        res.is_ok() == (rejection(pattern@) is None),
        res matches Ok(matcher) ==> pattern_source(matcher) == pattern@,
        res matches Err(error) ==> rejection(pattern@) == Some(error_message(error)),
{
    Regex::from_str(pattern)
}

/// Calls `Regex::to_string`, whose `Display` impl writes `Regex::as_str`.
///
/// Trusted: the text is the one the matcher was compiled from.
#[verifier::external_body]
pub(crate) fn pattern_text(matcher: &Regex) -> (text: String)
    ensures
        text@ == pattern_source(*matcher),
{
    matcher.to_string()
}

/// Calls `regex::Error::to_string`.
///
/// Trusted: the text depends on the error alone, as `error_message` names it.
#[verifier::external_body]
pub(crate) fn error_text(error: &regex::Error) -> (text: String)
    ensures
        text@ == error_message(*error),
{
    error.to_string()
}

} // verus!
