//! Regular expressions, compiled and searched by the `regex` crate.

use vstd::prelude::*;

verus! {

/// `regex::Regex`, carried opaquely.
#[verifier::external_type_specification]
#[verifier::external_body]
pub struct ExRegex(regex::Regex);

/// Whether `regex::Regex::new` accepts `pattern`.
pub uninterp spec fn regex_compiles(pattern: Seq<char>) -> bool;

/// What `regex::Regex::captures` reports when the regex compiled from
/// `pattern` searches `haystack`: `None` when there is no match, else the
/// text of every capture group of the leftmost-first match, in group order
/// (group 0 is the whole match), `None` for a group that did not take part.
pub uninterp spec fn regex_captures(pattern: Seq<char>, haystack: Seq<char>) -> Option<
    Seq<Option<Seq<char>>>,
>;

/// A compiled regular expression together with the pattern it was compiled
/// from.
pub struct CompiledPattern {
    source: String,
    regex: regex::Regex,
}

impl View for CompiledPattern {
    type V = Seq<char>;

    /// The pattern the regex was compiled from.
    closed spec fn view(&self) -> Seq<char> {
        self.source@
    }
}

/// Compiles `pattern` with `regex::Regex::new`, keeping the pattern beside
/// the compiled regex. Success is named `regex_compiles(pattern)`; the
/// compiled value is claimed to remember its pattern.
#[verifier::external_body]
pub(crate) fn compile_pattern(pattern: &str) -> (r: Result<CompiledPattern, regex::Error>)
    ensures
        r is Ok <==> regex_compiles(pattern@),
        r matches Ok(c) ==> c@ == pattern@,
{
    regex::Regex::new(pattern).map(|regex| CompiledPattern { source: pattern.to_string(), regex })
}

/// Searches `haystack` with `regex::Regex::captures` and returns the text of
/// each capture group (`Captures::iter`, each match taken with `as_str`).
/// The result is named `regex_captures(pattern, haystack)`.
#[verifier::external_body]
pub(crate) fn captures(c: &CompiledPattern, haystack: &str) -> (r: Option<Vec<Option<String>>>)
    ensures
        r.deep_view() == regex_captures(c@, haystack@),
{
    c.regex.captures(haystack).map(
        |caps| caps.iter().map(|m| m.map(|m| m.as_str().to_string())).collect(),
    )
}

} // verus!
