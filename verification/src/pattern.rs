//! Compiled pattern rules. The matcher itself comes from the `regex` crate;
//! the library tracks the pattern text it was compiled from and states
//! matching over that text.

use vstd::prelude::*;

verus! {

/// Whether `regex::Regex::new` accepts this pattern text.
pub uninterp spec fn pattern_compiles(pattern: Seq<char>) -> bool;

/// Whether the matcher compiled from `pattern` finds a match in `text`.
pub uninterp spec fn pattern_matches(pattern: Seq<char>, text: Seq<char>) -> bool;

#[verifier::external_type_specification]
#[verifier::external_body]
pub struct ExRegex(regex::Regex);

/// Relies on regex::Regex::clone, called by the derived clone of
/// [`CompiledPattern`]. Nothing is claimed of the cloned matcher.
pub assume_specification[ <regex::Regex as Clone>::clone ](re: &regex::Regex) -> regex::Regex;

/// A compiled matcher together with the pattern text it was compiled from.
/// Its view is that pattern text.
#[derive(Clone)]
pub struct CompiledPattern {
    matcher: regex::Regex,
    source: String,
}

impl View for CompiledPattern {
    type V = Seq<char>;

    closed spec fn view(&self) -> Seq<char> {
        self.source@
    }
}

impl CompiledPattern {
    /// Relies on regex::Regex::new: whether a pattern compiles is decided by
    /// the pattern text alone, and the returned matcher matches by that text.
    #[verifier::external_body]
    pub(crate) fn compile(pattern: &str) -> (r: Option<CompiledPattern>)
        ensures
            r is Some <==> pattern_compiles(pattern@),
            r matches Some(p) ==> p@ == pattern@,
    {
        match regex::Regex::new(pattern) {
            Ok(matcher) => Some(CompiledPattern { matcher, source: String::from(pattern) }),
            Err(_) => None,
        }
    }

    /// Relies on regex::Regex::is_match: the outcome depends on the pattern
    /// text and the haystack alone.
    #[verifier::external_body]
    pub(crate) fn is_match(&self, text: &str) -> (r: bool)
        ensures
            r == pattern_matches(self@, text@),
    {
        self.matcher.is_match(text)
    }
}

} // verus!
