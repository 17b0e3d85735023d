//! The compiled regex matcher, held behind trusted declarations.  The
//! matcher is built once per search with a fixed configuration: newline as
//! the line terminator, multi-line matching disabled, smart case enabled.

use crate::errors::SearchError;
use grep::matcher::Matcher;
use vstd::prelude::*;

verus! {

#[verifier::external_type_specification]
#[verifier::external_body]
pub struct ExRegexMatcher(grep::regex::RegexMatcher);

/// Relies on the derived `Clone` of `grep::regex::RegexMatcher`: cloning
/// yields the same compiled matcher.
pub assume_specification[ <grep::regex::RegexMatcher as Clone>::clone ](
    m: &grep::regex::RegexMatcher,
) -> (r: grep::regex::RegexMatcher)
    ensures
        r == *m,
;

/// Whether the pattern compiles under the fixed configuration.  Named after
/// `grep::regex::RegexMatcherBuilder::build`, whose success depends on the
/// pattern alone once the configuration is fixed.
pub uninterp spec fn regex_valid(pat: Seq<char>) -> bool;

/// The first-match byte range the compiled regex reports for a haystack.
/// Named after `grep::matcher::Matcher::find`, whose result depends on the
/// pattern and the haystack alone.
pub uninterp spec fn regex_find_of(pat: Seq<char>, hay: Seq<u8>) -> Option<(usize, usize)>;

/// A compiled regex matcher together with the pattern it was built from.
/// The fields are private to this module and handles are only created by
/// `regex_build`, so the compiled matcher always belongs to the stored
/// pattern.
#[derive(Clone)]
pub struct RegexHandle {
    pattern: String,
    matcher: grep::regex::RegexMatcher,
}

impl RegexHandle {
    /// The pattern this handle was compiled from.
    pub closed spec fn spec_pattern(&self) -> Seq<char> {
        self.pattern@
    }

    /// The compiled matcher the handle carries.
    pub closed spec fn spec_matcher(&self) -> grep::regex::RegexMatcher {
        self.matcher
    }

    /// Hands the compiled matcher out, consuming the handle.
    pub fn into_matcher(self) -> (r: grep::regex::RegexMatcher)
        ensures
            r == self.spec_matcher(),
    {
        self.matcher
    }
}

/// Relies on `grep::regex::RegexMatcherBuilder::build`, configured with
/// newline as line terminator, multi-line matching off and smart case on:
/// it compiles the pattern, succeeding exactly when the pattern is a valid
/// regex under that configuration.
#[verifier::external_body]
pub fn regex_build(pattern: &str) -> (r: Result<RegexHandle, SearchError>)
    ensures
        r is Ok <==> regex_valid(pattern@),
        r matches Ok(h) ==> h.spec_pattern() == pattern@,
        r matches Err(e) ==> e == SearchError::BadRegex,
{
    let built = grep::regex::RegexMatcherBuilder::new()
        .line_terminator(Some(b'\n'))
        .multi_line(false)
        .case_smart(true)
        .build(pattern);
    match built {
        Ok(matcher) => Ok(RegexHandle { pattern: pattern.to_owned(), matcher }),
        Err(_) => Err(SearchError::BadRegex),
    }
}

/// Relies on `grep::matcher::Matcher::find` for `RegexMatcher`: it returns
/// the byte range of the first match in the haystack, or `None`, and for
/// this matcher it never fails.
#[verifier::external_body]
pub fn regex_find(h: &RegexHandle, hay: &[u8]) -> (r: Option<(usize, usize)>)
    ensures
        r == regex_find_of(h.spec_pattern(), hay@),
        r matches Some(p) ==> p.0 <= p.1 <= hay@.len(),
{
    match h.matcher.find(hay) {
        Ok(m) => m.map(|mm| (mm.start(), mm.end())),
        Err(_) => None,
    }
}

/// Relies on `grep::matcher::Matcher::is_match` for `RegexMatcher`: it
/// returns true if and only if the haystack contains a match, that is,
/// exactly when `find` would return an offset pair.
#[verifier::external_body]
pub fn regex_is_match(h: &RegexHandle, hay: &[u8]) -> (r: bool)
    ensures
        r == (regex_find_of(h.spec_pattern(), hay@) is Some),
{
    h.matcher.is_match(hay).unwrap_or(false)
}

} // verus!
