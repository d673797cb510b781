//! The regular-expression engine behind the filter.
//!
//! Patterns are compiled and run by the `grep` crate. The functions that call
//! it are not proved: each states what the engine is trusted to do, and the
//! rest of the library is verified against these statements.

use vstd::prelude::*;
use grep::matcher::Matcher;
use grep::matcher::NoError;
use grep::regex::Error;
use grep::regex::RegexMatcher;

verus! {

/// A compiled pattern of the engine. Opaque: only the functions below read it.
#[verifier::external_type_specification]
#[verifier::external_body]
pub struct ExRegexMatcher(RegexMatcher);

/// What the engine reports for a pattern that it cannot compile.
#[verifier::external_type_specification]
#[verifier::external_body]
pub struct ExRegexError(Error);

/// The error type of a search, of which the engine never makes a value.
#[verifier::external_type_specification]
#[verifier::external_body]
pub struct ExNoError(NoError);

/// What `RegexMatcher::new` returns for `pattern`: the compiled matcher, or
/// the reason why the pattern is not a regular expression.
pub uninterp spec fn compiled(pattern: Seq<char>) -> Result<RegexMatcher, Error>;

/// Whether `matcher` finds a match anywhere in `haystack`, as the engine's
/// `is_match` decides it.
pub uninterp spec fn has_match(matcher: RegexMatcher, haystack: Seq<u8>) -> bool;

/// The matches of `matcher` in `haystack` as `(start, end)` byte offsets, in
/// the order in which the engine's `find_iter` reports them.
pub uninterp spec fn match_spans(matcher: RegexMatcher, haystack: Seq<u8>) -> Seq<(usize, usize)>;

/// Spans that lie inside a text of `len` bytes, each with `start <= end`, in
/// ascending order and without overlap.
pub open spec fn spans_in_order(spans: Seq<(usize, usize)>, len: nat) -> bool {
    &&& forall|i: int| 0 <= i < spans.len() ==> (#[trigger] spans[i]).0 <= spans[i].1 <= len
    &&& forall|i: int, j: int|
        0 <= i < j < spans.len() ==> (#[trigger] spans[i]).1 <= (#[trigger] spans[j]).0
}

/// Compiles `pattern` with `RegexMatcher::new`.
///
/// Trusted: the outcome depends on the pattern alone, so it is the value that
/// [`compiled`] names for it.
#[verifier::external_body]
pub(crate) fn compile(pattern: &str) -> (r: Result<RegexMatcher, Error>)
    ensures
        r == compiled(pattern@),
{
    RegexMatcher::new(pattern)
}

/// Asks `Matcher::is_match` whether `matcher` matches anywhere in `haystack`.
///
/// Trusted: a `RegexMatcher` never fails a search, and its answer depends on
/// the matcher and the bytes alone, so it is what [`has_match`] names.
#[verifier::external_body]
pub(crate) fn is_match(matcher: &RegexMatcher, haystack: &[u8]) -> (r: Result<bool, NoError>)
    ensures
        r is Ok,
        r->Ok_0 == has_match(*matcher, haystack@),
{
    matcher.is_match(haystack)
}

/// Adds one reported match to `spans` and asks for the next one.
pub fn record_span(spans: &mut Vec<(usize, usize)>, start: usize, end: usize) -> (more: bool)
    ensures
        more,
        final(spans)@ == old(spans)@.push((start, end)),
{
    spans.push((start, end));
    true
}

/// Collects every match that `Matcher::find_iter` reports for `matcher` in
/// `haystack`.
///
/// Trusted: the list depends on the matcher and the bytes alone, so it is what
/// [`match_spans`] names; the engine reports successive matches that do not
/// overlap, each inside the haystack.
#[verifier::external_body]
pub(crate) fn find_spans(matcher: &RegexMatcher, haystack: &[u8]) -> (r: Vec<(usize, usize)>)
    ensures
        r@ == match_spans(*matcher, haystack@),
        spans_in_order(r@, haystack@.len()),
{
    let mut spans = Vec::new();
    let _ = matcher.find_iter(haystack, |m| record_span(&mut spans, m.start(), m.end()));
    spans
}

} // verus!
