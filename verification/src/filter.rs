//! Which lines a query lets through.
//!
//! An empty query shows every line. So does a query that is not a regular
//! expression: a broken pattern never hides output. Any other query shows the
//! lines in which the pattern matches somewhere.

use vstd::prelude::*;
use vstd::utf8::encode_utf8;
use grep::regex::RegexMatcher;
use crate::matcher::compile;
use crate::matcher::compiled;
use crate::matcher::find_spans;
use crate::matcher::has_match;
use crate::matcher::is_match;
use crate::matcher::match_spans;
use crate::matcher::spans_in_order;

verus! {

/// The matcher that filters for `query`: none for an empty query or for one
/// that does not compile.
pub open spec fn active_matcher(query: Seq<char>) -> Option<RegexMatcher> {
    if query.len() == 0 {
        None
    } else {
        match compiled(query) {
            Ok(matcher) => Some(matcher),
            Err(_) => None,
        }
    }
}

/// Whether a line is shown under a matcher: without one every line is.
pub open spec fn passes(matcher: Option<RegexMatcher>, line: Seq<char>) -> bool {
    match matcher {
        Some(m) => has_match(m, encode_utf8(line)),
        None => true,
    }
}

/// Whether `line` is shown under `query`.
pub open spec fn line_passes(query: Seq<char>, line: Seq<char>) -> bool {
    passes(active_matcher(query), line)
}

/// The verdict of `query` on each of `lines`.
pub open spec fn verdicts(query: Seq<char>, lines: Seq<Seq<char>>) -> Seq<bool> {
    Seq::new(lines.len(), |i: int| line_passes(query, lines[i]))
}

/// The positions at which `keep` is true, ascending.
pub open spec fn kept_indices(keep: Seq<bool>) -> Seq<int>
    decreases keep.len(),
{
    if keep.len() == 0 {
        Seq::empty()
    } else if keep.last() {
        kept_indices(keep.drop_last()).push(keep.len() - 1)
    } else {
        kept_indices(keep.drop_last())
    }
}

/// The filtered view of `lines` under `query`: the indices of the lines that
/// the query lets through, ascending.
pub open spec fn matching_indices(query: Seq<char>, lines: Seq<Seq<char>>) -> Seq<int> {
    kept_indices(verdicts(query, lines))
}

/// Machine indices as mathematical integers.
pub open spec fn as_ints(indices: Seq<usize>) -> Seq<int> {
    Seq::new(indices.len(), |k: int| indices[k] as int)
}

/// Verdicts cut or extended to `n` positions: a position without a verdict
/// is not kept.
pub open spec fn padded(keep: Seq<bool>, n: nat) -> Seq<bool> {
    Seq::new(n, |i: int| i < keep.len() && keep[i])
}

/// The indices `0, 1, ..., n - 1`.
pub open spec fn identity(n: nat) -> Seq<int> {
    Seq::new(n, |i: int| i)
}

/// The highlight spans of `query` in `line`: none for an empty or invalid
/// query, else every match that the engine reports.
pub open spec fn highlight_spans(query: Seq<char>, line: Seq<char>) -> Seq<(usize, usize)> {
    match active_matcher(query) {
        Some(m) => match_spans(m, encode_utf8(line)),
        None => Seq::empty(),
    }
}

/// The kept positions are strictly ascending, lie inside the verdicts, and
/// are exactly the positions whose verdict is true.
pub proof fn lemma_kept_indices_exact(keep: Seq<bool>)
    ensures
        kept_indices(keep).len() <= keep.len(),
        forall|k: int|
            0 <= k < kept_indices(keep).len() ==> 0 <= #[trigger] kept_indices(keep)[k]
                < keep.len(),
        forall|j: int, k: int|
            0 <= j < k < kept_indices(keep).len() ==> #[trigger] kept_indices(keep)[j]
                < #[trigger] kept_indices(keep)[k],
        forall|i: int|
            kept_indices(keep).contains(i) <==> (0 <= i < keep.len() && keep[i]),
    decreases keep.len(),
{
    if keep.len() > 0 {
        let front = keep.drop_last();
        lemma_kept_indices_exact(front);
        let before = kept_indices(front);
        let all = kept_indices(keep);
        let last = keep.len() - 1;
        assert forall|i: int| all.contains(i) <==> (0 <= i < keep.len() && keep[i]) by {
            if keep.last() {
                assert(all == before.push(last));
                if all.contains(i) {
                    let k = choose|k: int| 0 <= k < all.len() && all[k] == i;
                    if k < before.len() {
                        assert(before[k] == i);
                        assert(before.contains(i));
                        assert(front[i] == keep[i]);
                    }
                }
                if 0 <= i < keep.len() && keep[i] {
                    if i == last {
                        assert(all[before.len() as int] == i);
                    } else {
                        assert(front[i] == keep[i]);
                        assert(before.contains(i));
                        let k = choose|k: int| 0 <= k < before.len() && before[k] == i;
                        assert(all[k] == i);
                    }
                }
            } else {
                if all.contains(i) {
                    assert(front[i] == keep[i]);
                }
                if 0 <= i < keep.len() && keep[i] {
                    assert(i != last);
                    assert(front[i] == keep[i]);
                }
            }
        }
    } else {
        assert forall|i: int| kept_indices(keep).contains(i) <==> (0 <= i < keep.len() && keep[i]) by {
            if kept_indices(keep).contains(i) {
                let k = choose|k: int| 0 <= k < kept_indices(keep).len() && kept_indices(keep)[k] == i;
            }
        }
    }
}

/// Where every verdict is true, every position is kept.
pub proof fn lemma_kept_indices_all(keep: Seq<bool>)
    requires
        forall|i: int| 0 <= i < keep.len() ==> keep[i],
    ensures
        kept_indices(keep) == identity(keep.len()),
    decreases keep.len(),
{
    if keep.len() > 0 {
        let front = keep.drop_last();
        assert forall|i: int| 0 <= i < front.len() implies front[i] by {
            assert(front[i] == keep[i]);
        }
        lemma_kept_indices_all(front);
        assert(identity(front.len()).push(keep.len() - 1) =~= identity(keep.len()));
    } else {
        assert(kept_indices(keep) =~= identity(keep.len()));
    }
}

/// One more verdict adds its position to the kept ones, or nothing.
pub proof fn lemma_kept_indices_push(keep: Seq<bool>, verdict: bool)
    ensures
        kept_indices(keep.push(verdict)) == if verdict {
            kept_indices(keep).push(keep.len() as int)
        } else {
            kept_indices(keep)
        },
{
    assert(keep.push(verdict).drop_last() =~= keep);
}

/// One more line extends the filtered view by its index if the query lets it
/// through, and leaves the view as it is otherwise.
pub proof fn lemma_matching_indices_push(query: Seq<char>, lines: Seq<Seq<char>>, line: Seq<char>)
    ensures
        matching_indices(query, lines.push(line)) == if line_passes(query, line) {
            matching_indices(query, lines).push(lines.len() as int)
        } else {
            matching_indices(query, lines)
        },
{
    assert(verdicts(query, lines.push(line)) =~= verdicts(query, lines).push(
        line_passes(query, line),
    ));
    lemma_kept_indices_push(verdicts(query, lines), line_passes(query, line));
}

/// With an empty query the filtered view of any lines is `0, 1, ..., n - 1`.
pub proof fn lemma_empty_query_shows_all(lines: Seq<Seq<char>>)
    ensures
        matching_indices(Seq::<char>::empty(), lines) == identity(lines.len()),
{
    lemma_kept_indices_all(verdicts(Seq::<char>::empty(), lines));
}

/// The filtered view is strictly ascending and holds exactly the indices of
/// the lines that the query lets through; under a query that compiles, those
/// are the lines in which the compiled pattern matches.
pub proof fn lemma_matching_indices_exact(query: Seq<char>, lines: Seq<Seq<char>>)
    ensures
        forall|j: int, k: int|
            0 <= j < k < matching_indices(query, lines).len() ==> #[trigger] matching_indices(
                query,
                lines,
            )[j] < #[trigger] matching_indices(query, lines)[k],
        forall|i: int|
            matching_indices(query, lines).contains(i) <==> (0 <= i < lines.len() && line_passes(
                query,
                lines[i],
            )),
        query.len() > 0 && compiled(query) is Ok ==> forall|i: int|
            matching_indices(query, lines).contains(i) <==> (0 <= i < lines.len() && has_match(
                compiled(query)->Ok_0,
                encode_utf8(lines[i]),
            )),
{
    let keep = verdicts(query, lines);
    let view = matching_indices(query, lines);
    lemma_kept_indices_exact(keep);
    assert forall|i: int|
        view.contains(i) <==> (0 <= i < lines.len() && line_passes(query, lines[i])) by {
        if 0 <= i < lines.len() {
            assert(keep[i] == line_passes(query, lines[i]));
        }
    }
    if query.len() > 0 && compiled(query) is Ok {
        assert forall|i: int|
            view.contains(i) <==> (0 <= i < lines.len() && has_match(
                compiled(query)->Ok_0,
                encode_utf8(lines[i]),
            )) by {
            if 0 <= i < lines.len() {
                assert(keep[i] == line_passes(query, lines[i]));
            }
        }
    }
}

/// A query that does not compile filters nothing: its view is that of the
/// empty query.
pub proof fn lemma_invalid_query_shows_all(query: Seq<char>, lines: Seq<Seq<char>>)
    requires
        compiled(query) is Err,
    ensures
        matching_indices(query, lines) == matching_indices(Seq::<char>::empty(), lines),
        matching_indices(query, lines) == identity(lines.len()),
{
    assert(verdicts(query, lines) =~= verdicts(Seq::<char>::empty(), lines));
    lemma_empty_query_shows_all(lines);
}

/// Compiles the matcher that filters for `query`, if the query filters at all.
pub(crate) fn query_matcher(query: &str) -> (r: Option<RegexMatcher>)
    ensures
        r == active_matcher(query@),
{
    if query.is_empty() {
        None
    } else {
        match compile(query) {
            Ok(matcher) => Some(matcher),
            Err(_) => None,
        }
    }
}

/// Decides whether `line` is shown under an already compiled matcher.
pub(crate) fn passes_matcher(matcher: &Option<RegexMatcher>, line: &str) -> (r: bool)
    ensures
        r == passes(*matcher, line@),
{
    match matcher {
        Some(m) => match is_match(m, line.as_bytes()) {
            Ok(found) => found,
            Err(_) => false,
        },
        None => true,
    }
}

/// Decides whether `line` is shown under `query`.
pub fn line_matches(query: &str, line: &str) -> (r: bool)
    ensures
        r == line_passes(query@, line@),
{
    let matcher = query_matcher(query);
    passes_matcher(&matcher, line)
}

/// Finds the spans of `line` to highlight under `query`, as byte offsets.
pub fn find_highlights(query: &str, line: &str) -> (r: Vec<(usize, usize)>)
    ensures
        r@ == highlight_spans(query@, line@),
        spans_in_order(r@, encode_utf8(line@).len()),
{
    match query_matcher(query) {
        Some(m) => find_spans(&m, line.as_bytes()),
        None => Vec::new(),
    }
}

} // verus!
