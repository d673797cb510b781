//! Cutting a line into plain and highlighted pieces along its match spans.

use vstd::prelude::*;
use crate::matcher::spans_in_order;

verus! {

/// A piece of a line, given by byte offsets, and whether it is a match.
#[derive(Debug, PartialEq, Eq, Clone, Copy, Structural)]
pub struct Segment {
    pub start: usize,
    pub end: usize,
    pub highlighted: bool,
}

/// The pieces of the text from `from` to `len` along `spans`: the gap in
/// front of each span, if there is one, then the span itself, and at last
/// what is left behind the last span.
pub open spec fn pieces(spans: Seq<(usize, usize)>, from: usize, len: usize) -> Seq<Segment>
    decreases spans.len(),
{
    if spans.len() == 0 {
        if from < len {
            seq![Segment { start: from, end: len, highlighted: false }]
        } else {
            Seq::empty()
        }
    } else {
        let gap = if spans[0].0 > from {
            seq![Segment { start: from, end: spans[0].0, highlighted: false }]
        } else {
            Seq::empty()
        };
        gap + seq![Segment { start: spans[0].0, end: spans[0].1, highlighted: true }] + pieces(
            spans.drop_first(),
            spans[0].1,
            len,
        )
    }
}

/// The pieces of a line of `len` bytes along `spans`. A line without a match
/// is one plain piece, also where it is empty.
pub open spec fn segments_of(spans: Seq<(usize, usize)>, len: usize) -> Seq<Segment> {
    if spans.len() == 0 {
        seq![Segment { start: 0, end: len, highlighted: false }]
    } else {
        pieces(spans, 0, len)
    }
}

/// The pieces follow one another without gap or overlap from `from` to `to`.
pub open spec fn tiles(segments: Seq<Segment>, from: usize, to: usize) -> bool
    decreases segments.len(),
{
    if segments.len() == 0 {
        from == to
    } else {
        &&& segments[0].start == from
        &&& segments[0].start <= segments[0].end
        &&& tiles(segments.drop_first(), segments[0].end, to)
    }
}

/// The spans of the highlighted pieces, in order.
pub open spec fn highlighted_spans(segments: Seq<Segment>) -> Seq<(usize, usize)>
    decreases segments.len(),
{
    if segments.len() == 0 {
        Seq::empty()
    } else if segments[0].highlighted {
        seq![(segments[0].start, segments[0].end)] + highlighted_spans(segments.drop_first())
    } else {
        highlighted_spans(segments.drop_first())
    }
}

/// Along spans that are ordered, disjoint and inside the text, the pieces
/// cover the text from `from` to its end exactly once, and the highlighted
/// ones are the spans.
pub proof fn lemma_pieces_tile(spans: Seq<(usize, usize)>, from: usize, len: usize)
    requires
        spans_in_order(spans, len as nat),
        from <= len,
        spans.len() > 0 ==> from <= spans[0].0,
    ensures
        tiles(pieces(spans, from, len), from, len),
        highlighted_spans(pieces(spans, from, len)) == spans,
    decreases spans.len(),
{
    if spans.len() == 0 {
        if from < len {
            let only = seq![Segment { start: from, end: len, highlighted: false }];
            assert(only.drop_first() =~= Seq::<Segment>::empty());
            assert(tiles(only.drop_first(), len, len));
            assert(highlighted_spans(only.drop_first()) =~= Seq::<(usize, usize)>::empty());
        }
        assert(highlighted_spans(pieces(spans, from, len)) =~= spans);
    } else {
        let rest = spans.drop_first();
        let first = spans[0];
        assert(spans_in_order(rest, len as nat)) by {
            assert forall|i: int| 0 <= i < rest.len() implies (#[trigger] rest[i]).0 <= rest[i].1
                <= len by {
                assert(rest[i] == spans[i + 1]);
            }
            assert forall|i: int, j: int| 0 <= i < j < rest.len() implies (#[trigger] rest[i]).1 <= (
            #[trigger] rest[j]).0 by {
                assert(rest[i] == spans[i + 1]);
                assert(rest[j] == spans[j + 1]);
            }
        }
        if rest.len() > 0 {
            assert(rest[0] == spans[1]);
            assert(spans[0].1 <= spans[1].0);
        }
        lemma_pieces_tile(rest, first.1, len);
        let tail = pieces(rest, first.1, len);
        let marked = Segment { start: first.0, end: first.1, highlighted: true };
        let from_span = seq![marked] + tail;
        assert(from_span.drop_first() =~= tail);
        assert(tiles(from_span, first.0, len));
        assert(highlighted_spans(from_span) =~= spans) by {
            assert(seq![first] + rest =~= spans);
        }
        if first.0 > from {
            let gap = Segment { start: from, end: first.0, highlighted: false };
            let all = seq![gap] + seq![marked] + tail;
            assert(all.drop_first() =~= from_span);
            assert(pieces(spans, from, len) =~= all);
        } else {
            assert(pieces(spans, from, len) =~= from_span);
        }
    }
}

/// The pieces of a whole line cover it exactly once, and the highlighted
/// ones are the spans.
pub proof fn lemma_segments_tile(spans: Seq<(usize, usize)>, len: usize)
    requires
        spans_in_order(spans, len as nat),
    ensures
        tiles(segments_of(spans, len), 0, len),
        highlighted_spans(segments_of(spans, len)) == spans,
{
    if spans.len() == 0 {
        let only = seq![Segment { start: 0, end: len, highlighted: false }];
        assert(only.drop_first() =~= Seq::<Segment>::empty());
        assert(tiles(only.drop_first(), len, len));
        assert(highlighted_spans(only.drop_first()) =~= Seq::<(usize, usize)>::empty());
        assert(highlighted_spans(only) =~= spans);
    } else {
        lemma_pieces_tile(spans, 0, len);
    }
}

/// One more span adds its gap and itself in front of what is left.
proof fn lemma_pieces_step(spans: Seq<(usize, usize)>, i: int, from: usize, len: usize)
    requires
        0 <= i < spans.len(),
    ensures
        pieces(spans.skip(i), from, len) == (if spans[i].0 > from {
            seq![Segment { start: from, end: spans[i].0, highlighted: false }]
        } else {
            Seq::<Segment>::empty()
        }) + seq![Segment { start: spans[i].0, end: spans[i].1, highlighted: true }] + pieces(
            spans.skip(i + 1),
            spans[i].1,
            len,
        ),
{
    assert(spans.skip(i).drop_first() =~= spans.skip(i + 1));
    assert(spans.skip(i)[0] == spans[i]);
}

/// Cuts a line of `len` bytes into plain and highlighted pieces along the
/// match spans.
pub fn split_line(spans: &Vec<(usize, usize)>, len: usize) -> (r: Vec<Segment>)
    ensures
        r@ == segments_of(spans@, len),
        spans_in_order(spans@, len as nat) ==> tiles(r@, 0, len) && highlighted_spans(r@)
            == spans@,
{
    let mut out: Vec<Segment> = Vec::new();
    if spans.len() == 0 {
        out.push(Segment { start: 0, end: len, highlighted: false });
        proof {
            assert(out@ =~= segments_of(spans@, len));
            if spans_in_order(spans@, len as nat) {
                lemma_segments_tile(spans@, len);
            }
        }
        return out;
    }
    let mut last_end: usize = 0;
    let mut i: usize = 0;
    proof {
        assert(spans@.skip(0) =~= spans@);
    }
    while i < spans.len()
        invariant
            i <= spans@.len(),
            out@ + pieces(spans@.skip(i as int), last_end, len) == pieces(spans@, 0, len),
        decreases spans@.len() - i,
    {
        let ghost before = out@;
        let ghost before_end = last_end;
        let start: usize = spans[i].0;
        let end: usize = spans[i].1;
        proof {
            lemma_pieces_step(spans@, i as int, last_end, len);
        }
        if start > last_end {
            out.push(Segment { start: last_end, end: start, highlighted: false });
        }
        out.push(Segment { start, end, highlighted: true });
        last_end = end;
        assert(out@ + pieces(spans@.skip(i + 1), last_end, len) =~= before + pieces(
            spans@.skip(i as int),
            before_end,
            len,
        ));
        i = i + 1;
    }
    let ghost before = out@;
    if last_end < len {
        out.push(Segment { start: last_end, end: len, highlighted: false });
    }
    proof {
        assert(spans@.skip(i as int) =~= Seq::<(usize, usize)>::empty());
        assert(out@ =~= before + pieces(spans@.skip(i as int), last_end, len));
        if spans_in_order(spans@, len as nat) {
            lemma_segments_tile(spans@, len);
        }
    }
    out
}

} // verus!
