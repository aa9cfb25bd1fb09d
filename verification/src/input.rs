//! Capability traits: what an input representation can do.

use vstd::prelude::*;

use crate::Span;

verus! {

/// A stream of input tokens that a parser can walk over.
///
/// The stream is modelled by the sequence of tokens it yields, `tok_seq()`.
/// An *offset* counts how many tokens have been consumed so far; it is valid
/// when it lies between `0` and `tok_seq().len()`. Every operation that takes
/// an offset demands a valid one in its precondition, discharged statically:
/// a caller can only hand a stream offsets produced by `start` or by a prior
/// read on that same stream, and nothing is re-validated at run time.
pub trait Input: Sized {
    /// The type of singular items read from the stream.
    type Token;

    /// The type of a span over this stream.
    type Span: Span;

    /// The sequence of tokens this stream yields, in order.
    spec fn tok_seq(&self) -> Seq<Self::Token>;

    /// The span this stream derives from a pair of offsets.
    spec fn spec_span(&self, start: int, end: int) -> Self::Span;

    /// The offset representing the start of this stream.
    fn start(&self) -> (o: usize)
        ensures
            o == 0,
    ;

    /// Read the token at `offset`, if one exists, together with the offset
    /// just past it. At the end of the stream the offset is returned
    /// unchanged and no token is yielded.
    fn next_maybe(&self, offset: usize) -> (r: (usize, Option<&Self::Token>))
        requires
            offset <= self.tok_seq().len(),
        ensures
            offset < self.tok_seq().len() ==> r.0 == offset + 1 && (r.1 matches Some(t)
                && *t == self.tok_seq()[offset as int]),
            offset == self.tok_seq().len() ==> r.0 == offset && r.1 is None,
            offset <= r.0 <= self.tok_seq().len(),
    ;

    /// Create a span from a start and end offset.
    fn span(&self, start: usize, end: usize) -> (s: Self::Span)
        requires
            start <= self.tok_seq().len(),
            end <= self.tok_seq().len(),
            start <= end,
        ensures
            s == self.spec_span(start as int, end as int),
    ;

    /// The previous offset, saturating at zero.
    fn prev(offset: usize) -> (r: usize)
        ensures
            r == if offset == 0 { 0int } else { offset - 1 },
    {
        if offset == 0 {
            0
        } else {
            offset - 1
        }
    }
}

/// A stream with a known size: a span can run from an offset to its end.
pub trait ExactSizeInput: Input {
    /// The span this stream derives from an offset and its own end.
    spec fn spec_span_from(&self, from: int) -> Self::Span;

    /// Create a span from an offset to the end of the stream.
    fn span_from(&self, from: usize) -> (s: Self::Span)
        requires
            from <= self.tok_seq().len(),
        ensures
            s == self.spec_span_from(from as int),
    ;
}

/// A stream over contiguous storage that can hand out zero-copy views.
///
/// The storage items may differ from the yielded tokens: a stream of spanned
/// tokens slices the underlying token–span pairs, not the bare tokens.
pub trait SliceInput: ExactSizeInput {
    /// The items of the underlying contiguous storage.
    type SliceItem;

    /// The underlying storage, one item per token.
    spec fn slice_seq(&self) -> Seq<Self::SliceItem>;

    /// The storage holds exactly one item per token.
    proof fn slice_len(&self)
        ensures
            self.slice_seq().len() == self.tok_seq().len(),
    ;

    /// A view of the storage between two offsets.
    fn slice(&self, start: usize, end: usize) -> (r: &[Self::SliceItem])
        requires
            start <= self.tok_seq().len(),
            end <= self.tok_seq().len(),
            start <= end,
        ensures
            r@ == self.slice_seq().subrange(start as int, end as int),
    ;

    /// A view of the storage from an offset to the end of the stream.
    fn slice_from(&self, from: usize) -> (r: &[Self::SliceItem])
        requires
            from <= self.tok_seq().len(),
        ensures
            r@ == self.slice_seq().subrange(from as int, self.slice_seq().len() as int),
    ;
}

/// A stream that yields its tokens by value.
pub trait ValueInput: Input {
    /// Read the token at `offset` by value, if one exists, together with the
    /// offset just past it.
    fn next(&self, offset: usize) -> (r: (usize, Option<Self::Token>))
        requires
            offset <= self.tok_seq().len(),
        ensures
            offset < self.tok_seq().len() ==> r.0 == offset + 1 && r.1 == Some(
                self.tok_seq()[offset as int],
            ),
            offset == self.tok_seq().len() ==> r.0 == offset && r.1 is None,
            offset <= r.0 <= self.tok_seq().len(),
    ;
}

/// A stream that can hand out references to its tokens.
pub trait BorrowInput: Input {
    /// Read the token at `offset` by reference, if one exists, together with
    /// the offset just past it.
    fn next_ref(&self, offset: usize) -> (r: (usize, Option<&Self::Token>))
        requires
            offset <= self.tok_seq().len(),
        ensures
            offset < self.tok_seq().len() ==> r.0 == offset + 1 && (r.1 matches Some(t)
                && *t == self.tok_seq()[offset as int]),
            offset == self.tok_seq().len() ==> r.0 == offset && r.1 is None,
            offset <= r.0 <= self.tok_seq().len(),
    ;
}

/// A string-like stream: tokens come by value and the storage items are the
/// tokens themselves.
pub trait StrInput: ValueInput + SliceInput<SliceItem = <Self as Input>::Token> {

}

/// A read that obeys the stream contract — it advances by one before the end
/// and stands still at the end — never moves the cursor backwards, never
/// leaves the stream, and yields no progress exactly when the data is
/// exhausted. Chaining reads therefore produces a non-decreasing offset
/// sequence that becomes stationary at the end of the input and nowhere
/// else.
pub proof fn lemma_offset_monotonic(len: int, offset: int, stepped: int)
    requires
        0 <= offset <= len,
        offset < len ==> stepped == offset + 1,
        offset == len ==> stepped == offset,
    ensures
        offset <= stepped <= len,
        stepped == offset <==> offset == len,
{
}

/// The view between `a` and `b` concatenated with the view between `b` and
/// `c` is the view between `a` and `c`, for any valid `a <= b <= c`.
pub proof fn lemma_slice_concat<In: SliceInput>(inp: &In, a: int, b: int, c: int)
    requires
        0 <= a <= b <= c <= inp.slice_seq().len(),
    ensures
        inp.slice_seq().subrange(a, b) + inp.slice_seq().subrange(b, c) == inp.slice_seq()
            .subrange(a, c),
{
    assert(inp.slice_seq().subrange(a, b) + inp.slice_seq().subrange(b, c) =~= inp.slice_seq()
        .subrange(a, c));
}

} // verus!
