//! A wrapper splitting spanned lexer output into tokens and derived spans.

use vstd::prelude::*;

use crate::input::{BorrowInput, ExactSizeInput, Input, SliceInput, ValueInput};
use crate::Span;

verus! {

/// A wrapper splitting a stream of token–span pairs into a stream of plain
/// tokens with spans derived on demand.
///
/// This is the shape lexers commonly produce. The wrapper needs an
/// end-of-input span: an arbitrary span, usually zero-width at the end of the
/// input, whose start stands in for the position of any token lookup that
/// falls off the end, and whose context is carried into every derived span.
pub struct SpannedInput<T, S, I> {
    input: I,
    eoi: S,
    _marker: core::marker::PhantomData<T>,
}

impl<T, S: Span, I: Input<Token = (T, S)>> SpannedInput<T, S, I> {
    /// Wrap a stream of token–span pairs, with `eoi` as the end-of-input
    /// span.
    pub fn new(input: I, eoi: S) -> (r: SpannedInput<T, S, I>)
        ensures
            r.inner() == input,
            r.eoi_span() == eoi,
    {
        SpannedInput { input, eoi, _marker: core::marker::PhantomData }
    }

    /// The wrapped stream of token–span pairs.
    pub closed spec fn inner(&self) -> I {
        self.input
    }

    /// The end-of-input span.
    pub closed spec fn eoi_span(&self) -> S {
        self.eoi
    }

    /// The span the wrapper derives for a token lookup at `at`: the span of
    /// the pair standing there, or the end-of-input span past the end.
    pub open spec fn span_at(&self, at: int) -> S {
        if 0 <= at < self.inner().tok_seq().len() {
            self.inner().tok_seq()[at].1
        } else {
            self.eoi_span()
        }
    }
}

impl<T, S: Span, I: Input<Token = (T, S)>> Input for SpannedInput<T, S, I> {
    type Token = T;

    type Span = S;

    open spec fn tok_seq(&self) -> Seq<T> {
        self.inner().tok_seq().map_values(|p: (T, S)| p.0)
    }

    /// The derived span takes its start from the span of the token at the
    /// range's start, and its end from the end of the span of the token just
    /// before the range's end; either lookup falls back to the start of the
    /// end-of-input span when it runs off the end, so empty and trailing
    /// ranges still get well-defined spans.
    open spec fn spec_span(&self, start: int, end: int) -> S {
        let inner = self.inner().tok_seq();
        let s = if start < inner.len() {
            inner[start].1.spec_start()
        } else {
            self.eoi_span().spec_start()
        };
        let before_end = if end == 0 {
            0int
        } else {
            end - 1
        };
        let e = if before_end < inner.len() {
            inner[before_end].1.spec_end()
        } else {
            self.eoi_span().spec_start()
        };
        S::spec_new(self.eoi_span().spec_context(), s, e)
    }

    fn start(&self) -> (o: usize) {
        self.input.start()
    }

    fn next_maybe(&self, offset: usize) -> (r: (usize, Option<&T>)) {
        let (next, tok) = self.input.next_maybe(offset);
        match tok {
            Some(p) => (next, Some(&p.0)),
            None => (next, None),
        }
    }

    fn span(&self, start: usize, end: usize) -> (s: S) {
        let s_off = match self.input.next_maybe(start).1 {
            Some(p) => p.1.start(),
            None => self.eoi.start(),
        };
        let before_end = if end == 0 {
            0usize
        } else {
            end - 1
        };
        let e_off = match self.input.next_maybe(before_end).1 {
            Some(p) => p.1.end(),
            None => self.eoi.start(),
        };
        S::new(self.eoi.context(), s_off, e_off)
    }
}

impl<T, S: Span, I: ExactSizeInput<Token = (T, S)>> ExactSizeInput for SpannedInput<T, S, I> {
    /// A span running from an offset to the end of the input: its start from
    /// the token standing at the offset (or the end-of-input span), its end
    /// the start of the end-of-input span.
    open spec fn spec_span_from(&self, from: int) -> S {
        let inner = self.inner().tok_seq();
        let s = if from < inner.len() {
            inner[from].1.spec_start()
        } else {
            self.eoi_span().spec_start()
        };
        S::spec_new(self.eoi_span().spec_context(), s, self.eoi_span().spec_start())
    }

    fn span_from(&self, from: usize) -> (s: S) {
        let s_off = match self.input.next_maybe(from).1 {
            Some(p) => p.1.start(),
            None => self.eoi.start(),
        };
        S::new(self.eoi.context(), s_off, self.eoi.start())
    }
}

impl<T, S: Span, I: SliceInput<Token = (T, S)>> SliceInput for SpannedInput<T, S, I> {
    /// Slices hand back the underlying token–span pairs, so no storage is
    /// copied.
    type SliceItem = I::SliceItem;

    open spec fn slice_seq(&self) -> Seq<I::SliceItem> {
        self.inner().slice_seq()
    }

    proof fn slice_len(&self) {
        self.input.slice_len();
    }

    fn slice(&self, start: usize, end: usize) -> (r: &[I::SliceItem]) {
        self.input.slice(start, end)
    }

    fn slice_from(&self, from: usize) -> (r: &[I::SliceItem]) {
        self.input.slice_from(from)
    }
}

/// For spanned streams whose end-of-input span starts where the last token's
/// span ends, the span running to the end of the input equals the span to the
/// final offset. With any other end-of-input span the two can differ, because
/// a span to the end always ends at the end-of-input span's start.
pub proof fn lemma_span_from_spanned<T, S: Span, I: ExactSizeInput<Token = (T, S)>>(
    inp: &SpannedInput<T, S, I>,
    from: int,
)
    requires
        0 <= from <= inp.inner().tok_seq().len(),
        inp.inner().tok_seq().len() > 0 ==> inp.eoi_span().spec_start() == inp.inner().tok_seq()
            .last().1.spec_end(),
    ensures
        inp.spec_span_from(from) == inp.spec_span(from, inp.inner().tok_seq().len() as int),
{
}

impl<T: Copy, S: Span + Copy, I: ValueInput<Token = (T, S)>> ValueInput for SpannedInput<T, S, I> {
    fn next(&self, offset: usize) -> (r: (usize, Option<T>)) {
        let (next, tok) = self.input.next(offset);
        match tok {
            Some(p) => (next, Some(p.0)),
            None => (next, None),
        }
    }
}

impl<T, S: Span, I: BorrowInput<Token = (T, S)>> BorrowInput for SpannedInput<T, S, I> {
    fn next_ref(&self, offset: usize) -> (r: (usize, Option<&T>)) {
        let (next, tok) = self.input.next_ref(offset);
        match tok {
            Some(p) => (next, Some(&p.0)),
            None => (next, None),
        }
    }
}

} // verus!
