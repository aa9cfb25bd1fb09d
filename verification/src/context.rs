//! A wrapper attaching an ambient context to every span.

use vstd::prelude::*;

use crate::input::{BorrowInput, ExactSizeInput, Input, SliceInput, StrInput, ValueInput};
use crate::Span;

verus! {

/// A wrapper attaching an externally supplied context to every span the
/// wrapped stream produces — an identifier of the file the input came from,
/// for instance.
///
/// The wrapped stream's spans must be context-free, so contexts can never
/// silently nest; every read operation is a pure pass-through.
pub struct WithContext<Ctx, I> {
    input: I,
    context: Ctx,
}

impl<Ctx: Copy, I: Input> WithContext<Ctx, I> where I::Span: Span<Context = ()> {
    /// Wrap a stream so that `context` rides along on every span.
    pub fn new(input: I, context: Ctx) -> (r: WithContext<Ctx, I>)
        ensures
            r.inner() == input,
            r.context_val() == context,
    {
        WithContext { input, context }
    }

    /// The wrapped stream.
    pub closed spec fn inner(&self) -> I {
        self.input
    }

    /// The attached context.
    pub closed spec fn context_val(&self) -> Ctx {
        self.context
    }
}

impl<Ctx: Copy, I: Input> Input for WithContext<Ctx, I> where I::Span: Span<Context = ()> {
    type Token = I::Token;

    type Span = (Ctx, I::Span);

    open spec fn tok_seq(&self) -> Seq<I::Token> {
        self.inner().tok_seq()
    }

    open spec fn spec_span(&self, start: int, end: int) -> (Ctx, I::Span) {
        (self.context_val(), self.inner().spec_span(start, end))
    }

    fn start(&self) -> (o: usize) {
        self.input.start()
    }

    fn next_maybe(&self, offset: usize) -> (r: (usize, Option<&I::Token>)) {
        self.input.next_maybe(offset)
    }

    fn span(&self, start: usize, end: usize) -> (s: (Ctx, I::Span)) {
        (self.context, self.input.span(start, end))
    }
}

impl<Ctx: Copy, I: ExactSizeInput> ExactSizeInput for WithContext<Ctx, I> where I::Span: Span<
    Context = (),
> {
    open spec fn spec_span_from(&self, from: int) -> (Ctx, I::Span) {
        (self.context_val(), self.inner().spec_span_from(from))
    }

    fn span_from(&self, from: usize) -> (s: (Ctx, I::Span)) {
        (self.context, self.input.span_from(from))
    }
}

impl<Ctx: Copy, I: SliceInput> SliceInput for WithContext<Ctx, I> where I::Span: Span<
    Context = (),
> {
    type SliceItem = I::SliceItem;

    open spec fn slice_seq(&self) -> Seq<I::SliceItem> {
        self.inner().slice_seq()
    }

    proof fn slice_len(&self) {
        self.input.slice_len();
    }

    fn slice(&self, start: usize, end: usize) -> (r: &[I::SliceItem]) {
        self.input.slice(start, end)
    }

    fn slice_from(&self, from: usize) -> (r: &[I::SliceItem]) {
        self.input.slice_from(from)
    }
}

impl<Ctx: Copy, I: ValueInput> ValueInput for WithContext<Ctx, I> where I::Span: Span<
    Context = (),
> {
    fn next(&self, offset: usize) -> (r: (usize, Option<I::Token>)) {
        self.input.next(offset)
    }
}

impl<Ctx: Copy, I: BorrowInput> BorrowInput for WithContext<Ctx, I> where I::Span: Span<
    Context = (),
> {
    fn next_ref(&self, offset: usize) -> (r: (usize, Option<&I::Token>)) {
        self.input.next_ref(offset)
    }
}

impl<Ctx: Copy, I: StrInput> StrInput for WithContext<Ctx, I> where I::Span: Span<Context = ()> {

}

/// Wherever the wrapped stream's span to the end of the input equals its
/// span to the final offset, the same holds of the wrapper's spans, context
/// attached.
pub proof fn lemma_span_from_with_context<Ctx: Copy, I: ExactSizeInput>(
    inp: &WithContext<Ctx, I>,
    from: int,
) where I::Span: Span<Context = ()>
    requires
        inp.inner().spec_span_from(from) == inp.inner().spec_span(
            from,
            inp.inner().tok_seq().len() as int,
        ),
    ensures
        inp.spec_span_from(from) == inp.spec_span(from, inp.tok_seq().len() as int),
{
}

} // verus!
