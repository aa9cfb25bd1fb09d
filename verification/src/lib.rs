//! Input-cursor layer for a backtracking parser engine.
//!
//! The crate models streams of tokens that a parser walks over: capability
//! traits describing what a stream can do, primitive adapters over characters
//! and token slices, wrappers that split spanned tokens or attach context,
//! position handles for O(1) backtracking, and a diagnostic aggregator that
//! keeps the single best failure seen so far.

use vstd::prelude::*;

pub mod context;
pub mod error;
pub mod input;
pub mod memo;
pub mod primitive;
pub mod session;
pub mod text;
pub mod spanned;

verus! {

/// A span over an input: a half-open range of offsets plus a context value.
pub trait Span: Sized {
    /// The context carried by this span (for primitive spans, `()`).
    type Context;

    /// The context of this span, as a mathematical value.
    spec fn spec_context(&self) -> Self::Context;

    /// The start offset of this span.
    spec fn spec_start(&self) -> usize;

    /// The end offset of this span.
    spec fn spec_end(&self) -> usize;

    /// The span made of a context and a half-open offset range.
    spec fn spec_new(ctx: Self::Context, start: usize, end: usize) -> Self;

    /// Build a span from a context and a half-open offset range.
    fn new(ctx: Self::Context, start: usize, end: usize) -> (s: Self)
        ensures
            s == Self::spec_new(ctx, start, end),
            s.spec_context() == ctx,
            s.spec_start() == start,
            s.spec_end() == end,
    ;

    /// The start offset of this span.
    fn start(&self) -> (r: usize)
        ensures
            r == self.spec_start(),
    ;

    /// The end offset of this span.
    fn end(&self) -> (r: usize)
        ensures
            r == self.spec_end(),
    ;

    /// The context of this span.
    fn context(&self) -> (c: Self::Context)
        ensures
            c == self.spec_context(),
    ;
}

/// A plain span: a half-open offset range with no context.
#[derive(Clone, Copy, Debug, PartialEq, Eq, Structural)]
pub struct SimpleSpan {
    pub start: usize,
    pub end: usize,
}

impl Span for SimpleSpan {
    type Context = ();

    open spec fn spec_context(&self) -> () {
        ()
    }

    open spec fn spec_start(&self) -> usize {
        self.start
    }

    open spec fn spec_end(&self) -> usize {
        self.end
    }

    open spec fn spec_new(ctx: (), start: usize, end: usize) -> SimpleSpan {
        SimpleSpan { start, end }
    }

    fn new(ctx: (), start: usize, end: usize) -> (s: SimpleSpan) {
        SimpleSpan { start, end }
    }

    fn start(&self) -> (r: usize) {
        self.start
    }

    fn end(&self) -> (r: usize) {
        self.end
    }

    fn context(&self) -> (c: ()) {
        ()
    }
}

/// A context paired with a context-free span: what a context-attaching
/// wrapper produces. The pairing is only defined for context-free inner
/// spans, so contexts can never silently nest.
impl<Ctx: Copy, S: Span<Context = ()>> Span for (Ctx, S) {
    type Context = Ctx;

    open spec fn spec_context(&self) -> Ctx {
        self.0
    }

    open spec fn spec_start(&self) -> usize {
        self.1.spec_start()
    }

    open spec fn spec_end(&self) -> usize {
        self.1.spec_end()
    }

    open spec fn spec_new(ctx: Ctx, start: usize, end: usize) -> (Ctx, S) {
        (ctx, S::spec_new((), start, end))
    }

    fn new(ctx: Ctx, start: usize, end: usize) -> (s: (Ctx, S)) {
        (ctx, S::new((), start, end))
    }

    fn start(&self) -> (r: usize) {
        self.1.start()
    }

    fn end(&self) -> (r: usize) {
        self.1.end()
    }

    fn context(&self) -> (c: Ctx) {
        self.0
    }
}

} // verus!
