//! The parse session: position handles, the owned session state, and the
//! cursor threaded through every parser call.

use vstd::prelude::*;

use crate::error::{alt_state_of, record_alt, record_alt_err, Errors, Located, ParserError};
use crate::input::{BorrowInput, ExactSizeInput, Input, SliceInput, ValueInput};
use crate::memo::MemoTable;

verus! {

/// A handle to a position in an input stream.
///
/// Offsets are only meaningful on the stream whose session produced them:
/// every operation that consumes one demands, as a precondition, that it is a
/// valid position of the stream at hand, so a handle cannot be silently
/// misapplied. To rewind to an old position, see [`Marker`].
#[derive(Clone, Copy, PartialEq, Eq, Structural, Debug)]
pub struct Offset {
    /// How many tokens of the stream lie before this position.
    pub off: usize,
}

/// A position in an input that can be rewound to.
///
/// A marker pairs an offset with the length the secondary-diagnostic log had
/// when the marker was made, so that rewinding also discards the diagnostics
/// of the abandoned branch. Markers are created with [`InputRef::save`] and
/// consumed by [`InputRef::rewind`].
#[derive(Clone, Copy, Debug)]
pub struct Marker {
    /// The saved position.
    pub off: usize,
    /// The length of the secondary-diagnostic log at save time.
    pub err_count: usize,
}

impl Marker {
    /// The [`Offset`] this marker corresponds to.
    pub fn offset(self) -> (r: Offset)
        ensures
            r.off == self.off,
    {
        Offset { off: self.off }
    }
}

/// The owned parts of one parse session: the input, the diagnostics, the
/// parse-wide user state, the ambient context, and the memoization cache.
///
/// A session is created once per top-level parse and turned into an
/// [`InputRef`] for the duration of that parse.
pub struct InputOwn<I, E, S, C> {
    /// The input stream, immutable for the whole session.
    pub input: I,
    /// The diagnostic aggregator.
    pub errors: Errors<E>,
    /// The mutable parse-wide user state.
    pub state: S,
    /// The ambient context handed to context-sensitive parsers.
    pub ctx: C,
    /// The memoization cache.
    pub memos: MemoTable,
}

impl<I: Input, E, S, C> InputOwn<I, E, S, C> {
    /// A fresh session over `input` with default-constructed user state and
    /// context, no diagnostics, and an empty memo cache.
    pub fn new(input: I) -> (r: InputOwn<I, E, S, C>) where S: Default, C: Default
        ensures
            r.input == input,
            r.errors.alt is None,
            r.errors.secondary@.len() == 0,
            r.memos@ == crate::memo::memo_empty(),
    {
        InputOwn {
            input,
            errors: Errors::new(),
            state: S::default(),
            ctx: C::default(),
            memos: MemoTable::new(),
        }
    }

    /// A fresh session over `input` with caller-supplied user state, letting
    /// the state outlive the parse and be reused across parses.
    pub fn new_state(input: I, state: S) -> (r: InputOwn<I, E, S, C>) where C: Default
        ensures
            r.input == input,
            r.state == state,
            r.errors.alt is None,
            r.errors.secondary@.len() == 0,
            r.memos@ == crate::memo::memo_empty(),
    {
        InputOwn {
            input,
            errors: Errors::new(),
            state,
            ctx: C::default(),
            memos: MemoTable::new(),
        }
    }

    /// Begin the parse: the cursor over this session, at the stream's start.
    pub fn as_ref_start(self) -> (r: InputRef<I, E, S, C>)
        ensures
            r.offset == 0,
            r.own == self,
            r.wf(),
    {
        let start = self.input.start();
        InputRef { offset: start, own: self }
    }

    /// A cursor over this session at the given offset.
    pub fn as_ref_at(self, offset: usize) -> (r: InputRef<I, E, S, C>)
        requires
            offset <= self.input.tok_seq().len(),
        ensures
            r.offset == offset,
            r.own == self,
            r.wf(),
    {
        InputRef { offset, own: self }
    }

    /// End the parse: the secondary diagnostics accumulated by the session,
    /// in the order they were emitted.
    pub fn into_errs(self) -> (r: Vec<E>)
        ensures
            r@ == self.errors.secondary@.map_values(|l: Located<E>| l.err),
    {
        let mut secondary = self.errors.secondary;
        let ghost all = secondary@;
        let mut out: Vec<E> = Vec::new();
        while secondary.len() > 0
            invariant
                out@.len() + secondary@.len() == all.len(),
                secondary@ == all.subrange(out@.len() as int, all.len() as int),
                out@ == all.subrange(0, out@.len() as int).map_values(|l: Located<E>| l.err),
            decreases secondary@.len(),
        {
            let ghost done = out@.len() as int;
            let l = secondary.remove(0);
            proof {
                assert(l == all[done]);
                assert(all.subrange(done, all.len() as int).subrange(
                    1,
                    all.len() - done,
                ) =~= all.subrange(done + 1, all.len() as int));
                assert(all.subrange(0, done + 1).drop_last() =~= all.subrange(0, done));
                assert(out@.push(l.err) =~= all.subrange(0, done + 1).map_values(
                    |l: Located<E>| l.err,
                ));
            }
            out.push(l.err);
        }
        proof {
            assert(all.subrange(0, all.len() as int) =~= all);
        }
        out
    }
}

/// The cursor of one live parse session: the current offset plus the owned
/// session it walks over.
///
/// Exactly one cursor drives a session at any instant; nested sub-parses
/// exchange it by value and hand it back when they return.
pub struct InputRef<I, E, S, C> {
    /// The current position in the input.
    pub offset: usize,
    /// The session being parsed.
    pub own: InputOwn<I, E, S, C>,
}

impl<I: Input, E, S, C> InputRef<I, E, S, C> {
    /// The cursor stands at a valid position of its input.
    pub open spec fn wf(&self) -> bool {
        self.offset <= self.own.input.tok_seq().len()
    }

    /// The tokens of the session's input.
    pub open spec fn toks(&self) -> Seq<I::Token> {
        self.own.input.tok_seq()
    }

    /// Everything of the session except the cursor position and the
    /// diagnostics is the same in `self` and `other`.
    pub open spec fn same_session(&self, other: &Self) -> bool {
        &&& self.own.input == other.own.input
        &&& self.own.state == other.own.state
        &&& self.own.ctx == other.own.ctx
        &&& self.own.memos == other.own.memos
    }

    /// End the parse: hand the owned session back.
    pub fn into_own(self) -> (r: InputOwn<I, E, S, C>)
        ensures
            r == self.own,
    {
        self.own
    }

    /// The current position, as an [`Offset`] handle.
    pub fn offset(&self) -> (r: Offset)
        ensures
            r.off == self.offset,
    {
        Offset { off: self.offset }
    }

    /// Save the current parse state as a [`Marker`]: the position together
    /// with the current length of the secondary-diagnostic log.
    pub fn save(&self) -> (m: Marker)
        ensures
            m.off == self.offset,
            m.err_count == self.own.errors.secondary@.len(),
    {
        Marker { off: self.offset, err_count: self.own.errors.secondary.len() }
    }

    /// Reset the parse state to the one the marker was saved at: the cursor
    /// returns to the saved position and the secondary-diagnostic log is
    /// truncated to its saved length, discarding every diagnostic emitted in
    /// the abandoned branch. Rewinding is O(1) however much input the branch
    /// had consumed.
    pub fn rewind(&mut self, marker: Marker)
        requires
            marker.off <= old(self).toks().len(),
        ensures
            final(self).offset == marker.off,
            final(self).own.errors.secondary@ == old(self).own.errors.secondary@.take(
                vstd::math::min(marker.err_count as int, old(self).own.errors.secondary@.len() as int),
            ),
            marker.err_count <= old(self).own.errors.secondary@.len() ==> final(self)
                .own.errors.secondary@ == old(self).own.errors.secondary@.take(
                marker.err_count as int,
            ),
            final(self).own.errors.alt == old(self).own.errors.alt,
            final(self).same_session(old(self)),
            final(self).wf(),
    {
        self.own.errors.secondary.truncate(marker.err_count);
        self.offset = marker.off;
    }

    /// Rewinding to a marker saved earlier restores the cursor position and
    /// the secondary-diagnostic log exactly as they were at save time,
    /// provided the log has only been extended since the save — which every
    /// operation but `rewind` itself guarantees. Together with
    /// [`InputRef::save`] and [`InputRef::rewind`] this makes the round trip
    /// an identity: rewinding to a just-saved marker changes nothing.
    pub proof fn lemma_rewind_exact(
        saved: Marker,
        at_save: Seq<Located<E>>,
        at_rewind: Seq<Located<E>>,
    )
        requires
            saved.err_count == at_save.len(),
            at_save.is_prefix_of(at_rewind),
        ensures
            at_rewind.take(saved.err_count as int) == at_save,
    {
        assert(at_rewind.take(saved.err_count as int) =~= at_save);
    }

    /// A mutable reference to the user state of the current parse.
    pub fn state(&mut self) -> (r: &mut S)
        ensures
            *r == old(self).own.state,
            final(self).own.state == *final(r),
            final(self).offset == old(self).offset,
            final(self).own.input == old(self).own.input,
            final(self).own.errors == old(self).own.errors,
            final(self).own.ctx == old(self).own.ctx,
            final(self).own.memos == old(self).own.memos,
    {
        &mut self.own.state
    }

    /// The context fed to the current parser.
    pub fn ctx(&self) -> (r: &C)
        ensures
            *r == self.own.ctx,
    {
        &self.own.ctx
    }

    /// Read the next token by reference, advancing past it. Yields nothing
    /// exactly when the input is exhausted, and then stays in place.
    pub fn next_maybe(&mut self) -> (r: Option<&I::Token>)
        requires
            old(self).wf(),
        ensures
            final(self).own == old(self).own,
            final(self).wf(),
            old(self).offset < old(self).toks().len() ==> final(self).offset == old(self).offset
                + 1 && (r matches Some(t) && *t == old(self).toks()[old(self).offset as int]),
            old(self).offset == old(self).toks().len() ==> final(self).offset == old(self).offset
                && r is None,
    {
        let (offset, token) = self.own.input.next_maybe(self.offset);
        self.offset = offset;
        token
    }

    /// Read the next token by value, advancing past it.
    pub fn next(&mut self) -> (r: Option<I::Token>) where I: ValueInput
        requires
            old(self).wf(),
        ensures
            final(self).own == old(self).own,
            final(self).wf(),
            old(self).offset < old(self).toks().len() ==> final(self).offset == old(self).offset
                + 1 && r == Some(old(self).toks()[old(self).offset as int]),
            old(self).offset == old(self).toks().len() ==> final(self).offset == old(self).offset
                && r is None,
    {
        let (offset, token) = self.own.input.next(self.offset);
        self.offset = offset;
        token
    }

    /// Read the next token by reference, advancing past it. The reference is
    /// into the underlying storage.
    pub fn next_ref(&mut self) -> (r: Option<&I::Token>) where I: BorrowInput
        requires
            old(self).wf(),
        ensures
            final(self).own == old(self).own,
            final(self).wf(),
            old(self).offset < old(self).toks().len() ==> final(self).offset == old(self).offset
                + 1 && (r matches Some(t) && *t == old(self).toks()[old(self).offset as int]),
            old(self).offset == old(self).toks().len() ==> final(self).offset == old(self).offset
                && r is None,
    {
        let (offset, token) = self.own.input.next_ref(self.offset);
        self.offset = offset;
        token
    }

    /// Peek the next token without advancing.
    pub fn peek_maybe(&self) -> (r: Option<&I::Token>)
        requires
            self.wf(),
        ensures
            self.offset < self.toks().len() ==> (r matches Some(t) && *t == self.toks()[self.offset as int]),
            self.offset == self.toks().len() ==> r is None,
    {
        self.own.input.next_maybe(self.offset).1
    }

    /// Peek the next token by value without advancing.
    pub fn peek(&self) -> (r: Option<I::Token>) where I: ValueInput
        requires
            self.wf(),
        ensures
            self.offset < self.toks().len() ==> r == Some(self.toks()[self.offset as int]),
            self.offset == self.toks().len() ==> r is None,
    {
        self.own.input.next(self.offset).1
    }

    /// Peek the next token by reference without advancing.
    pub fn peek_ref(&self) -> (r: Option<&I::Token>) where I: BorrowInput
        requires
            self.wf(),
        ensures
            self.offset < self.toks().len() ==> (r matches Some(t) && *t == self.toks()[self.offset as int]),
            self.offset == self.toks().len() ==> r is None,
    {
        self.own.input.next_ref(self.offset).1
    }

    /// Skip past exactly one token, discarding it; at the end of the input,
    /// stay in place.
    pub fn skip(&mut self) where I: ValueInput
        requires
            old(self).wf(),
        ensures
            final(self).own == old(self).own,
            final(self).wf(),
            old(self).offset < old(self).toks().len() ==> final(self).offset == old(self).offset
                + 1,
            old(self).offset == old(self).toks().len() ==> final(self).offset == old(self).offset,
    {
        let (offset, _) = self.own.input.next(self.offset);
        self.offset = offset;
    }

    /// A zero-copy view of the input between two previously obtained offsets.
    pub fn slice(&self, from: Offset, to: Offset) -> (r: &[<I as SliceInput>::SliceItem]) where
        I: SliceInput,

        requires
            from.off <= to.off,
            to.off <= self.toks().len(),
        ensures
            r@ == self.own.input.slice_seq().subrange(from.off as int, to.off as int),
    {
        proof {
            self.own.input.slice_len();
        }
        self.own.input.slice(from.off, to.off)
    }

    /// A zero-copy view of the input from an offset to the end.
    pub fn slice_from(&self, from: Offset) -> (r: &[<I as SliceInput>::SliceItem]) where
        I: SliceInput,

        requires
            from.off <= self.toks().len(),
        ensures
            r@ == self.own.input.slice_seq().subrange(
                from.off as int,
                self.own.input.slice_seq().len() as int,
            ),
    {
        proof {
            self.own.input.slice_len();
        }
        self.own.input.slice_from(from.off)
    }

    /// A zero-copy view of the input from the current position to the end.
    pub fn slice_trailing(&self) -> (r: &[<I as SliceInput>::SliceItem]) where I: SliceInput
        requires
            self.wf(),
        ensures
            r@ == self.own.input.slice_seq().subrange(
                self.offset as int,
                self.own.input.slice_seq().len() as int,
            ),
    {
        proof {
            self.own.input.slice_len();
        }
        self.own.input.slice_from(self.offset)
    }

    /// A span over the input between two previously obtained offsets.
    pub fn span(&self, from: Offset, to: Offset) -> (s: I::Span)
        requires
            from.off <= to.off,
            to.off <= self.toks().len(),
        ensures
            s == self.own.input.spec_span(from.off as int, to.off as int),
    {
        self.own.input.span(from.off, to.off)
    }

    /// A span from a previously obtained offset to the end of the input.
    pub fn span_from(&self, from: Offset) -> (s: I::Span) where I: ExactSizeInput
        requires
            from.off <= self.toks().len(),
        ensures
            s == self.own.input.spec_span_from(from.off as int),
    {
        self.own.input.span_from(from.off)
    }

    /// A span from a previously captured offset to the current position: the
    /// span of what was just parsed.
    pub fn span_since(&self, before: Offset) -> (s: I::Span)
        requires
            self.wf(),
            before.off <= self.offset,
        ensures
            s == self.own.input.spec_span(before.off as int, self.offset as int),
    {
        self.own.input.span(before.off, self.offset)
    }

    /// Record a non-fatal diagnostic without aborting the parse: append it to
    /// the secondary log.
    pub fn emit(&mut self, pos: usize, error: E)
        ensures
            final(self).offset == old(self).offset,
            final(self).same_session(old(self)),
            final(self).own.errors.alt == old(self).own.errors.alt,
            final(self).own.errors.secondary@ == old(self).own.errors.secondary@.push(
                (Located { pos, err: error }),
            ),
    {
        self.own.errors.secondary.push(Located::at(pos, error));
    }

    /// Advance past the maximal run of tokens satisfying the predicate,
    /// stopping at the first rejected token or at the end of the input.
    pub fn skip_while<F: Fn(&I::Token) -> bool>(&mut self, f: &F) where I: ValueInput
        requires
            old(self).wf(),
            forall|i: int|
                old(self).offset <= i < old(self).toks().len() ==> call_requires(
                    *f,
                    (&old(self).toks()[i],),
                ),
        ensures
            final(self).own == old(self).own,
            final(self).wf(),
            old(self).offset <= final(self).offset,
            forall|i: int|
                old(self).offset <= i < final(self).offset ==> call_ensures(
                    *f,
                    (&old(self).toks()[i],),
                    true,
                ),
            final(self).offset < final(self).toks().len() ==> call_ensures(
                *f,
                (&old(self).toks()[final(self).offset as int],),
                false,
            ),
    {
        loop
            invariant
                self.wf(),
                self.own == old(self).own,
                old(self).offset <= self.offset,
                forall|i: int|
                    self.offset <= i < self.toks().len() ==> call_requires(
                        *f,
                        (&self.toks()[i],),
                    ),
                forall|i: int|
                    old(self).offset <= i < self.offset ==> call_ensures(
                        *f,
                        (&old(self).toks()[i],),
                        true,
                    ),
            ensures
                self.wf(),
                self.own == old(self).own,
                old(self).offset <= self.offset,
                forall|i: int|
                    old(self).offset <= i < self.offset ==> call_ensures(
                        *f,
                        (&old(self).toks()[i],),
                        true,
                    ),
                self.offset < self.toks().len() ==> call_ensures(
                    *f,
                    (&self.toks()[self.offset as int],),
                    false,
                ),
            decreases self.toks().len() - self.offset,
        {
            let (offset, token) = self.own.input.next(self.offset);
            match token {
                Some(t) => {
                    if f(&t) {
                        self.offset = offset;
                    } else {
                        break ;
                    }
                },
                None => {
                    break ;
                },
            }
        }
    }

    /// The recorded outcome, if any, of running the parser with the given
    /// identity at the current position: `None` inside the entry for a
    /// success, the failure's position otherwise. Parser identities are
    /// supplied by the engine driving the parse.
    pub fn memo_get(&self, parser_id: usize) -> (r: Option<Option<usize>>)
        ensures
            r == if self.own.memos@.dom().contains((self.offset, parser_id)) {
                Some(self.own.memos@[(self.offset, parser_id)])
            } else {
                None::<Option<usize>>
            },
    {
        self.own.memos.get(self.offset, parser_id)
    }

    /// Record the outcome of running the parser with the given identity at
    /// offset `at`.
    pub fn memo_insert(&mut self, at: usize, parser_id: usize, outcome: Option<usize>)
        ensures
            final(self).offset == old(self).offset,
            final(self).own.input == old(self).own.input,
            final(self).own.errors == old(self).own.errors,
            final(self).own.state == old(self).own.state,
            final(self).own.ctx == old(self).own.ctx,
            final(self).own.memos@ == old(self).own.memos@.insert((at, parser_id), outcome),
    {
        self.own.memos.insert(at, parser_id, outcome);
    }

    /// Drop the recorded outcome of running the parser with the given
    /// identity at offset `at`, if any.
    pub fn memo_remove(&mut self, at: usize, parser_id: usize)
        ensures
            final(self).offset == old(self).offset,
            final(self).own.input == old(self).own.input,
            final(self).own.errors == old(self).own.errors,
            final(self).own.state == old(self).own.state,
            final(self).own.ctx == old(self).own.ctx,
            final(self).own.memos@ == old(self).own.memos@.remove((at, parser_id)),
    {
        self.own.memos.remove(at, parser_id);
    }

    /// Record a candidate failure built from a raw expected/found pair,
    /// keeping whichever of it and the retained best failure shows the most
    /// progress, and merging them when they tie.
    pub fn add_alt(
        &mut self,
        at: usize,
        expected: Vec<Option<I::Token>>,
        found: Option<I::Token>,
        span: I::Span,
    ) where E: ParserError<Token = I::Token, Span = I::Span>
        ensures
            final(self).offset == old(self).offset,
            final(self).same_session(old(self)),
            final(self).own.errors.secondary == old(self).own.errors.secondary,
            final(self).own.errors.alt is Some,
            alt_state_of(final(self).own.errors.alt) == Some(
                record_alt(
                    alt_state_of(old(self).own.errors.alt),
                    at as int,
                    expected@.to_set(),
                    found,
                    span,
                ),
            ),
    {
        let cur = self.own.errors.alt.take();
        let new_alt = match cur {
            Some(alt) => {
                if alt.pos == at {
                    if found.is_none() {
                        Located::at(alt.pos, alt.err.replace_expected_found(expected, found, span))
                    } else {
                        Located::at(alt.pos, alt.err.merge_expected_found(expected, found, span))
                    }
                } else if alt.pos > at {
                    alt
                } else {
                    Located::at(at, alt.err.replace_expected_found(expected, found, span))
                }
            },
            None => Located::at(at, E::expected_found(expected, found, span)),
        };
        self.own.errors.alt = Some(new_alt);
    }

    /// Record an already-constructed candidate failure, with the same
    /// position priority as [`InputRef::add_alt`]; ties are merged through
    /// the error type's own merge operation.
    pub fn add_alt_err(&mut self, at: usize, err: E) where E: ParserError<
        Token = I::Token,
        Span = I::Span,
    >
        ensures
            final(self).offset == old(self).offset,
            final(self).same_session(old(self)),
            final(self).own.errors.secondary == old(self).own.errors.secondary,
            final(self).own.errors.alt is Some,
            alt_state_of(final(self).own.errors.alt) == Some(
                record_alt_err(
                    alt_state_of(old(self).own.errors.alt),
                    at as int,
                    err.expected_set(),
                    err.found_of(),
                    err.span_of(),
                ),
            ),
    {
        let cur = self.own.errors.alt.take();
        let new_alt = match cur {
            Some(alt) => {
                if alt.pos == at {
                    Located::at(alt.pos, alt.err.merge(err))
                } else if alt.pos > at {
                    alt
                } else {
                    Located::at(at, err)
                }
            },
            None => Located::at(at, err),
        };
        self.own.errors.alt = Some(new_alt);
    }

    /// Run a body against this session with a substituted context: the body
    /// receives a cursor sharing this session's input, state, diagnostics and
    /// memo cache but carrying `new_ctx`, and its final position is kept when
    /// the original context is put back.
    pub fn with_ctx<C2, O, F: FnOnce(InputRef<I, E, S, C2>) -> (InputRef<I, E, S, C2>, O)>(
        self,
        new_ctx: C2,
        f: F,
    ) -> (r: (InputRef<I, E, S, C>, O))
        requires
            call_requires(
                f,
                ((InputRef {
                    offset: self.offset,
                    own: InputOwn {
                        input: self.own.input,
                        errors: self.own.errors,
                        state: self.own.state,
                        ctx: new_ctx,
                        memos: self.own.memos,
                    },
                }),),
            ),
        ensures
            r.0.own.ctx == self.own.ctx,
            exists|mid: (InputRef<I, E, S, C2>, O)|
                {
                    &&& call_ensures(
                        f,
                        ((InputRef {
                            offset: self.offset,
                            own: InputOwn {
                                input: self.own.input,
                                errors: self.own.errors,
                                state: self.own.state,
                                ctx: new_ctx,
                                memos: self.own.memos,
                            },
                        }),),
                        mid,
                    )
                    &&& r.0.offset == mid.0.offset
                    &&& r.0.own.input == mid.0.own.input
                    &&& r.0.own.errors == mid.0.own.errors
                    &&& r.0.own.state == mid.0.own.state
                    &&& r.0.own.memos == mid.0.own.memos
                    &&& r.1 == mid.1
                },
    {
        let InputRef { offset, own } = self;
        let InputOwn { input, errors, state, ctx, memos } = own;
        let child = InputRef {
            offset,
            own: InputOwn { input, errors, state, ctx: new_ctx, memos },
        };
        let (child, out) = f(child);
        let InputRef { offset: new_offset, own: child_own } = child;
        let InputOwn { input, errors, state, ctx: _, memos } = child_own;
        (InputRef { offset: new_offset, own: InputOwn { input, errors, state, ctx, memos } }, out)
    }

    /// Run a body against a different input — for instance a slice carved out
    /// by an earlier step — while sharing this session's state, context and
    /// diagnostics. The child gets its own memo cache and starts at the new
    /// input's start; this session's position is untouched, and the child's
    /// input and cache are handed back alongside the result.
    pub fn with_input<O, F: FnOnce(InputRef<I, E, S, C>) -> (InputRef<I, E, S, C>, O)>(
        self,
        new_input: I,
        memos: MemoTable,
        f: F,
    ) -> (r: (InputRef<I, E, S, C>, O, I, MemoTable))
        requires
            call_requires(
                f,
                ((InputRef {
                    offset: 0,
                    own: InputOwn {
                        input: new_input,
                        errors: self.own.errors,
                        state: self.own.state,
                        ctx: self.own.ctx,
                        memos: memos,
                    },
                }),),
            ),
        ensures
            r.0.offset == self.offset,
            r.0.own.input == self.own.input,
            r.0.own.memos == self.own.memos,
            exists|mid: (InputRef<I, E, S, C>, O)|
                {
                    &&& call_ensures(
                        f,
                        ((InputRef {
                            offset: 0,
                            own: InputOwn {
                                input: new_input,
                                errors: self.own.errors,
                                state: self.own.state,
                                ctx: self.own.ctx,
                                memos: memos,
                            },
                        }),),
                        mid,
                    )
                    &&& r.0.own.errors == mid.0.own.errors
                    &&& r.0.own.state == mid.0.own.state
                    &&& r.0.own.ctx == mid.0.own.ctx
                    &&& r.1 == mid.1
                    &&& r.2 == mid.0.own.input
                    &&& r.3 == mid.0.own.memos
                },
    {
        let InputRef { offset, own } = self;
        let InputOwn { input, errors, state, ctx, memos: own_memos } = own;
        let start = new_input.start();
        let child = InputRef {
            offset: start,
            own: InputOwn { input: new_input, errors, state, ctx, memos },
        };
        let (child, out) = f(child);
        let InputRef { offset: _, own: child_own } = child;
        let InputOwn { input: child_input, errors, state, ctx, memos: child_memos } = child_own;
        (
            InputRef { offset, own: InputOwn { input, errors, state, ctx, memos: own_memos } },
            out,
            child_input,
            child_memos,
        )
    }
}

/// A sub-parser that this layer can run to completion over a session cursor.
///
/// The combinator engine implements this for its parsers. A parser may leave
/// the cursor anywhere consistent with what it consumed on success; on
/// failure the cursor's position is unspecified and the caller must rewind to
/// a marker saved beforehand. A parser that fails must have recorded a best
/// candidate failure.
pub trait Parser<I: Input, O, E, S, C> {
    /// Run the parser in emit mode, producing a value.
    fn go_emit(&self, inp: &mut InputRef<I, E, S, C>) -> (r: Result<O, ()>)
        requires
            old(inp).wf(),
        ensures
            final(inp).wf(),
            final(inp).own.input == old(inp).own.input,
            r is Err ==> final(inp).own.errors.alt is Some,
    ;

    /// Run the parser in check mode, producing only success or failure.
    fn go_check(&self, inp: &mut InputRef<I, E, S, C>) -> (r: Result<(), ()>)
        requires
            old(inp).wf(),
        ensures
            final(inp).wf(),
            final(inp).own.input == old(inp).own.input,
            r is Err ==> final(inp).own.errors.alt is Some,
    ;
}

impl<I: Input, E, S, C> InputRef<I, E, S, C> {
    /// Run a sub-parser to completion in emit mode: its produced value, or
    /// the best candidate failure, taken out of the aggregator and handed
    /// back as the error.
    pub fn parse<O, P: Parser<I, O, E, S, C>>(&mut self, parser: &P) -> (r: Result<O, E>)
        requires
            old(self).wf(),
        ensures
            final(self).wf(),
            final(self).own.input == old(self).own.input,
            r is Err ==> final(self).own.errors.alt is None,
    {
        match parser.go_emit(self) {
            Ok(out) => Ok(out),
            Err(()) => {
                let alt = self.own.errors.alt.take();
                match alt {
                    Some(l) => Err(l.err),
                    None => vstd::pervasive::unreached(),
                }
            },
        }
    }

    /// Run a sub-parser in check mode, discarding any produced value: used
    /// for lookahead, where only success or failure matters.
    pub fn check<O, P: Parser<I, O, E, S, C>>(&mut self, parser: &P) -> (r: Result<(), E>)
        requires
            old(self).wf(),
        ensures
            final(self).wf(),
            final(self).own.input == old(self).own.input,
            r is Err ==> final(self).own.errors.alt is None,
    {
        match parser.go_check(self) {
            Ok(()) => Ok(()),
            Err(()) => {
                let alt = self.own.errors.alt.take();
                match alt {
                    Some(l) => Err(l.err),
                    None => vstd::pervasive::unreached(),
                }
            },
        }
    }
}

/// The simplest parser: accept any one token, failing only at the end of the
/// input.
pub struct AnyTok;

impl<I: ValueInput, E: ParserError<Token = I::Token, Span = I::Span>, S, C> Parser<
    I,
    <I as Input>::Token,
    E,
    S,
    C,
> for AnyTok {
    fn go_emit(&self, inp: &mut InputRef<I, E, S, C>) -> (r: Result<I::Token, ()>) {
        let before = inp.offset();
        match inp.next() {
            Some(t) => Ok(t),
            None => {
                let span = inp.span_since(before);
                inp.add_alt(before.off, Vec::new(), None, span);
                Err(())
            },
        }
    }

    fn go_check(&self, inp: &mut InputRef<I, E, S, C>) -> (r: Result<(), ()>) {
        let before = inp.offset();
        match inp.next() {
            Some(_) => Ok(()),
            None => {
                let span = inp.span_since(before);
                inp.add_alt(before.off, Vec::new(), None, span);
                Err(())
            },
        }
    }
}

} // verus!
