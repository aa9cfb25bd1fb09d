//! The diagnostic aggregator: candidate failures, their recording policy,
//! and the collectors a parse session carries.

use vstd::prelude::*;
use vstd::slice::slice_subrange;

verus! {

/// A failure value produced while parsing: at some position, a set of
/// acceptable continuations was expected but something else — or nothing —
/// was found.
///
/// The engine orchestrates *when* failures are built, merged at equal
/// positions, or replaced by deeper ones; the error type itself supplies
/// those operations. An expected continuation is `Some(token)`, or `None` for
/// the end of the input.
pub trait ParserError: Sized {
    /// The token type of the stream the failure was raised on.
    type Token;

    /// The span type of the stream the failure was raised on.
    type Span;

    /// The set of continuations this failure reports as acceptable.
    spec fn expected_set(&self) -> Set<Option<Self::Token>>;

    /// What was actually found: a token, or `None` at the end of the input.
    spec fn found_of(&self) -> Option<Self::Token>;

    /// Where the failure happened.
    spec fn span_of(&self) -> Self::Span;

    /// A fresh failure from an expected/found pair and a span.
    fn expected_found(
        expected: Vec<Option<Self::Token>>,
        found: Option<Self::Token>,
        span: Self::Span,
    ) -> (r: Self)
        ensures
            r.expected_set() == expected@.to_set(),
            r.found_of() == found,
            r.span_of() == span,
    ;

    /// Merge another failure raised at the same position into this one,
    /// uniting the expected sets and keeping this failure's found and span.
    fn merge(self, other: Self) -> (r: Self)
        ensures
            r.expected_set() == self.expected_set().union(other.expected_set()),
            r.found_of() == self.found_of(),
            r.span_of() == self.span_of(),
    ;

    /// Merge a raw expected/found pair raised at the same position into this
    /// failure, uniting the expected sets.
    fn merge_expected_found(
        self,
        expected: Vec<Option<Self::Token>>,
        found: Option<Self::Token>,
        span: Self::Span,
    ) -> (r: Self)
        ensures
            r.expected_set() == self.expected_set().union(expected@.to_set()),
            r.found_of() == self.found_of(),
            r.span_of() == self.span_of(),
    ;

    /// Replace this failure's expected set, found token and span with the
    /// incoming ones.
    fn replace_expected_found(
        self,
        expected: Vec<Option<Self::Token>>,
        found: Option<Self::Token>,
        span: Self::Span,
    ) -> (r: Self)
        ensures
            r.expected_set() == expected@.to_set(),
            r.found_of() == found,
            r.span_of() == span,
    ;
}

/// The default failure value: the expected/found pair and span, kept verbatim.
#[derive(Debug)]
pub struct SimpleError<T, S> {
    /// The acceptable continuations; `None` stands for the end of the input.
    pub expected: Vec<Option<T>>,
    /// The token actually found, or `None` at the end of the input.
    pub found: Option<T>,
    /// Where the failure happened.
    pub span: S,
}

/// Uniting two token sequences unites what they contain.
proof fn lemma_to_set_of_add<A>(a: Seq<A>, b: Seq<A>)
    ensures
        (a + b).to_set() == a.to_set().union(b.to_set()),
{
    assert forall|x: A| (a + b).to_set().contains(x) implies a.to_set().union(b.to_set()).contains(
        x,
    ) by {
        let i = choose|i: int| 0 <= i < (a + b).len() && (a + b)[i] == x;
        if i < a.len() {
            assert(a[i] == x);
        } else {
            assert(b[i - a.len()] == x);
        }
    }
    assert forall|x: A| a.to_set().union(b.to_set()).contains(x) implies (a + b).to_set().contains(
        x,
    ) by {
        if a.to_set().contains(x) {
            let i = choose|i: int| 0 <= i < a.len() && a[i] == x;
            assert((a + b)[i] == x);
        } else {
            let i = choose|i: int| 0 <= i < b.len() && b[i] == x;
            assert((a + b)[a.len() + i] == x);
        }
    }
    assert((a + b).to_set() =~= a.to_set().union(b.to_set()));
}

impl<T, S> ParserError for SimpleError<T, S> {
    type Token = T;

    type Span = S;

    closed spec fn expected_set(&self) -> Set<Option<T>> {
        self.expected@.to_set()
    }

    closed spec fn found_of(&self) -> Option<T> {
        self.found
    }

    closed spec fn span_of(&self) -> S {
        self.span
    }

    fn expected_found(expected: Vec<Option<T>>, found: Option<T>, span: S) -> (r: SimpleError<
        T,
        S,
    >) {
        SimpleError { expected, found, span }
    }

    fn merge(self, other: SimpleError<T, S>) -> (r: SimpleError<T, S>) {
        let SimpleError { mut expected, found, span } = self;
        let mut incoming = other.expected;
        proof {
            lemma_to_set_of_add(expected@, incoming@);
        }
        expected.append(&mut incoming);
        SimpleError { expected, found, span }
    }

    fn merge_expected_found(self, expected: Vec<Option<T>>, found: Option<T>, span: S) -> (r:
        SimpleError<T, S>) {
        let SimpleError { expected: mut retained, found: own_found, span: own_span } = self;
        let mut incoming = expected;
        proof {
            lemma_to_set_of_add(retained@, incoming@);
        }
        retained.append(&mut incoming);
        SimpleError { expected: retained, found: own_found, span: own_span }
    }

    fn replace_expected_found(self, expected: Vec<Option<T>>, found: Option<T>, span: S) -> (r:
        SimpleError<T, S>) {
        SimpleError { expected, found, span }
    }
}

/// An error value tagged with the offset it was raised at.
#[derive(Debug)]
pub struct Located<E> {
    /// How far into the input the failure happened.
    pub pos: usize,
    /// The failure itself.
    pub err: E,
}

impl<E> Located<E> {
    /// Tag an error with the offset it was raised at.
    pub fn at(pos: usize, err: E) -> (r: Located<E>)
        ensures
            r.pos == pos,
            r.err == err,
    {
        Located { pos, err }
    }
}

/// The mathematical content of a retained best failure: its position and the
/// parts of the error value that the recording policy inspects.
#[verifier::reject_recursive_types(T)]
pub struct AltState<T, S> {
    /// How far into the input the failure happened.
    pub pos: int,
    /// The acceptable continuations it reports.
    pub expected: Set<Option<T>>,
    /// What was found instead, or `None` at the end of the input.
    pub found: Option<T>,
    /// Where the failure happened.
    pub span: S,
}

/// The mathematical content of one located failure.
pub open spec fn located_state<E: ParserError>(l: Located<E>) -> AltState<E::Token, E::Span> {
    AltState {
        pos: l.pos as int,
        expected: l.err.expected_set(),
        found: l.err.found_of(),
        span: l.err.span_of(),
    }
}

/// The mathematical content of the retained best failure, if any.
pub open spec fn alt_state_of<E: ParserError>(alt: Option<Located<E>>) -> Option<
    AltState<E::Token, E::Span>,
> {
    match alt {
        Option::None => Option::None,
        Option::Some(l) => Option::Some(located_state(l)),
    }
}

/// The retained best failure after one raw expected/found failure at `at` is
/// recorded over `cur`.
///
/// Furthest progress wins: a failure strictly deeper than the retained one
/// replaces it, a shallower one is ignored. At equal positions, a failure
/// that found nothing (an end-of-input-shaped failure) supersedes the
/// retained expectations; otherwise the expected sets are united.
pub open spec fn record_alt<T, S>(
    cur: Option<AltState<T, S>>,
    at: int,
    expected: Set<Option<T>>,
    found: Option<T>,
    span: S,
) -> AltState<T, S> {
    match cur {
        Option::None => AltState { pos: at, expected, found, span },
        Option::Some(a) => {
            if a.pos == at {
                if found is None {
                    AltState { pos: a.pos, expected, found, span }
                } else {
                    AltState {
                        pos: a.pos,
                        expected: a.expected.union(expected),
                        found: a.found,
                        span: a.span,
                    }
                }
            } else if a.pos > at {
                a
            } else {
                AltState { pos: at, expected, found, span }
            }
        },
    }
}

/// The retained best failure after an already-constructed error at `at` is
/// recorded over `cur`: the same position priority, with equal positions
/// merged through the error type's own merge operation.
pub open spec fn record_alt_err<T, S>(
    cur: Option<AltState<T, S>>,
    at: int,
    expected: Set<Option<T>>,
    found: Option<T>,
    span: S,
) -> AltState<T, S> {
    match cur {
        Option::None => AltState { pos: at, expected, found, span },
        Option::Some(a) => {
            if a.pos == at {
                AltState {
                    pos: a.pos,
                    expected: a.expected.union(expected),
                    found: a.found,
                    span: a.span,
                }
            } else if a.pos > at {
                a
            } else {
                AltState { pos: at, expected, found, span }
            }
        },
    }
}

/// Failures at positions `p1 < p2`, recorded over an empty slot in either
/// order, leave the retained failure at `p2` — the failure at `p1` never
/// survives, and the retained failure is the same whatever the order. The
/// same holds when already-constructed errors are recorded.
pub proof fn lemma_alt_priority<T, S>(
    p1: int,
    e1: Set<Option<T>>,
    f1: Option<T>,
    s1: S,
    p2: int,
    e2: Set<Option<T>>,
    f2: Option<T>,
    s2: S,
)
    requires
        p1 < p2,
    ensures
        record_alt(Some(record_alt(None, p1, e1, f1, s1)), p2, e2, f2, s2).pos == p2,
        record_alt(Some(record_alt(None, p2, e2, f2, s2)), p1, e1, f1, s1).pos == p2,
        record_alt(Some(record_alt(None, p1, e1, f1, s1)), p2, e2, f2, s2) == record_alt(
            Some(record_alt(None, p2, e2, f2, s2)),
            p1,
            e1,
            f1,
            s1,
        ),
        record_alt_err(Some(record_alt_err(None, p1, e1, f1, s1)), p2, e2, f2, s2) == record_alt_err(
            Some(record_alt_err(None, p2, e2, f2, s2)),
            p1,
            e1,
            f1,
            s1,
        ),
        record_alt_err(Some(record_alt_err(None, p1, e1, f1, s1)), p2, e2, f2, s2).pos == p2,
{
}

/// Recording a failure never moves the retained failure backwards, whatever
/// already stands in the slot.
pub proof fn lemma_alt_monotonic<T, S>(
    cur: Option<AltState<T, S>>,
    at: int,
    expected: Set<Option<T>>,
    found: Option<T>,
    span: S,
)
    ensures
        record_alt(cur, at, expected, found, span).pos >= at,
        cur matches Some(a) ==> record_alt(cur, at, expected, found, span).pos >= a.pos,
{
}

/// Recording the same expected/found failure twice at one position leaves an
/// expected set that contains everything a single recording reports — no
/// information is lost.
pub proof fn lemma_merge_idempotent<T, S>(
    at: int,
    expected: Set<Option<T>>,
    found: Option<T>,
    span: S,
)
    ensures
        record_alt(None, at, expected, found, span).expected.subset_of(
            record_alt(Some(record_alt(None, at, expected, found, span)), at, expected, found, span)
                .expected,
        ),
        record_alt(Some(record_alt(None, at, expected, found, span)), at, expected, found, span).pos
            == at,
{
    let once = record_alt(None, at, expected, found, span);
    let twice = record_alt(Some(once), at, expected, found, span);
    if found is None {
        assert(twice.expected =~= once.expected);
    } else {
        assert(twice.expected =~= expected.union(expected));
        assert(twice.expected =~= once.expected);
    }
}

/// The diagnostic aggregator of one parse session: the single best candidate
/// failure seen so far, and an ordered log of secondary, non-fatal failures.
///
/// The log is only ever appended to, or truncated by a rewind; it is never
/// reordered.
pub struct Errors<E> {
    /// The best candidate failure for final reporting, if any.
    pub alt: Option<Located<E>>,
    /// The secondary failures recorded by error-recovering parsers, in order.
    pub secondary: Vec<Located<E>>,
}

impl<E> Errors<E> {
    /// An aggregator with no failures yet.
    pub fn new() -> (r: Errors<E>)
        ensures
            r.alt is None,
            r.secondary@ =~= Seq::<Located<E>>::empty(),
    {
        Errors { alt: None, secondary: Vec::new() }
    }

    /// The secondary errors emitted since the log had length `err_count`.
    pub fn secondary_errors_since(&self, err_count: usize) -> (r: &[Located<E>])
        ensures
            err_count <= self.secondary@.len() ==> r@ == self.secondary@.subrange(
                err_count as int,
                self.secondary@.len() as int,
            ),
            err_count > self.secondary@.len() ==> r@ =~= Seq::<Located<E>>::empty(),
    {
        let len = self.secondary.len();
        if err_count <= len {
            slice_subrange(self.secondary.as_slice(), err_count, len)
        } else {
            slice_subrange(self.secondary.as_slice(), len, len)
        }
    }
}

impl<E> Default for Errors<E> {
    /// An aggregator with no failures yet.
    fn default() -> (r: Errors<E>)
        ensures
            r.alt is None,
            r.secondary@ =~= Seq::<Located<E>>::empty(),
    {
        Errors { alt: None, secondary: Vec::new() }
    }
}

/// A push-only collector for user-raised validation errors, drained once at
/// the end of a validation step.
pub struct Emitter<E> {
    emitted: Vec<E>,
}

impl<E> Emitter<E> {
    /// The errors emitted so far, in order.
    pub closed spec fn emitted_seq(&self) -> Seq<E> {
        self.emitted@
    }

    /// A collector with nothing emitted yet.
    pub fn new() -> (r: Emitter<E>)
        ensures
            r.emitted_seq() =~= Seq::<E>::empty(),
    {
        Emitter { emitted: Vec::new() }
    }

    /// Drain the collector, handing the emitted errors out in order.
    pub fn errors(self) -> (r: Vec<E>)
        ensures
            r@ == self.emitted_seq(),
    {
        self.emitted
    }

    /// Emit a non-fatal error.
    pub fn emit(&mut self, err: E)
        ensures
            final(self).emitted_seq() == old(self).emitted_seq().push(err),
    {
        self.emitted.push(err)
    }
}

} // verus!
