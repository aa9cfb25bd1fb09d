//! Primitive adapters: streams over characters, token slices and fixed
//! arrays.

use vstd::prelude::*;
use vstd::array::array_as_slice;
use vstd::slice::{slice_index_get, slice_subrange};

use crate::input::{BorrowInput, ExactSizeInput, Input, SliceInput, StrInput, ValueInput};
use crate::SimpleSpan;

verus! {

/// A stream of characters, one code point per step.
///
/// Offsets count code points. A parser that needs the raw text back can slice
/// the underlying character storage between two offsets.
pub struct CharInput {
    chars: Vec<char>,
}

impl CharInput {
    /// A stream over the given characters.
    pub fn new(chars: Vec<char>) -> (r: CharInput)
        ensures
            r.tok_seq() == chars@,
    {
        CharInput { chars }
    }

    /// How many characters the stream holds.
    pub fn len(&self) -> (r: usize)
        ensures
            r == self.tok_seq().len(),
    {
        self.chars.len()
    }
}

impl Input for CharInput {
    type Token = char;

    type Span = SimpleSpan;

    closed spec fn tok_seq(&self) -> Seq<char> {
        self.chars@
    }

    open spec fn spec_span(&self, start: int, end: int) -> SimpleSpan {
        SimpleSpan { start: start as usize, end: end as usize }
    }

    fn start(&self) -> (o: usize) {
        0
    }

    fn next_maybe(&self, offset: usize) -> (r: (usize, Option<&char>)) {
        if offset < self.chars.len() {
            (offset + 1, Some(slice_index_get(self.chars.as_slice(), offset)))
        } else {
            (offset, None)
        }
    }

    fn span(&self, start: usize, end: usize) -> (s: SimpleSpan) {
        SimpleSpan { start, end }
    }
}

impl ExactSizeInput for CharInput {
    open spec fn spec_span_from(&self, from: int) -> SimpleSpan {
        self.spec_span(from, self.tok_seq().len() as int)
    }

    fn span_from(&self, from: usize) -> (s: SimpleSpan) {
        SimpleSpan { start: from, end: self.chars.len() }
    }
}

impl SliceInput for CharInput {
    type SliceItem = char;

    open spec fn slice_seq(&self) -> Seq<char> {
        self.tok_seq()
    }

    proof fn slice_len(&self) {
    }

    fn slice(&self, start: usize, end: usize) -> (r: &[char]) {
        slice_subrange(self.chars.as_slice(), start, end)
    }

    fn slice_from(&self, from: usize) -> (r: &[char]) {
        slice_subrange(self.chars.as_slice(), from, self.chars.len())
    }
}

impl ValueInput for CharInput {
    fn next(&self, offset: usize) -> (r: (usize, Option<char>)) {
        if offset < self.chars.len() {
            (offset + 1, Some(self.chars[offset]))
        } else {
            (offset, None)
        }
    }
}

impl StrInput for CharInput {

}

/// A stream over a sequence of arbitrary tokens, read by reference.
pub struct SliceTokens<T> {
    toks: Vec<T>,
}

impl<T> SliceTokens<T> {
    /// A stream over the given tokens.
    pub fn new(toks: Vec<T>) -> (r: SliceTokens<T>)
        ensures
            r.tok_seq() == toks@,
    {
        SliceTokens { toks }
    }
}

impl<T> Input for SliceTokens<T> {
    type Token = T;

    type Span = SimpleSpan;

    closed spec fn tok_seq(&self) -> Seq<T> {
        self.toks@
    }

    open spec fn spec_span(&self, start: int, end: int) -> SimpleSpan {
        SimpleSpan { start: start as usize, end: end as usize }
    }

    fn start(&self) -> (o: usize) {
        0
    }

    fn next_maybe(&self, offset: usize) -> (r: (usize, Option<&T>)) {
        if offset < self.toks.len() {
            (offset + 1, Some(slice_index_get(self.toks.as_slice(), offset)))
        } else {
            (offset, None)
        }
    }

    fn span(&self, start: usize, end: usize) -> (s: SimpleSpan) {
        SimpleSpan { start, end }
    }
}

impl<T> ExactSizeInput for SliceTokens<T> {
    open spec fn spec_span_from(&self, from: int) -> SimpleSpan {
        self.spec_span(from, self.tok_seq().len() as int)
    }

    fn span_from(&self, from: usize) -> (s: SimpleSpan) {
        SimpleSpan { start: from, end: self.toks.len() }
    }
}

impl<T> SliceInput for SliceTokens<T> {
    type SliceItem = T;

    open spec fn slice_seq(&self) -> Seq<T> {
        self.tok_seq()
    }

    proof fn slice_len(&self) {
    }

    fn slice(&self, start: usize, end: usize) -> (r: &[T]) {
        slice_subrange(self.toks.as_slice(), start, end)
    }

    fn slice_from(&self, from: usize) -> (r: &[T]) {
        slice_subrange(self.toks.as_slice(), from, self.toks.len())
    }
}

impl<T: Copy> ValueInput for SliceTokens<T> {
    fn next(&self, offset: usize) -> (r: (usize, Option<T>)) {
        if offset < self.toks.len() {
            (offset + 1, Some(self.toks[offset]))
        } else {
            (offset, None)
        }
    }
}

impl<T> BorrowInput for SliceTokens<T> {
    fn next_ref(&self, offset: usize) -> (r: (usize, Option<&T>)) {
        if offset < self.toks.len() {
            (offset + 1, Some(slice_index_get(self.toks.as_slice(), offset)))
        } else {
            (offset, None)
        }
    }
}

impl StrInput for SliceTokens<u8> {

}

/// A stream over a fixed-size array of tokens.
pub struct ArrayTokens<T, const N: usize> {
    toks: [T; N],
}

impl<T, const N: usize> ArrayTokens<T, N> {
    /// A stream over the given array.
    pub fn new(toks: [T; N]) -> (r: ArrayTokens<T, N>)
        ensures
            r.tok_seq() == toks@,
    {
        ArrayTokens { toks }
    }
}

impl<T, const N: usize> Input for ArrayTokens<T, N> {
    type Token = T;

    type Span = SimpleSpan;

    closed spec fn tok_seq(&self) -> Seq<T> {
        self.toks@
    }

    open spec fn spec_span(&self, start: int, end: int) -> SimpleSpan {
        SimpleSpan { start: start as usize, end: end as usize }
    }

    fn start(&self) -> (o: usize) {
        0
    }

    fn next_maybe(&self, offset: usize) -> (r: (usize, Option<&T>)) {
        let s = array_as_slice(&self.toks);
        if offset < s.len() {
            (offset + 1, Some(slice_index_get(s, offset)))
        } else {
            (offset, None)
        }
    }

    fn span(&self, start: usize, end: usize) -> (s: SimpleSpan) {
        SimpleSpan { start, end }
    }
}

impl<T, const N: usize> ExactSizeInput for ArrayTokens<T, N> {
    open spec fn spec_span_from(&self, from: int) -> SimpleSpan {
        self.spec_span(from, self.tok_seq().len() as int)
    }

    fn span_from(&self, from: usize) -> (s: SimpleSpan) {
        SimpleSpan { start: from, end: array_as_slice(&self.toks).len() }
    }
}

impl<T, const N: usize> SliceInput for ArrayTokens<T, N> {
    type SliceItem = T;

    open spec fn slice_seq(&self) -> Seq<T> {
        self.tok_seq()
    }

    proof fn slice_len(&self) {
    }

    fn slice(&self, start: usize, end: usize) -> (r: &[T]) {
        slice_subrange(array_as_slice(&self.toks), start, end)
    }

    fn slice_from(&self, from: usize) -> (r: &[T]) {
        let s = array_as_slice(&self.toks);
        slice_subrange(s, from, s.len())
    }
}

impl<T: Copy, const N: usize> ValueInput for ArrayTokens<T, N> {
    fn next(&self, offset: usize) -> (r: (usize, Option<T>)) {
        let s = array_as_slice(&self.toks);
        if offset < s.len() {
            (offset + 1, Some(*slice_index_get(s, offset)))
        } else {
            (offset, None)
        }
    }
}

impl<T, const N: usize> BorrowInput for ArrayTokens<T, N> {
    fn next_ref(&self, offset: usize) -> (r: (usize, Option<&T>)) {
        let s = array_as_slice(&self.toks);
        if offset < s.len() {
            (offset + 1, Some(slice_index_get(s, offset)))
        } else {
            (offset, None)
        }
    }
}

impl<const N: usize> StrInput for ArrayTokens<u8, N> {

}

/// For character streams, the span to the end of the stream is the span to
/// the stream's final offset.
pub proof fn lemma_span_from_char(inp: &CharInput, from: int)
    requires
        0 <= from <= inp.tok_seq().len(),
    ensures
        inp.spec_span_from(from) == inp.spec_span(from, inp.tok_seq().len() as int),
{
}

/// For token-slice streams, the span to the end of the stream is the span to
/// the stream's final offset.
pub proof fn lemma_span_from_slice<T>(inp: &SliceTokens<T>, from: int)
    requires
        0 <= from <= inp.tok_seq().len(),
    ensures
        inp.spec_span_from(from) == inp.spec_span(from, inp.tok_seq().len() as int),
{
}

/// For fixed-array streams, the span to the end of the stream is the span to
/// the stream's final offset.
pub proof fn lemma_span_from_array<T, const N: usize>(inp: &ArrayTokens<T, N>, from: int)
    requires
        0 <= from <= inp.tok_seq().len(),
    ensures
        inp.spec_span_from(from) == inp.spec_span(from, inp.tok_seq().len() as int),
{
}

} // verus!
