//! Spans of consumed token indices, and values paired with their span.

use vstd::prelude::*;

verus! {

/// The sequence of indices `start, start + 1, ..., end - 1`, or the empty
/// sequence when `end <= start`.
pub open spec fn spec_range_indices(start: int, end: int) -> Seq<usize> {
    if end <= start {
        Seq::empty()
    } else {
        Seq::new((end - start) as nat, |i: int| (start + i) as usize)
    }
}

/// Every index of `s` shifted up by `offset`.
pub open spec fn spec_offset_indices(s: Seq<usize>, offset: int) -> Seq<usize> {
    s.map_values(|v: usize| (v + offset) as usize)
}

/// An ordered collection of token indices, in insertion order, duplicates
/// permitted. A span records which positions of the original token slice an
/// evaluator consumed; an empty span means no tokens were consumed.
#[derive(Debug, PartialEq, Clone)]
pub struct Span(Vec<usize>);

impl View for Span {
    type V = Seq<usize>;

    closed spec fn view(&self) -> Seq<usize> {
        self.0@
    }
}

impl Span {
    /// The span of no consumed tokens.
    pub fn empty() -> (s: Self)
        ensures
            s@ == Seq::<usize>::empty(),
    {
        Span(Vec::new())
    }

    /// The span of the contiguous indices `range.start .. range.end`.
    pub fn from_range(range: core::ops::Range<usize>) -> (s: Self)
        ensures
            s@ == spec_range_indices(range.start as int, range.end as int),
    {
        let start = range.start;
        let end = range.end;
        let mut indices: Vec<usize> = Vec::new();
        let mut i: usize = start;
        while i < end
            invariant
                start <= i,
                end <= usize::MAX,
                i <= end || i == start,
                indices@ == spec_range_indices(start as int, i as int),
            decreases end - i,
        {
            indices.push(i);
            proof {
                assert(spec_range_indices(start as int, i + 1 as int) =~= spec_range_indices(
                    start as int,
                    i as int,
                ).push(i));
            }
            i = i + 1;
        }
        proof {
            if start >= end {
                assert(indices@ =~= spec_range_indices(start as int, end as int));
            }
        }
        Span(indices)
    }

    /// Appends every index of `other` after the indices of `self`, keeping
    /// both orders.
    pub fn join(self, other: Span) -> (s: Self)
        ensures
            s@ == self@ + other@,
    {
        let mut indices = self.0;
        let ghost original = indices@;
        let other_indices = other.0;
        let mut j: usize = 0;
        while j < other_indices.len()
            invariant
                j <= other_indices.len(),
                indices@ == original + other_indices@.take(j as int),
            decreases other_indices.len() - j,
        {
            indices.push(other_indices[j]);
            assert(other_indices@.take(j + 1 as int) =~= other_indices@.take(j as int).push(
                other_indices@[j as int],
            ));
            j = j + 1;
        }
        assert(indices@ =~= original + other_indices@);
        Span(indices)
    }

    /// Whether some position of the span holds exactly the index `idx`.
    pub fn contains_index(&self, idx: usize) -> (r: bool)
        ensures
            r == self@.contains(idx),
    {
        let mut i: usize = 0;
        while i < self.0.len()
            invariant
                i <= self.0.len(),
                forall|k: int| 0 <= k < i ==> self.0@[k] != idx,
            decreases self.0.len() - i,
        {
            if self.0[i] == idx {
                return true;
            }
            i = i + 1;
        }
        false
    }
}

impl Default for Span {
    /// The empty span.
    fn default() -> (s: Self)
        ensures
            s@ == Seq::<usize>::empty(),
    {
        Span::empty()
    }
}

/// A produced value together with the span of token indices that were
/// consumed to produce it.
#[derive(Debug, PartialEq, Clone)]
pub struct Value<T> {
    pub span: Span,
    pub value: T,
}

impl<T> Value<T> {
    /// Pairs a value with the span that produced it.
    pub fn new(span: Span, value: T) -> (r: Self)
        ensures
            r.span == span,
            r.value == value,
    {
        Self { span, value }
    }

    /// Shifts every index of the span up by `offset`, leaving the value
    /// untouched. Used when an evaluator ran on a sub-slice of the original
    /// tokens and its indices must be rebased onto the full slice.
    pub fn from_offset(self, offset: usize) -> (r: Self)
        requires
            forall|i: int| 0 <= i < self.span@.len() ==> self.span@[i] + offset <= usize::MAX,
        ensures
            r.span@ == spec_offset_indices(self.span@, offset as int),
            r.value == self.value,
    {
        let span_indices = self.span.0;
        assert(forall|k: int|
            0 <= k < span_indices@.len() ==> #[trigger] span_indices@[k] + offset <= usize::MAX)
            by {
            assert(span_indices@ == self.span@);
            assert(forall|k: int|
                0 <= k < span_indices@.len() ==> span_indices@[k] == #[trigger] self.span@[k]);
        }
        let mut adjusted: Vec<usize> = Vec::new();
        let mut i: usize = 0;
        while i < span_indices.len()
            invariant
                i <= span_indices.len(),
                forall|k: int|
                    0 <= k < span_indices@.len() ==> #[trigger] span_indices@[k] + offset
                        <= usize::MAX,
                adjusted@ == spec_offset_indices(span_indices@.take(i as int), offset as int),
            decreases span_indices.len() - i,
        {
            adjusted.push(span_indices[i] + offset);
            assert(spec_offset_indices(span_indices@.take(i + 1 as int), offset as int)
                =~= spec_offset_indices(span_indices@.take(i as int), offset as int).push(
                (span_indices@[i as int] + offset) as usize,
            ));
            i = i + 1;
        }
        assert(span_indices@.take(span_indices@.len() as int) =~= span_indices@);
        Self { span: Span(adjusted), value: self.value }
    }

    /// Discards the span, handing back the bare value.
    pub fn unwrap(self) -> (r: T)
        ensures
            r == self.value,
    {
        self.value
    }

    /// Discards the span, wrapping the bare value in `Some`.
    pub fn some(self) -> (r: Option<T>)
        ensures
            r == Some(self.value),
    {
        Some(self.value)
    }

    /// Applies `map_fn` to the value, keeping the span.
    pub fn map<V, F: FnOnce(T) -> V>(self, map_fn: F) -> (r: Value<V>)
        requires
            call_requires(map_fn, (self.value,)),
        ensures
            r.span == self.span,
            call_ensures(map_fn, (self.value,), r.value),
    {
        let Value { span, value } = self;
        Value { span, value: map_fn(value) }
    }
}

} // verus!
