//! The evaluator abstraction.
//!
//! An evaluator turns a slice of raw tokens into a typed value together with
//! the [`Span`] of token indices it consumed, or a [`CliError`]. Each
//! implementation carries a specification function `spec_eval` describing its
//! behaviour over the token sequences, and `evaluate` is proved to agree with
//! it.

use vstd::prelude::*;

use crate::errors::CliError;
use crate::errors::SpecCliError;
use crate::span::Value;

verus! {

/// The outcome of an evaluation: a spanned value, or a typed failure.
pub type EvaluateResult<T> = Result<Value<T>, CliError>;

/// Specification-level outcome: the consumed indices and the abstract value,
/// or the abstract failure.
pub type SpecEvalResult<V> = Result<(Seq<usize>, V), SpecCliError>;

/// Every index of `span` stays within a token slice of length `len` (the
/// index `len` itself is tolerated: it is the position just past the end,
/// which offsetting by a command prefix can produce).
pub open spec fn span_within(span: Seq<usize>, len: nat) -> bool {
    forall|i: int| 0 <= i < span.len() ==> span[i] <= len
}

/// How an executable result relates to its specification: success carries
/// exactly the specified span and abstract value, with the span staying
/// within the input; failure carries exactly the specified error.
pub open spec fn eval_result_matches<B: DeepView>(
    r: EvaluateResult<B>,
    s: SpecEvalResult<B::V>,
    input: Seq<Seq<char>>,
) -> bool {
    match r {
        Ok(v) => s == Ok::<_, SpecCliError>((v.span@, v.value.deep_view())) && span_within(
            v.span@,
            input.len(),
        ),
        Err(e) => s == Err::<(Seq<usize>, B::V), _>(e@),
    }
}

/// Evaluatable turns an input of raw tokens into a concrete typed value.
///
/// `spec_eval` is the mathematical description of the evaluator; `evaluate`
/// is proved to return exactly what `spec_eval` says on the view of its
/// input.
pub trait Evaluatable<A: DeepView<V = Seq<Seq<char>>>, B: DeepView> where Self: Sized {
    /// What this evaluator returns on the given token sequences.
    spec fn spec_eval(&self, input: Seq<Seq<char>>) -> SpecEvalResult<B::V>;

    /// Runs the evaluator on the input tokens.
    fn evaluate(&self, input: A) -> (r: EvaluateResult<B>)
        ensures
            eval_result_matches(r, self.spec_eval(input.deep_view()), input.deep_view()),
    ;

    /// Sequences this evaluator with `evaluator2` into a [`crate::Join`].
    fn join<E>(self, evaluator2: E) -> (r: crate::combine::Join<Self, E>)
        ensures
            r.evaluator1 == self,
            r.evaluator2 == evaluator2,
    {
        crate::combine::Join::new(self, evaluator2)
    }
}

/// A value strategy that can be evaluated at a given position of the input,
/// seeing only the tokens from that position on; the returned span is
/// relative to that position.
pub trait PositionalArgumentValue<A: DeepView<V = Seq<Seq<char>>>, B: DeepView>: Evaluatable<
    A,
    B,
> {
    /// Evaluates against the tokens from position `pos` on.
    fn evaluate_at(&self, input: A, pos: usize) -> (r: EvaluateResult<B>)
        requires
            pos <= input.deep_view().len(),
        ensures
            eval_result_matches(
                r,
                self.spec_eval(input.deep_view().skip(pos as int)),
                input.deep_view().skip(pos as int),
            ),
    ;
}

/// A marker trait signifying that an implementation of Evaluatable is
/// terminal: it reads tokens directly instead of composing other evaluators.
pub trait TerminalEvaluatable<A: DeepView<V = Seq<Seq<char>>>, B: DeepView>: Evaluatable<
    A,
    B,
> {

}

/// A marker trait to tell flag-like evaluators apart from command-like ones.
pub trait IsFlag {

}

/// A marker trait to tell command-like evaluators apart from flag-like ones.
pub trait IsCmd {

}

/// A marker trait for evaluators whose produced path can be opened as a
/// file.
pub trait Openable {

}

/// The tokens of `input` from position `pos` on.
pub fn tail_from<'a>(input: &'a [&'a str], pos: usize) -> (r: &'a [&'a str])
    requires
        pos <= input@.len(),
    ensures
        r@ == input@.skip(pos as int),
        r.deep_view() == input.deep_view().skip(pos as int),
        r.deep_view().len() == input.deep_view().len() - pos,
{
    let r = &input[pos..input.len()];
    proof {
        assert(r@ =~= input@.skip(pos as int));
        assert(r.deep_view() =~= input.deep_view().skip(pos as int));
    }
    r
}

/// A plain produced value: one that can be duplicated and compared with a
/// meaning the specifications can speak about (its deep view).
pub trait PlainValue: DeepView + Sized {
    /// A copy of the value with the same abstract view.
    fn duplicate(&self) -> (r: Self)
        ensures
            r.deep_view() == self.deep_view(),
    ;

    /// Whether two values have the same abstract view.
    fn same_value(&self, other: &Self) -> (r: bool)
        ensures
            r == (self.deep_view() == other.deep_view()),
    ;
}

impl PlainValue for String {
    fn duplicate(&self) -> (r: Self) {
        self.clone()
    }

    fn same_value(&self, other: &Self) -> (r: bool) {
        String::eq(self, other)
    }
}

impl PlainValue for bool {
    fn duplicate(&self) -> (r: Self) {
        *self
    }

    fn same_value(&self, other: &Self) -> (r: bool) {
        *self == *other
    }
}

impl PlainValue for u8 {
    fn duplicate(&self) -> (r: Self) {
        *self
    }

    fn same_value(&self, other: &Self) -> (r: bool) {
        *self == *other
    }
}

impl PlainValue for u16 {
    fn duplicate(&self) -> (r: Self) {
        *self
    }

    fn same_value(&self, other: &Self) -> (r: bool) {
        *self == *other
    }
}

impl PlainValue for u32 {
    fn duplicate(&self) -> (r: Self) {
        *self
    }

    fn same_value(&self, other: &Self) -> (r: bool) {
        *self == *other
    }
}

impl PlainValue for u64 {
    fn duplicate(&self) -> (r: Self) {
        *self
    }

    fn same_value(&self, other: &Self) -> (r: bool) {
        *self == *other
    }
}

impl PlainValue for i8 {
    fn duplicate(&self) -> (r: Self) {
        *self
    }

    fn same_value(&self, other: &Self) -> (r: bool) {
        *self == *other
    }
}

impl PlainValue for i16 {
    fn duplicate(&self) -> (r: Self) {
        *self
    }

    fn same_value(&self, other: &Self) -> (r: bool) {
        *self == *other
    }
}

impl PlainValue for i32 {
    fn duplicate(&self) -> (r: Self) {
        *self
    }

    fn same_value(&self, other: &Self) -> (r: bool) {
        *self == *other
    }
}

impl PlainValue for i64 {
    fn duplicate(&self) -> (r: Self) {
        *self
    }

    fn same_value(&self, other: &Self) -> (r: bool) {
        *self == *other
    }
}

} // verus!
