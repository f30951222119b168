//! Structural combinators: sequential joins, optional wrapping, default
//! substitution and choice restriction.

use vstd::prelude::*;

use crate::errors::CliError;
use crate::errors::SpecCliError;
use crate::eval::EvaluateResult;
use crate::eval::Evaluatable;
use crate::eval::IsFlag;
use crate::eval::PlainValue;
use crate::eval::SpecEvalResult;
use crate::span::Span;
use crate::span::Value;
use crate::terminal::FlagWithValue;
use crate::terminal::StringValue;
use crate::terminal::ValueOnMatch;

verus! {

/// Joins two evaluators into one that yields both results as a pair.
///
/// Both children scan the *same* input independently — flags may appear in
/// any token order — and the combined span lists the left child's indices
/// before the right child's.
#[derive(Debug, Clone, PartialEq)]
pub struct Join<E1, E2> {
    pub evaluator1: E1,
    pub evaluator2: E2,
}

impl<E1, E2> IsFlag for Join<E1, E2> {

}

impl<E1, E2> Join<E1, E2> {
    /// Joins `evaluator1` and `evaluator2`.
    pub fn new(evaluator1: E1, evaluator2: E2) -> (r: Self)
        ensures
            r.evaluator1 == evaluator1,
            r.evaluator2 == evaluator2,
    {
        Self { evaluator1, evaluator2 }
    }
}

impl<A, E1, E2, B, C> Evaluatable<A, (B, C)> for Join<E1, E2> where
    A: DeepView<V = Seq<Seq<char>>> + Copy,
    B: DeepView,
    C: DeepView,
    E1: Evaluatable<A, B>,
    E2: Evaluatable<A, C>,
 {
    /// Evaluates the left child first, then the right child on the same
    /// input; the first failure is passed through unchanged, and a double
    /// success pairs the values and concatenates the spans, left first.
    open spec fn spec_eval(&self, input: Seq<Seq<char>>) -> SpecEvalResult<(B::V, C::V)> {
        match self.evaluator1.spec_eval(input) {
            Ok((s1, b)) => match self.evaluator2.spec_eval(input) {
                Ok((s2, c)) => Ok((s1 + s2, (b, c))),
                Err(e) => Err(e),
            },
            Err(e) => Err(e),
        }
    }

    fn evaluate(&self, input: A) -> (r: EvaluateResult<(B, C)>) {
        match self.evaluator1.evaluate(input) {
            Ok(v1) => match self.evaluator2.evaluate(input) {
                Ok(v2) => {
                    let joined = v1.span.join(v2.span);
                    Ok(Value::new(joined, (v1.value, v2.value)))
                },
                Err(e) => Err(e),
            },
            Err(e) => Err(e),
        }
    }
}

/// Converts an evaluator's failure into `None` instead of an error.
///
/// This is the only combinator that swallows errors; it exists so that
/// [`WithDefault`] can substitute a fallback value.
#[derive(Debug, Clone, PartialEq)]
pub struct Optional<E> {
    pub evaluator: E,
}

impl<E> IsFlag for Optional<E> {

}

impl<E> Optional<E> {
    /// Wraps `evaluator` so that its failures become `None`.
    pub fn new(evaluator: E) -> (r: Self)
        ensures
            r.evaluator == evaluator,
    {
        Self { evaluator }
    }
}

impl<A, E, B> Evaluatable<A, Option<B>> for Optional<E> where
    A: DeepView<V = Seq<Seq<char>>>,
    B: DeepView,
    E: Evaluatable<A, B>,
 {
    /// Always succeeds: the child's success is wrapped in `Some` with the
    /// child's span, and the child's failure becomes `None` with an empty
    /// span, its error discarded.
    open spec fn spec_eval(&self, input: Seq<Seq<char>>) -> SpecEvalResult<Option<B::V>> {
        match self.evaluator.spec_eval(input) {
            Ok((s, b)) => Ok((s, Some(b))),
            Err(_) => Ok((Seq::empty(), None)),
        }
    }

    fn evaluate(&self, input: A) -> (r: EvaluateResult<Option<B>>) {
        match self.evaluator.evaluate(input) {
            Ok(v) => {
                let Value { span, value } = v;
                Ok(Value::new(span, Some(value)))
            },
            Err(_) => Ok(Value::new(Span::empty(), None)),
        }
    }
}

/// Substitutes a default value when its child yields `None`.
///
/// Meant to sit directly atop [`Optional`]: the child must produce an
/// `Option`, and the span passes through unchanged (empty when defaulted).
#[derive(Debug, Clone, PartialEq)]
pub struct WithDefault<B, E> {
    pub default: B,
    pub evaluator: E,
}

impl<B, E> IsFlag for WithDefault<B, E> {

}

impl<B, E> WithDefault<B, E> {
    /// Wraps `evaluator`, substituting `default` when it yields `None`.
    pub fn new<D: Into<B>>(default: D, evaluator: E) -> (r: Self)
        ensures
            r.evaluator == evaluator,
            call_ensures(<D as Into<B>>::into, (default,), r.default),
    {
        Self { default: default.into(), evaluator }
    }
}

impl<A, B, E> Evaluatable<A, B> for WithDefault<B, E> where
    A: DeepView<V = Seq<Seq<char>>>,
    B: PlainValue,
    E: Evaluatable<A, Option<B>>,
 {
    /// Passes the child's failure through; unwraps the child's `Some`
    /// value; replaces the child's `None` with the default. The child's
    /// span is kept in every successful case.
    open spec fn spec_eval(&self, input: Seq<Seq<char>>) -> SpecEvalResult<B::V> {
        match self.evaluator.spec_eval(input) {
            Ok((s, Some(b))) => Ok((s, b)),
            Ok((s, None)) => Ok((s, self.default.deep_view())),
            Err(e) => Err(e),
        }
    }

    fn evaluate(&self, input: A) -> (r: EvaluateResult<B>) {
        match self.evaluator.evaluate(input) {
            Ok(v) => {
                let Value { span, value } = v;
                match value {
                    Some(b) => Ok(Value::new(span, b)),
                    None => Ok(Value::new(span, self.default.duplicate())),
                }
            },
            Err(e) => Err(e),
        }
    }
}

/// Whether `v` is the abstract view of one of the values in `choices`.
pub open spec fn spec_is_choice<B: DeepView, const N: usize>(choices: [B; N], v: B::V) -> bool {
    exists|i: int| 0 <= i < N && choices.deep_view()[i] == v
}

/// Restricts a successful evaluation to a fixed set of allowed values.
///
/// A post-hoc refinement: the child evaluates as usual, and a produced
/// value outside `choices` turns the success into `ValueEvaluation`.
#[derive(Debug, Clone, PartialEq)]
pub struct WithChoices<B, E, const N: usize> {
    pub choices: [B; N],
    pub evaluator: E,
}

impl<B, E, const N: usize> IsFlag for WithChoices<B, E, N> {

}

impl<B, E, const N: usize> WithChoices<B, E, N> {
    /// Wraps `evaluator`, allowing only values among `choices`.
    pub fn new(choices: [B; N], evaluator: E) -> (r: Self)
        ensures
            r.choices == choices,
            r.evaluator == evaluator,
    {
        Self { choices, evaluator }
    }
}

impl<A, B, E, const N: usize> Evaluatable<A, B> for WithChoices<B, E, N> where
    A: DeepView<V = Seq<Seq<char>>>,
    B: PlainValue,
    E: Evaluatable<A, B>,
 {
    /// Passes the child's failure through. A child success keeps its value
    /// and span when the value is among the choices, and becomes
    /// `ValueEvaluation` when it is not.
    open spec fn spec_eval(&self, input: Seq<Seq<char>>) -> SpecEvalResult<B::V> {
        match self.evaluator.spec_eval(input) {
            Ok((s, b)) => if spec_is_choice(self.choices, b) {
                Ok((s, b))
            } else {
                Err(SpecCliError::ValueEvaluation)
            },
            Err(e) => Err(e),
        }
    }

    fn evaluate(&self, input: A) -> (r: EvaluateResult<B>) {
        match self.evaluator.evaluate(input) {
            Ok(v) => {
                let mut i: usize = 0;
                while i < N
                    invariant
                        i <= N,
                        self.evaluator.spec_eval(input.deep_view()) == Ok::<_, SpecCliError>(
                            (v.span@, v.value.deep_view()),
                        ),
                        crate::eval::span_within(v.span@, input.deep_view().len()),
                        forall|k: int|
                            0 <= k < i ==> self.choices.deep_view()[k] != v.value.deep_view(),
                    decreases N - i,
                {
                    if self.choices[i].same_value(&v.value) {
                        proof {
                            assert(self.choices.deep_view()[i as int] == self.choices@[
                                i as int].deep_view());
                            assert(spec_is_choice(self.choices, v.value.deep_view()));
                        }
                        return Ok(v);
                    }
                    proof {
                        assert(self.choices.deep_view()[i as int] == self.choices@[
                            i as int].deep_view());
                    }
                    i = i + 1;
                }
                Err(CliError::ValueEvaluation)
            },
            Err(e) => Err(e),
        }
    }
}

/// A trait for evaluators that can be made optional and given a default.
pub trait Defaultable where Self: Sized {
    /// Wraps this evaluator in a [`WithDefault`] carrying `default`.
    fn with_default<D>(self, default: D) -> (r: WithDefault<D, Self>)
        ensures
            r.default == default,
            r.evaluator == self,
    {
        WithDefault { default, evaluator: self }
    }

    /// Wraps this evaluator in an [`Optional`].
    fn optional(self) -> (r: Optional<Self>)
        ensures
            r.evaluator == self,
    {
        Optional { evaluator: self }
    }
}

impl<V> Defaultable for FlagWithValue<V> {

}

impl<E> Defaultable for Optional<E> where E: Defaultable {

}

impl<B, E, const N: usize> Defaultable for WithChoices<B, E, N> where E: Defaultable {

}

/// A terminal flag evaluator expecting a string value: a fixed pairing of
/// a flag with [`StringValue`].
#[derive(Debug, Clone, PartialEq)]
pub struct ExpectStringValue {
    pub inner: FlagWithValue<StringValue>,
}

impl IsFlag for ExpectStringValue {

}

impl Defaultable for ExpectStringValue {

}

impl ExpectStringValue {
    /// A flag evaluator for `--name` / `-short_code` expecting one string
    /// value after the flag token.
    pub fn new(name: &str, short_code: &str, description: &str) -> (r: Self)
        ensures
            r.inner.name@ == name@,
            r.inner.short_code@ == short_code@,
            r.inner.description@ == description@,
            r.inner.value == StringValue,
    {
        Self { inner: FlagWithValue::new(name, short_code, description, StringValue) }
    }
}

impl<'a> Evaluatable<&'a [&'a str], String> for ExpectStringValue {
    /// Exactly the behaviour of the wrapped [`FlagWithValue`].
    open spec fn spec_eval(&self, input: Seq<Seq<char>>) -> SpecEvalResult<Seq<char>> {
        self.inner.spec_eval(input)
    }

    fn evaluate(&self, input: &'a [&'a str]) -> (r: EvaluateResult<String>) {
        self.inner.evaluate(input)
    }
}

/// A boolean toggle that yields `true` when its flag token is present: a
/// fixed pairing of a flag with [`ValueOnMatch`].
#[derive(Debug, Clone, PartialEq)]
pub struct StoreTrue {
    pub inner: FlagWithValue<ValueOnMatch<bool>>,
}

impl IsFlag for StoreTrue {

}

impl Defaultable for StoreTrue {

}

impl StoreTrue {
    /// A toggle for `--name` / `-short_code` yielding `true` when present.
    pub fn new(name: &str, short_code: &str, description: &str) -> (r: Self)
        ensures
            r.inner.name@ == name@,
            r.inner.short_code@ == short_code@,
            r.inner.description@ == description@,
            r.inner.value.value == true,
    {
        Self { inner: FlagWithValue::new(name, short_code, description, ValueOnMatch::new(true)) }
    }
}

impl<'a> Evaluatable<&'a [&'a str], bool> for StoreTrue {
    /// Exactly the behaviour of the wrapped [`FlagWithValue`].
    open spec fn spec_eval(&self, input: Seq<Seq<char>>) -> SpecEvalResult<bool> {
        self.inner.spec_eval(input)
    }

    fn evaluate(&self, input: &'a [&'a str]) -> (r: EvaluateResult<bool>) {
        self.inner.evaluate(input)
    }
}

/// A boolean toggle that yields `false` when its flag token is present: a
/// fixed pairing of a flag with [`ValueOnMatch`].
#[derive(Debug, Clone, PartialEq)]
pub struct StoreFalse {
    pub inner: FlagWithValue<ValueOnMatch<bool>>,
}

impl IsFlag for StoreFalse {

}

impl Defaultable for StoreFalse {

}

impl StoreFalse {
    /// A toggle for `--name` / `-short_code` yielding `false` when present.
    pub fn new(name: &str, short_code: &str, description: &str) -> (r: Self)
        ensures
            r.inner.name@ == name@,
            r.inner.short_code@ == short_code@,
            r.inner.description@ == description@,
            r.inner.value.value == false,
    {
        Self { inner: FlagWithValue::new(name, short_code, description, ValueOnMatch::new(false)) }
    }
}

impl<'a> Evaluatable<&'a [&'a str], bool> for StoreFalse {
    /// Exactly the behaviour of the wrapped [`FlagWithValue`].
    open spec fn spec_eval(&self, input: Seq<Seq<char>>) -> SpecEvalResult<bool> {
        self.inner.spec_eval(input)
    }

    fn evaluate(&self, input: &'a [&'a str]) -> (r: EvaluateResult<bool>) {
        self.inner.evaluate(input)
    }
}

} // verus!
