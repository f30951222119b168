//! The laws the combinators obey, stated and proved over the evaluators'
//! specification functions.

use vstd::prelude::*;

use crate::combine::spec_is_choice;
use crate::combine::Join;
use crate::combine::Optional;
use crate::combine::WithChoices;
use crate::combine::WithDefault;
use crate::errors::SpecCliError;
use crate::eval::eval_result_matches;
use crate::eval::EvaluateResult;
use crate::eval::Evaluatable;
use crate::eval::PlainValue;
use crate::terminal::spec_first_match_from;
use crate::terminal::FlagWithValue;
use crate::terminal::StringValue;

verus! {

/// **Span additivity.** When a join succeeds, both children succeed on the
/// same input, the joined span is the left child's span followed by the
/// right child's, and its index set is the union of the children's index
/// sets.
pub proof fn lemma_join_span_additivity<A, E1, E2, B, C>(j: Join<E1, E2>, input: Seq<Seq<char>>)
    where
        A: DeepView<V = Seq<Seq<char>>> + Copy,
        B: DeepView,
        C: DeepView,
        E1: Evaluatable<A, B>,
        E2: Evaluatable<A, C>,

    requires
        <Join<E1, E2> as Evaluatable<A, (B, C)>>::spec_eval(&j, input) is Ok,
    ensures
        <E1 as Evaluatable<A, B>>::spec_eval(&j.evaluator1, input) is Ok,
        <E2 as Evaluatable<A, C>>::spec_eval(&j.evaluator2, input) is Ok,
        ({
            match (
                <Join<E1, E2> as Evaluatable<A, (B, C)>>::spec_eval(&j, input),
                <E1 as Evaluatable<A, B>>::spec_eval(&j.evaluator1, input),
                <E2 as Evaluatable<A, C>>::spec_eval(&j.evaluator2, input),
            ) {
                (Ok((s, _)), Ok((s1, _)), Ok((s2, _))) => s == s1 + s2 && s.to_set()
                    == s1.to_set().union(s2.to_set()),
                _ => false,
            }
        }),
{
    match (
        <E1 as Evaluatable<A, B>>::spec_eval(&j.evaluator1, input),
        <E2 as Evaluatable<A, C>>::spec_eval(&j.evaluator2, input),
    ) {
        (Ok((s1, _)), Ok((s2, _))) => {
            assert forall|x: usize| (s1 + s2).to_set().contains(x) implies s1.to_set().union(
                s2.to_set(),
            ).contains(x) by {
                let k = choose|k: int| 0 <= k < (s1 + s2).len() && (s1 + s2)[k] == x;
                if k < s1.len() {
                    assert(s1[k] == x);
                } else {
                    assert(s2[k - s1.len()] == x);
                }
            }
            assert forall|x: usize| s1.to_set().union(s2.to_set()).contains(x) implies (s1
                + s2).to_set().contains(x) by {
                if s1.to_set().contains(x) {
                    let k = choose|k: int| 0 <= k < s1.len() && s1[k] == x;
                    assert((s1 + s2)[k] == x);
                } else {
                    let k = choose|k: int| 0 <= k < s2.len() && s2[k] == x;
                    assert((s1 + s2)[s1.len() + k] == x);
                }
            }
            assert((s1 + s2).to_set() =~= s1.to_set().union(s2.to_set()));
        },
        _ => {},
    }
}

/// **Optional totality.** Whatever its child does, an `Optional` evaluator
/// never returns an error: any result its `evaluate` can hand back is `Ok`.
pub proof fn lemma_optional_totality<A, E, B>(
    opt: Optional<E>,
    input: Seq<Seq<char>>,
    r: EvaluateResult<Option<B>>,
)
    where
        A: DeepView<V = Seq<Seq<char>>>,
        B: DeepView,
        E: Evaluatable<A, B>,

    requires
        eval_result_matches(
            r,
            <Optional<E> as Evaluatable<A, Option<B>>>::spec_eval(&opt, input),
            input,
        ),
    ensures
        r is Ok,
        <Optional<E> as Evaluatable<A, Option<B>>>::spec_eval(&opt, input) is Ok,
{
}

/// **Default substitution.** `WithDefault(d, Optional(E))` yields the
/// default `d` with an empty span exactly when `E` fails, and `E`'s own
/// value and span otherwise.
pub proof fn lemma_default_substitution<A, B, E>(
    wd: WithDefault<B, Optional<E>>,
    input: Seq<Seq<char>>,
)
    where
        A: DeepView<V = Seq<Seq<char>>>,
        B: PlainValue,
        E: Evaluatable<A, B>,

    ensures
        ({
            let r = <WithDefault<B, Optional<E>> as Evaluatable<A, B>>::spec_eval(&wd, input);
            match <E as Evaluatable<A, B>>::spec_eval(&wd.evaluator.evaluator, input) {
                Ok((s, v)) => r == Ok::<_, SpecCliError>((s, v)),
                Err(_) => r == Ok::<_, SpecCliError>(
                    (Seq::<usize>::empty(), wd.default.deep_view()),
                ),
            }
        }),
{
}

/// **Choice rejection.** A `WithChoices` passes its child's failure
/// through; a child success keeps its value and span exactly when the
/// value is among the choices, and fails with `ValueEvaluation` exactly
/// when it is not.
pub proof fn lemma_choice_rejection<A, B, E, const N: usize>(
    wc: WithChoices<B, E, N>,
    input: Seq<Seq<char>>,
)
    where
        A: DeepView<V = Seq<Seq<char>>>,
        B: PlainValue,
        E: Evaluatable<A, B>,

    ensures
        ({
            let r = <WithChoices<B, E, N> as Evaluatable<A, B>>::spec_eval(&wc, input);
            match <E as Evaluatable<A, B>>::spec_eval(&wc.evaluator, input) {
                Ok((s, v)) => if spec_is_choice(wc.choices, v) {
                    r == Ok::<_, SpecCliError>((s, v))
                } else {
                    r == Err::<(Seq<usize>, B::V), _>(SpecCliError::ValueEvaluation)
                },
                Err(e) => r == Err::<(Seq<usize>, B::V), _>(e),
            }
        }),
{
}

/// **Join value composition.** A join's produced value is the pair of its
/// children's values, each taken from the full input: if each child
/// produces the same value on two inputs, the join does too, whatever the
/// token order of either input.
pub proof fn lemma_join_value_from_children<A, E1, E2, B, C>(
    j: Join<E1, E2>,
    input1: Seq<Seq<char>>,
    input2: Seq<Seq<char>>,
)
    where
        A: DeepView<V = Seq<Seq<char>>> + Copy,
        B: DeepView,
        C: DeepView,
        E1: Evaluatable<A, B>,
        E2: Evaluatable<A, C>,

    requires
        ({
            match (
                <E1 as Evaluatable<A, B>>::spec_eval(&j.evaluator1, input1),
                <E1 as Evaluatable<A, B>>::spec_eval(&j.evaluator1, input2),
            ) {
                (Ok((_, v1)), Ok((_, v2))) => v1 == v2,
                _ => false,
            }
        }),
        ({
            match (
                <E2 as Evaluatable<A, C>>::spec_eval(&j.evaluator2, input1),
                <E2 as Evaluatable<A, C>>::spec_eval(&j.evaluator2, input2),
            ) {
                (Ok((_, v1)), Ok((_, v2))) => v1 == v2,
                _ => false,
            }
        }),
    ensures
        ({
            match (
                <Join<E1, E2> as Evaluatable<A, (B, C)>>::spec_eval(&j, input1),
                <Join<E1, E2> as Evaluatable<A, (B, C)>>::spec_eval(&j, input2),
            ) {
                (Ok((_, v1)), Ok((_, v2))) => v1 == v2,
                _ => false,
            }
        }),
{
}

/// **Flag order independence.** For two string flags whose tokens do not
/// match each other's flag, a join of the two succeeds with the same pair
/// of values whether the first flag's token group comes before or after
/// the second's in the input.
pub proof fn lemma_flag_order_independence<'a>(
    f1: FlagWithValue<StringValue>,
    f2: FlagWithValue<StringValue>,
    a1: Seq<char>,
    b1: Seq<char>,
    a2: Seq<char>,
    b2: Seq<char>,
)
    requires
        crate::strings::spec_token_matches(a1, f1.name@, f1.short_code@),
        crate::strings::spec_token_matches(a2, f2.name@, f2.short_code@),
        !crate::strings::spec_token_matches(a2, f1.name@, f1.short_code@),
        !crate::strings::spec_token_matches(b2, f1.name@, f1.short_code@),
        !crate::strings::spec_token_matches(a1, f2.name@, f2.short_code@),
        !crate::strings::spec_token_matches(b1, f2.name@, f2.short_code@),
    ensures
        ({
            let j = Join { evaluator1: f1, evaluator2: f2 };
            let first_order = seq![a1, b1, a2, b2];
            let second_order = seq![a2, b2, a1, b1];
            let r1 = <Join<FlagWithValue<StringValue>, FlagWithValue<StringValue>> as Evaluatable<
                &'a [&'a str],
                (String, String),
            >>::spec_eval(&j, first_order);
            let r2 = <Join<FlagWithValue<StringValue>, FlagWithValue<StringValue>> as Evaluatable<
                &'a [&'a str],
                (String, String),
            >>::spec_eval(&j, second_order);
            &&& r1 is Ok
            &&& r2 is Ok
            &&& match (r1, r2) {
                (Ok((_, v1)), Ok((_, v2))) => v1 == (b1, b2) && v2 == (b1, b2),
                _ => false,
            }
        }),
{
    let first_order = seq![a1, b1, a2, b2];
    let second_order = seq![a2, b2, a1, b1];
    assert(first_order.len() == 4 && first_order[0] == a1 && first_order[1] == b1 && first_order[2]
        == a2 && first_order[3] == b2);
    assert(second_order.len() == 4 && second_order[0] == a2 && second_order[1] == b2
        && second_order[2] == a1 && second_order[3] == b1);
    assert(spec_first_match_from(first_order, f1.name@, f1.short_code@, 0) == Some(0int));
    assert(spec_first_match_from(second_order, f1.name@, f1.short_code@, 0)
        == spec_first_match_from(second_order, f1.name@, f1.short_code@, 1));
    assert(spec_first_match_from(second_order, f1.name@, f1.short_code@, 1)
        == spec_first_match_from(second_order, f1.name@, f1.short_code@, 2));
    assert(spec_first_match_from(second_order, f1.name@, f1.short_code@, 2) == Some(2int));
    assert(spec_first_match_from(first_order, f2.name@, f2.short_code@, 0)
        == spec_first_match_from(first_order, f2.name@, f2.short_code@, 1));
    assert(spec_first_match_from(first_order, f2.name@, f2.short_code@, 1)
        == spec_first_match_from(first_order, f2.name@, f2.short_code@, 2));
    assert(spec_first_match_from(first_order, f2.name@, f2.short_code@, 2) == Some(2int));
    assert(spec_first_match_from(second_order, f2.name@, f2.short_code@, 0) == Some(0int));
    assert(first_order.skip(1)[0] == b1);
    assert(second_order.skip(3)[0] == b1);
    assert(first_order.skip(3)[0] == b2);
    assert(second_order.skip(1)[0] == b2);
    assert(first_order.skip(1).len() == 3);
    assert(second_order.skip(3).len() == 1);
    assert(first_order.skip(3).len() == 1);
    assert(second_order.skip(1).len() == 3);
}

} // verus!
