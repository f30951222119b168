//! Recovery of the tokens that no evaluator consumed.

use vstd::prelude::*;
use vstd::string::StrSliceExecFns;

use crate::span::Span;

verus! {

/// The tokens of `input` whose index does not occur in `span`, in input
/// order.
pub open spec fn spec_unused_args(input: Seq<Seq<char>>, span: Seq<usize>) -> Seq<Seq<char>>
    decreases input.len(),
{
    if input.len() == 0 {
        Seq::empty()
    } else if span.contains((input.len() - 1) as usize) {
        spec_unused_args(input.drop_last(), span)
    } else {
        spec_unused_args(input.drop_last(), span).push(input.last())
    }
}

/// Returns every token whose index the matched span never consumed.
pub fn return_unused_args<'a>(input: &'a [&'a str], matched_span: &Span) -> (r: Vec<String>)
    ensures
        r.deep_view() == spec_unused_args(input.deep_view(), matched_span@),
{
    let ghost iv = input.deep_view();
    let mut out: Vec<String> = Vec::new();
    let mut i: usize = 0;
    proof {
        assert(iv.take(0) =~= Seq::<Seq<char>>::empty());
        assert(out.deep_view() =~= spec_unused_args(iv.take(0), matched_span@));
    }
    while i < input.len()
        invariant
            i <= input@.len(),
            iv == input.deep_view(),
            iv.len() == input@.len(),
            out.deep_view() == spec_unused_args(iv.take(i as int), matched_span@),
        decreases input@.len() - i,
    {
        proof {
            assert(iv.take(i + 1).drop_last() =~= iv.take(i as int));
            assert(iv.take(i + 1).last() == iv[i as int]);
            assert(iv[i as int] == input@[i as int]@);
        }
        let ghost before = out.deep_view();
        if !matched_span.contains_index(i) {
            out.push(input[i].to_owned());
            proof {
                assert(out.deep_view() =~= before.push(iv[i as int]));
            }
        }
        i = i + 1;
    }
    proof {
        assert(iv.take(iv.len() as int) =~= iv);
    }
    out
}

} // verus!
