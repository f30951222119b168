//! Terminal evaluators: leaf value strategies that read tokens directly, and
//! the flag evaluator that scans for a flag token before delegating to a
//! strategy.

use vstd::prelude::*;

use crate::errors::CliError;
use crate::errors::SpecCliError;
use crate::eval::tail_from;
use crate::eval::EvaluateResult;
use crate::eval::Evaluatable;
use crate::eval::IsFlag;
use crate::eval::PositionalArgumentValue;
use crate::eval::SpecEvalResult;
use crate::eval::TerminalEvaluatable;
use crate::span::spec_offset_indices;
use crate::span::spec_range_indices;
use crate::span::Span;
use crate::span::Value;
use crate::numbers::parse_signed_token;
use crate::numbers::parse_unsigned_token;
use crate::numbers::spec_parse_sint;
use crate::numbers::spec_parse_uint;
use crate::strings::spec_token_matches;
use crate::strings::token_matches;

verus! {

/// Consumes one token verbatim as a `String`.
#[derive(Debug, Clone, Copy, PartialEq)]
pub struct StringValue;

impl<'a> Evaluatable<&'a [&'a str], String> for StringValue {
    /// Succeeds on a non-empty input with its first token and span `{0}`;
    /// fails with `ValueEvaluation` on an empty input.
    open spec fn spec_eval(&self, input: Seq<Seq<char>>) -> SpecEvalResult<Seq<char>> {
        if input.len() > 0 {
            Ok((spec_range_indices(0, 1), input[0]))
        } else {
            Err(SpecCliError::ValueEvaluation)
        }
    }

    fn evaluate(&self, input: &'a [&'a str]) -> (r: EvaluateResult<String>) {
        if input.len() > 0 {
            let token: &str = input[0];
            proof {
                assert(input.deep_view()[0] == input@[0]@);
            }
            Ok(Value::new(Span::from_range(0..1usize), token.to_owned()))
        } else {
            Err(CliError::ValueEvaluation)
        }
    }
}

impl<'a> PositionalArgumentValue<&'a [&'a str], String> for StringValue {
    fn evaluate_at(&self, input: &'a [&'a str], pos: usize) -> (r: EvaluateResult<String>) {
        self.evaluate(tail_from(input, pos))
    }
}

impl<'a> TerminalEvaluatable<&'a [&'a str], String> for StringValue {

}

/// Consumes nothing and returns a fixed value: the strategy behind boolean
/// toggles, where the presence of the flag token alone decides.
#[derive(Debug, Clone, Copy, PartialEq)]
pub struct ValueOnMatch<V> {
    pub value: V,
}

impl<V> ValueOnMatch<V> {
    /// A strategy that always yields `value` with an empty span.
    pub fn new(value: V) -> (r: Self)
        ensures
            r.value == value,
    {
        Self { value }
    }
}

impl<'a, V: DeepView + Copy> Evaluatable<&'a [&'a str], V> for ValueOnMatch<V> {
    /// Always succeeds with the fixed value and an empty span.
    open spec fn spec_eval(&self, input: Seq<Seq<char>>) -> SpecEvalResult<V::V> {
        Ok((Seq::empty(), self.value.deep_view()))
    }

    fn evaluate(&self, input: &'a [&'a str]) -> (r: EvaluateResult<V>) {
        Ok(Value::new(Span::empty(), self.value))
    }
}

impl<'a, V: DeepView + Copy> PositionalArgumentValue<&'a [&'a str], V> for ValueOnMatch<V> {
    fn evaluate_at(&self, input: &'a [&'a str], pos: usize) -> (r: EvaluateResult<V>) {
        self.evaluate(tail_from(input, pos))
    }
}

impl<'a, V: DeepView + Copy> TerminalEvaluatable<&'a [&'a str], V> for ValueOnMatch<V> {

}

/// The unit evaluator: a command with no flags still consumes its leading
/// token, so evaluating `()` unconditionally succeeds with the unit value
/// and span `{0}`.
impl<'a> Evaluatable<&'a [&'a str], ()> for () {
    /// Always succeeds with `()` and span `{0}`.
    open spec fn spec_eval(&self, input: Seq<Seq<char>>) -> SpecEvalResult<()> {
        Ok((spec_range_indices(0, 1), ()))
    }

    fn evaluate(&self, input: &'a [&'a str]) -> (r: EvaluateResult<()>) {
        Ok(Value::new(Span::from_range(0..1usize), ()))
    }
}

/// The position of the first token matching the flag, searching from
/// position `i`.
pub open spec fn spec_first_match_from(
    input: Seq<Seq<char>>,
    name: Seq<char>,
    code: Seq<char>,
    i: int,
) -> Option<int>
    decreases input.len() - i,
{
    if i < 0 || i >= input.len() {
        None
    } else if spec_token_matches(input[i], name, code) {
        Some(i)
    } else {
        spec_first_match_from(input, name, code, i + 1)
    }
}

/// The position of the first token matching the flag, scanning the whole
/// input.
pub open spec fn spec_first_match(input: Seq<Seq<char>>, name: Seq<char>, code: Seq<char>) -> Option<
    int,
> {
    spec_first_match_from(input, name, code, 0)
}

/// The position of the first token equal to `--name` or `-short_code`,
/// scanning the whole input.
pub fn find_first_flag<'a>(input: &'a [&'a str], name: &str, short_code: &str) -> (r: Option<
    usize,
>)
    ensures
        match r {
            Some(i) => i < input@.len() && spec_first_match(input.deep_view(), name@, short_code@)
                == Some(i as int),
            None => spec_first_match(input.deep_view(), name@, short_code@) is None,
        },
{
    let ghost iv = input.deep_view();
    let n = input.len();
    let mut i: usize = 0;
    while i < n && !token_matches(input[i], name, short_code)
        invariant
            i <= n,
            n == input@.len(),
            iv == input.deep_view(),
            spec_first_match(iv, name@, short_code@) == spec_first_match_from(
                iv,
                name@,
                short_code@,
                i as int,
            ),
        decreases n - i,
    {
        proof {
            assert(iv[i as int] == input@[i as int]@);
        }
        i = i + 1;
    }
    if i < n {
        proof {
            assert(iv[i as int] == input@[i as int]@);
        }
        Some(i)
    } else {
        None
    }
}

/// A named flag paired with a positional value strategy. Evaluation scans
/// the whole input for the first token equal to `--name` or `-short_code`,
/// then hands the tokens after that position to the strategy; the flag
/// token's own index is prepended to the strategy's (rebased) span.
#[derive(Debug, Clone, PartialEq)]
pub struct FlagWithValue<V> {
    pub name: String,
    pub short_code: String,
    pub description: String,
    pub value: V,
}

impl<V> IsFlag for FlagWithValue<V> {

}

impl<V> FlagWithValue<V> {
    /// A flag evaluator for `--name` / `-short_code` whose value is read by
    /// `value`.
    pub fn new(name: &str, short_code: &str, description: &str, value: V) -> (r: Self)
        ensures
            r.name@ == name@,
            r.short_code@ == short_code@,
            r.description@ == description@,
            r.value == value,
    {
        Self {
            name: name.to_owned(),
            short_code: short_code.to_owned(),
            description: description.to_owned(),
            value,
        }
    }
}

impl<'a, V, B> Evaluatable<&'a [&'a str], B> for FlagWithValue<V> where
    B: DeepView,
    V: PositionalArgumentValue<&'a [&'a str], B>,
 {
    /// With no matching flag token, fails with `FlagEvaluation(name)`. With
    /// the first match at position `idx`, evaluates the strategy on the
    /// tokens after `idx`: a strategy failure is reported as
    /// `FlagEvaluation(name)` too, and a strategy success keeps its value,
    /// with the span `{idx}` followed by the strategy's span rebased by
    /// `idx + 1`.
    open spec fn spec_eval(&self, input: Seq<Seq<char>>) -> SpecEvalResult<B::V> {
        match spec_first_match(input, self.name@, self.short_code@) {
            Some(idx) => match self.value.spec_eval(input.skip(idx + 1)) {
                Ok((span, v)) => Ok(
                    (
                        seq![idx as usize] + spec_offset_indices(span, idx + 1),
                        v,
                    ),
                ),
                Err(_) => Err(SpecCliError::FlagEvaluation(self.name@)),
            },
            None => Err(SpecCliError::FlagEvaluation(self.name@)),
        }
    }

    fn evaluate(&self, input: &'a [&'a str]) -> (r: EvaluateResult<B>) {
        let n = input.len();
        match find_first_flag(input, self.name.as_str(), self.short_code.as_str()) {
            Some(i) => match self.value.evaluate_at(input, i + 1) {
                Ok(val) => {
                    proof {
                        assert(forall|k: int|
                            0 <= k < val.span@.len() ==> #[trigger] val.span@[k] + (i + 1)
                                <= usize::MAX);
                    }
                    let rebased = val.from_offset(i + 1);
                    let joined = Span::from_range(i..i + 1).join(rebased.span);
                    proof {
                        assert(spec_range_indices(i as int, i + 1 as int) =~= seq![i as usize]);
                    }
                    Ok(Value::new(joined, rebased.value))
                },
                Err(_) => Err(CliError::FlagEvaluation(self.name.clone())),
            },
            None => Err(CliError::FlagEvaluation(self.name.clone())),
        }
    }
}

impl<'a, V, B> PositionalArgumentValue<&'a [&'a str], B> for FlagWithValue<V> where
    B: DeepView,
    V: PositionalArgumentValue<&'a [&'a str], B>,
 {
    fn evaluate_at(&self, input: &'a [&'a str], pos: usize) -> (r: EvaluateResult<B>) {
        self.evaluate(tail_from(input, pos))
    }
}


/// Consumes one token parsed as a `u8` in decimal.
#[derive(Debug, Clone, Copy, PartialEq)]
pub struct U8Value;

impl<'a> Evaluatable<&'a [&'a str], u8> for U8Value {
    /// Succeeds with span `{0}` when the first token is an unsigned
    /// decimal within the type's range; fails with `ValueEvaluation`
    /// otherwise, and on an empty input.
    open spec fn spec_eval(&self, input: Seq<Seq<char>>) -> SpecEvalResult<u8> {
        if input.len() > 0 {
            match spec_parse_uint(input[0]) {
                Some(v) => if v <= u8::MAX {
                    Ok((spec_range_indices(0, 1), v as u8))
                } else {
                    Err(SpecCliError::ValueEvaluation)
                },
                None => Err(SpecCliError::ValueEvaluation),
            }
        } else {
            Err(SpecCliError::ValueEvaluation)
        }
    }

    fn evaluate(&self, input: &'a [&'a str]) -> (r: EvaluateResult<u8>) {
        if input.len() > 0 {
            proof {
                assert(input.deep_view()[0] == input@[0]@);
            }
            match parse_unsigned_token(input[0], 255u64) {
                Some(v) => Ok(Value::new(Span::from_range(0..1usize), v as u8)),
                None => Err(CliError::ValueEvaluation),
            }
        } else {
            Err(CliError::ValueEvaluation)
        }
    }
}

impl<'a> PositionalArgumentValue<&'a [&'a str], u8> for U8Value {
    fn evaluate_at(&self, input: &'a [&'a str], pos: usize) -> (r: EvaluateResult<u8>) {
        self.evaluate(tail_from(input, pos))
    }
}

impl<'a> TerminalEvaluatable<&'a [&'a str], u8> for U8Value {

}

/// Consumes one token parsed as a `u16` in decimal.
#[derive(Debug, Clone, Copy, PartialEq)]
pub struct U16Value;

impl<'a> Evaluatable<&'a [&'a str], u16> for U16Value {
    /// Succeeds with span `{0}` when the first token is an unsigned
    /// decimal within the type's range; fails with `ValueEvaluation`
    /// otherwise, and on an empty input.
    open spec fn spec_eval(&self, input: Seq<Seq<char>>) -> SpecEvalResult<u16> {
        if input.len() > 0 {
            match spec_parse_uint(input[0]) {
                Some(v) => if v <= u16::MAX {
                    Ok((spec_range_indices(0, 1), v as u16))
                } else {
                    Err(SpecCliError::ValueEvaluation)
                },
                None => Err(SpecCliError::ValueEvaluation),
            }
        } else {
            Err(SpecCliError::ValueEvaluation)
        }
    }

    fn evaluate(&self, input: &'a [&'a str]) -> (r: EvaluateResult<u16>) {
        if input.len() > 0 {
            proof {
                assert(input.deep_view()[0] == input@[0]@);
            }
            match parse_unsigned_token(input[0], 65535u64) {
                Some(v) => Ok(Value::new(Span::from_range(0..1usize), v as u16)),
                None => Err(CliError::ValueEvaluation),
            }
        } else {
            Err(CliError::ValueEvaluation)
        }
    }
}

impl<'a> PositionalArgumentValue<&'a [&'a str], u16> for U16Value {
    fn evaluate_at(&self, input: &'a [&'a str], pos: usize) -> (r: EvaluateResult<u16>) {
        self.evaluate(tail_from(input, pos))
    }
}

impl<'a> TerminalEvaluatable<&'a [&'a str], u16> for U16Value {

}

/// Consumes one token parsed as a `u32` in decimal.
#[derive(Debug, Clone, Copy, PartialEq)]
pub struct U32Value;

impl<'a> Evaluatable<&'a [&'a str], u32> for U32Value {
    /// Succeeds with span `{0}` when the first token is an unsigned
    /// decimal within the type's range; fails with `ValueEvaluation`
    /// otherwise, and on an empty input.
    open spec fn spec_eval(&self, input: Seq<Seq<char>>) -> SpecEvalResult<u32> {
        if input.len() > 0 {
            match spec_parse_uint(input[0]) {
                Some(v) => if v <= u32::MAX {
                    Ok((spec_range_indices(0, 1), v as u32))
                } else {
                    Err(SpecCliError::ValueEvaluation)
                },
                None => Err(SpecCliError::ValueEvaluation),
            }
        } else {
            Err(SpecCliError::ValueEvaluation)
        }
    }

    fn evaluate(&self, input: &'a [&'a str]) -> (r: EvaluateResult<u32>) {
        if input.len() > 0 {
            proof {
                assert(input.deep_view()[0] == input@[0]@);
            }
            match parse_unsigned_token(input[0], 4294967295u64) {
                Some(v) => Ok(Value::new(Span::from_range(0..1usize), v as u32)),
                None => Err(CliError::ValueEvaluation),
            }
        } else {
            Err(CliError::ValueEvaluation)
        }
    }
}

impl<'a> PositionalArgumentValue<&'a [&'a str], u32> for U32Value {
    fn evaluate_at(&self, input: &'a [&'a str], pos: usize) -> (r: EvaluateResult<u32>) {
        self.evaluate(tail_from(input, pos))
    }
}

impl<'a> TerminalEvaluatable<&'a [&'a str], u32> for U32Value {

}

/// Consumes one token parsed as a `u64` in decimal.
#[derive(Debug, Clone, Copy, PartialEq)]
pub struct U64Value;

impl<'a> Evaluatable<&'a [&'a str], u64> for U64Value {
    /// Succeeds with span `{0}` when the first token is an unsigned
    /// decimal within the type's range; fails with `ValueEvaluation`
    /// otherwise, and on an empty input.
    open spec fn spec_eval(&self, input: Seq<Seq<char>>) -> SpecEvalResult<u64> {
        if input.len() > 0 {
            match spec_parse_uint(input[0]) {
                Some(v) => if v <= u64::MAX {
                    Ok((spec_range_indices(0, 1), v as u64))
                } else {
                    Err(SpecCliError::ValueEvaluation)
                },
                None => Err(SpecCliError::ValueEvaluation),
            }
        } else {
            Err(SpecCliError::ValueEvaluation)
        }
    }

    fn evaluate(&self, input: &'a [&'a str]) -> (r: EvaluateResult<u64>) {
        if input.len() > 0 {
            proof {
                assert(input.deep_view()[0] == input@[0]@);
            }
            match parse_unsigned_token(input[0], 18446744073709551615u64) {
                Some(v) => Ok(Value::new(Span::from_range(0..1usize), v as u64)),
                None => Err(CliError::ValueEvaluation),
            }
        } else {
            Err(CliError::ValueEvaluation)
        }
    }
}

impl<'a> PositionalArgumentValue<&'a [&'a str], u64> for U64Value {
    fn evaluate_at(&self, input: &'a [&'a str], pos: usize) -> (r: EvaluateResult<u64>) {
        self.evaluate(tail_from(input, pos))
    }
}

impl<'a> TerminalEvaluatable<&'a [&'a str], u64> for U64Value {

}

/// Consumes one token parsed as an `i8` in decimal.
#[derive(Debug, Clone, Copy, PartialEq)]
pub struct I8Value;

impl<'a> Evaluatable<&'a [&'a str], i8> for I8Value {
    /// Succeeds with span `{0}` when the first token is a signed decimal
    /// within the type's range; fails with `ValueEvaluation` otherwise, and
    /// on an empty input.
    open spec fn spec_eval(&self, input: Seq<Seq<char>>) -> SpecEvalResult<i8> {
        if input.len() > 0 {
            match spec_parse_sint(input[0]) {
                Some(v) => if i8::MIN <= v <= i8::MAX {
                    Ok((spec_range_indices(0, 1), v as i8))
                } else {
                    Err(SpecCliError::ValueEvaluation)
                },
                None => Err(SpecCliError::ValueEvaluation),
            }
        } else {
            Err(SpecCliError::ValueEvaluation)
        }
    }

    fn evaluate(&self, input: &'a [&'a str]) -> (r: EvaluateResult<i8>) {
        if input.len() > 0 {
            proof {
                assert(input.deep_view()[0] == input@[0]@);
            }
            match parse_signed_token(input[0], 128u64, 127u64) {
                Some(v) => Ok(Value::new(Span::from_range(0..1usize), v as i8)),
                None => Err(CliError::ValueEvaluation),
            }
        } else {
            Err(CliError::ValueEvaluation)
        }
    }
}

impl<'a> PositionalArgumentValue<&'a [&'a str], i8> for I8Value {
    fn evaluate_at(&self, input: &'a [&'a str], pos: usize) -> (r: EvaluateResult<i8>) {
        self.evaluate(tail_from(input, pos))
    }
}

impl<'a> TerminalEvaluatable<&'a [&'a str], i8> for I8Value {

}

/// Consumes one token parsed as an `i16` in decimal.
#[derive(Debug, Clone, Copy, PartialEq)]
pub struct I16Value;

impl<'a> Evaluatable<&'a [&'a str], i16> for I16Value {
    /// Succeeds with span `{0}` when the first token is a signed decimal
    /// within the type's range; fails with `ValueEvaluation` otherwise, and
    /// on an empty input.
    open spec fn spec_eval(&self, input: Seq<Seq<char>>) -> SpecEvalResult<i16> {
        if input.len() > 0 {
            match spec_parse_sint(input[0]) {
                Some(v) => if i16::MIN <= v <= i16::MAX {
                    Ok((spec_range_indices(0, 1), v as i16))
                } else {
                    Err(SpecCliError::ValueEvaluation)
                },
                None => Err(SpecCliError::ValueEvaluation),
            }
        } else {
            Err(SpecCliError::ValueEvaluation)
        }
    }

    fn evaluate(&self, input: &'a [&'a str]) -> (r: EvaluateResult<i16>) {
        if input.len() > 0 {
            proof {
                assert(input.deep_view()[0] == input@[0]@);
            }
            match parse_signed_token(input[0], 32768u64, 32767u64) {
                Some(v) => Ok(Value::new(Span::from_range(0..1usize), v as i16)),
                None => Err(CliError::ValueEvaluation),
            }
        } else {
            Err(CliError::ValueEvaluation)
        }
    }
}

impl<'a> PositionalArgumentValue<&'a [&'a str], i16> for I16Value {
    fn evaluate_at(&self, input: &'a [&'a str], pos: usize) -> (r: EvaluateResult<i16>) {
        self.evaluate(tail_from(input, pos))
    }
}

impl<'a> TerminalEvaluatable<&'a [&'a str], i16> for I16Value {

}

/// Consumes one token parsed as an `i32` in decimal.
#[derive(Debug, Clone, Copy, PartialEq)]
pub struct I32Value;

impl<'a> Evaluatable<&'a [&'a str], i32> for I32Value {
    /// Succeeds with span `{0}` when the first token is a signed decimal
    /// within the type's range; fails with `ValueEvaluation` otherwise, and
    /// on an empty input.
    open spec fn spec_eval(&self, input: Seq<Seq<char>>) -> SpecEvalResult<i32> {
        if input.len() > 0 {
            match spec_parse_sint(input[0]) {
                Some(v) => if i32::MIN <= v <= i32::MAX {
                    Ok((spec_range_indices(0, 1), v as i32))
                } else {
                    Err(SpecCliError::ValueEvaluation)
                },
                None => Err(SpecCliError::ValueEvaluation),
            }
        } else {
            Err(SpecCliError::ValueEvaluation)
        }
    }

    fn evaluate(&self, input: &'a [&'a str]) -> (r: EvaluateResult<i32>) {
        if input.len() > 0 {
            proof {
                assert(input.deep_view()[0] == input@[0]@);
            }
            match parse_signed_token(input[0], 2147483648u64, 2147483647u64) {
                Some(v) => Ok(Value::new(Span::from_range(0..1usize), v as i32)),
                None => Err(CliError::ValueEvaluation),
            }
        } else {
            Err(CliError::ValueEvaluation)
        }
    }
}

impl<'a> PositionalArgumentValue<&'a [&'a str], i32> for I32Value {
    fn evaluate_at(&self, input: &'a [&'a str], pos: usize) -> (r: EvaluateResult<i32>) {
        self.evaluate(tail_from(input, pos))
    }
}

impl<'a> TerminalEvaluatable<&'a [&'a str], i32> for I32Value {

}

/// Consumes one token parsed as an `i64` in decimal.
#[derive(Debug, Clone, Copy, PartialEq)]
pub struct I64Value;

impl<'a> Evaluatable<&'a [&'a str], i64> for I64Value {
    /// Succeeds with span `{0}` when the first token is a signed decimal
    /// within the type's range; fails with `ValueEvaluation` otherwise, and
    /// on an empty input.
    open spec fn spec_eval(&self, input: Seq<Seq<char>>) -> SpecEvalResult<i64> {
        if input.len() > 0 {
            match spec_parse_sint(input[0]) {
                Some(v) => if i64::MIN <= v <= i64::MAX {
                    Ok((spec_range_indices(0, 1), v as i64))
                } else {
                    Err(SpecCliError::ValueEvaluation)
                },
                None => Err(SpecCliError::ValueEvaluation),
            }
        } else {
            Err(SpecCliError::ValueEvaluation)
        }
    }

    fn evaluate(&self, input: &'a [&'a str]) -> (r: EvaluateResult<i64>) {
        if input.len() > 0 {
            proof {
                assert(input.deep_view()[0] == input@[0]@);
            }
            match parse_signed_token(input[0], 9223372036854775808u64, 9223372036854775807u64) {
                Some(v) => Ok(Value::new(Span::from_range(0..1usize), v as i64)),
                None => Err(CliError::ValueEvaluation),
            }
        } else {
            Err(CliError::ValueEvaluation)
        }
    }
}

impl<'a> PositionalArgumentValue<&'a [&'a str], i64> for I64Value {
    fn evaluate_at(&self, input: &'a [&'a str], pos: usize) -> (r: EvaluateResult<i64>) {
        self.evaluate(tail_from(input, pos))
    }
}

impl<'a> TerminalEvaluatable<&'a [&'a str], i64> for I64Value {

}

} // verus!
