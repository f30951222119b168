//! Convenient constructors for the common flag evaluators.

use vstd::prelude::*;

use crate::combine::WithChoices;
use crate::eval::IsFlag;
use crate::terminal::FlagWithValue;
use crate::terminal::I16Value;
use crate::terminal::I32Value;
use crate::terminal::I64Value;
use crate::terminal::I8Value;
use crate::terminal::StringValue;
use crate::terminal::U16Value;
use crate::terminal::U32Value;
use crate::terminal::U64Value;
use crate::terminal::U8Value;
use crate::terminal::ValueOnMatch;

verus! {

/// A constructor type gathering helpers that build the common flag
/// evaluators. It is only meant for these static calls.
pub struct Flag;

impl IsFlag for Flag {

}

impl Flag {
    /// A flag expecting one string value.
    pub fn expect_string(name: &str, short_code: &str, description: &str) -> (r: FlagWithValue<
        StringValue,
    >)
        ensures
            r.name@ == name@,
            r.short_code@ == short_code@,
            r.description@ == description@,
            r.value == StringValue,
    {
        FlagWithValue::new(name, short_code, description, StringValue)
    }

    /// A boolean toggle yielding `true` when present.
    pub fn store_true(name: &str, short_code: &str, description: &str) -> (r: FlagWithValue<
        ValueOnMatch<bool>,
    >)
        ensures
            r.name@ == name@,
            r.short_code@ == short_code@,
            r.description@ == description@,
            r.value.value == true,
    {
        FlagWithValue::new(name, short_code, description, ValueOnMatch::new(true))
    }

    /// A boolean toggle yielding `false` when present.
    pub fn store_false(name: &str, short_code: &str, description: &str) -> (r: FlagWithValue<
        ValueOnMatch<bool>,
    >)
        ensures
            r.name@ == name@,
            r.short_code@ == short_code@,
            r.description@ == description@,
            r.value.value == false,
    {
        FlagWithValue::new(name, short_code, description, ValueOnMatch::new(false))
    }

    /// A flag expecting one `i8` value.
    pub fn expect_i8(name: &str, short_code: &str, description: &str) -> (r: FlagWithValue<
        I8Value,
    >)
        ensures
            r.name@ == name@,
            r.short_code@ == short_code@,
            r.description@ == description@,
            r.value == I8Value,
    {
        FlagWithValue::new(name, short_code, description, I8Value)
    }

    /// A flag expecting one `i16` value.
    pub fn expect_i16(name: &str, short_code: &str, description: &str) -> (r: FlagWithValue<
        I16Value,
    >)
        ensures
            r.name@ == name@,
            r.short_code@ == short_code@,
            r.description@ == description@,
            r.value == I16Value,
    {
        FlagWithValue::new(name, short_code, description, I16Value)
    }

    /// A flag expecting one `i32` value.
    pub fn expect_i32(name: &str, short_code: &str, description: &str) -> (r: FlagWithValue<
        I32Value,
    >)
        ensures
            r.name@ == name@,
            r.short_code@ == short_code@,
            r.description@ == description@,
            r.value == I32Value,
    {
        FlagWithValue::new(name, short_code, description, I32Value)
    }

    /// A flag expecting one `i64` value.
    pub fn expect_i64(name: &str, short_code: &str, description: &str) -> (r: FlagWithValue<
        I64Value,
    >)
        ensures
            r.name@ == name@,
            r.short_code@ == short_code@,
            r.description@ == description@,
            r.value == I64Value,
    {
        FlagWithValue::new(name, short_code, description, I64Value)
    }

    /// A flag expecting one `u8` value.
    pub fn expect_u8(name: &str, short_code: &str, description: &str) -> (r: FlagWithValue<
        U8Value,
    >)
        ensures
            r.name@ == name@,
            r.short_code@ == short_code@,
            r.description@ == description@,
            r.value == U8Value,
    {
        FlagWithValue::new(name, short_code, description, U8Value)
    }

    /// A flag expecting one `u16` value.
    pub fn expect_u16(name: &str, short_code: &str, description: &str) -> (r: FlagWithValue<
        U16Value,
    >)
        ensures
            r.name@ == name@,
            r.short_code@ == short_code@,
            r.description@ == description@,
            r.value == U16Value,
    {
        FlagWithValue::new(name, short_code, description, U16Value)
    }

    /// A flag expecting one `u32` value.
    pub fn expect_u32(name: &str, short_code: &str, description: &str) -> (r: FlagWithValue<
        U32Value,
    >)
        ensures
            r.name@ == name@,
            r.short_code@ == short_code@,
            r.description@ == description@,
            r.value == U32Value,
    {
        FlagWithValue::new(name, short_code, description, U32Value)
    }

    /// A flag expecting one `u64` value.
    pub fn expect_u64(name: &str, short_code: &str, description: &str) -> (r: FlagWithValue<
        U64Value,
    >)
        ensures
            r.name@ == name@,
            r.short_code@ == short_code@,
            r.description@ == description@,
            r.value == U64Value,
    {
        FlagWithValue::new(name, short_code, description, U64Value)
    }

    /// A flag whose produced value must come from a fixed set of choices.
    pub fn with_choices<B, E, const N: usize>(
        name: &str,
        short_code: &str,
        description: &str,
        choices: [B; N],
        evaluator: E,
    ) -> (r: WithChoices<B, FlagWithValue<E>, N>)
        ensures
            r.choices == choices,
            r.evaluator.name@ == name@,
            r.evaluator.short_code@ == short_code@,
            r.evaluator.description@ == description@,
            r.evaluator.value == evaluator,
    {
        WithChoices::new(choices, FlagWithValue::new(name, short_code, description, evaluator))
    }
}

} // verus!
