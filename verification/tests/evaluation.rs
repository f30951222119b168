use scrap::Defaultable;
use scrap::Evaluatable;
use scrap::CliError;
use scrap::Flag;
use scrap::FlagWithValue;
use scrap::I32Value;
use scrap::Join;
use scrap::Optional;
use scrap::Span;
use scrap::StringValue;
use scrap::Value;
use scrap::ValueOnMatch;
use scrap::WithChoices;
use scrap::WithDefault;

#[test]
fn join_of_two_string_flags_consumes_all_tokens() {
    let input = ["prog", "-n", "foo", "-l", "info"];
    assert_eq!(
        Ok(Value::new(
            Span::from_range(1..5),
            ("foo".to_string(), "info".to_string())
        )),
        Join::new(
            FlagWithValue::new("name", "n", "A name.", StringValue),
            FlagWithValue::new("log-level", "l", "A log level.", StringValue),
        )
        .evaluate(&input[..])
    );
}

#[test]
fn boolean_toggle_consumes_only_the_flag_token() {
    let input = ["prog", "--debug"];
    assert_eq!(
        Ok(Value::new(Span::from_range(1..2), true)),
        Flag::store_true("debug", "d", "Run in debug mode.").evaluate(&input[..])
    );
}

#[test]
fn store_false_yields_false_on_match() {
    let input = ["prog", "-n"];
    assert_eq!(
        Ok(Value::new(Span::from_range(1..2), false)),
        Flag::store_false("no-wait", "n", "don't wait for a response.").evaluate(&input[..])
    );
}

#[test]
fn defaulted_flag_yields_default_with_empty_span() {
    let input = ["prog"];
    assert_eq!(
        Ok(Value::new(Span::empty(), "foo".to_string())),
        WithDefault::new(
            "foo",
            Optional::new(FlagWithValue::new("name", "n", "A name.", StringValue))
        )
        .evaluate(&input[..])
    );
}

#[test]
fn choice_outside_allowed_set_is_rejected() {
    let input = ["prog", "-l", "trace"];
    assert_eq!(
        Err(CliError::ValueEvaluation),
        WithChoices::new(
            ["info".to_string(), "warn".to_string()],
            FlagWithValue::new("log-level", "l", "A log level.", StringValue),
        )
        .evaluate(&input[..])
    );
}

#[test]
fn choice_inside_allowed_set_passes_through() {
    let input = ["prog", "-l", "info"];
    assert_eq!(
        Ok(Value::new(Span::from_range(1..3), "info".to_string())),
        Flag::with_choices(
            "log-level",
            "l",
            "A log level.",
            ["info".to_string(), "warn".to_string()],
            StringValue,
        )
        .evaluate(&input[..])
    );
}

#[test]
fn i32_value_rejects_an_unparseable_token() {
    let input = ["prog", "-t", "not-a-number"];
    assert_eq!(Err(CliError::ValueEvaluation), I32Value.evaluate(&input[..]));
}

#[test]
fn numeric_flag_reports_the_flag_when_its_value_fails() {
    let input = ["prog", "-t", "not-a-number"];
    assert_eq!(
        Err(CliError::FlagEvaluation("timeout".to_string())),
        Flag::expect_i32("timeout", "t", "A timeout.").evaluate(&input[..])
    );
}

#[test]
fn missing_flag_reports_flag_evaluation() {
    let input = ["prog", "--other", "x"];
    assert_eq!(
        Err(CliError::FlagEvaluation("name".to_string())),
        Flag::expect_string("name", "n", "A name.").evaluate(&input[..])
    );
}

#[test]
fn long_and_short_forms_match_identically() {
    let long_input = ["prog", "--name", "foo"];
    let short_input = ["prog", "-n", "foo"];
    let flag = Flag::expect_string("name", "n", "A name.");
    let expected = Ok(Value::new(Span::from_range(1..3), "foo".to_string()));
    assert_eq!(expected, flag.evaluate(&long_input[..]));
    assert_eq!(expected, flag.evaluate(&short_input[..]));
}

#[test]
fn flag_scan_passes_over_unrelated_tokens() {
    let input = ["prog", "alpha", "beta", "--name", "foo"];
    assert_eq!(
        Ok(Value::new(Span::from_range(3..5), "foo".to_string())),
        Flag::expect_string("name", "n", "A name.").evaluate(&input[..])
    );
}

#[test]
fn only_the_first_occurrence_of_a_flag_is_used() {
    let input = ["prog", "-n", "first", "-n", "second"];
    assert_eq!(
        Ok(Value::new(Span::from_range(1..3), "first".to_string())),
        Flag::expect_string("name", "n", "A name.").evaluate(&input[..])
    );
}

#[test]
fn flag_token_order_does_not_change_the_joined_values() {
    let joined = Join::new(
        Flag::expect_string("name", "n", "A name."),
        Flag::expect_string("log-level", "l", "A log level."),
    );
    let first_order = ["-n", "foo", "-l", "info"];
    let second_order = ["-l", "info", "-n", "foo"];
    let first = joined.evaluate(&first_order[..]).unwrap();
    let second = joined.evaluate(&second_order[..]).unwrap();
    assert_eq!(("foo".to_string(), "info".to_string()), first.value);
    assert_eq!(first.value, second.value);
}

#[test]
fn optional_swallows_the_error_of_a_missing_flag() {
    let input = ["prog", "-n", "foo"];
    assert_eq!(
        Ok(Value::new(Span::from_range(1..3), Some("foo".to_string()))),
        Optional::new(FlagWithValue::new("name", "n", "A name.", StringValue)).evaluate(
            &input[..]
        )
    );
    assert_eq!(
        Ok(Value::new(Span::empty(), None)),
        Optional::new(FlagWithValue::new("log-level", "l", "A log level.", StringValue)).evaluate(
            &input[..]
        )
    );
}

#[test]
fn flag_without_following_value_fails() {
    let input = ["prog", "-n"];
    assert_eq!(
        Err(CliError::FlagEvaluation("name".to_string())),
        Flag::expect_string("name", "n", "A name.").evaluate(&input[..])
    );
}

#[test]
fn value_on_match_keeps_its_fixed_value() {
    let input = ["prog", "--no-wait"];
    assert_eq!(
        Ok(Value::new(Span::from_range(1..2), false)),
        FlagWithValue::new("no-wait", "n", "don't wait.", ValueOnMatch::new(false)).evaluate(
            &input[..]
        )
    );
}

#[test]
fn numeric_bounds_are_enforced_per_type() {
    let over = ["-t", "128"];
    let under = ["-t", "-129"];
    let fits = ["-t", "-128"];
    assert_eq!(
        Err(CliError::FlagEvaluation("timeout".to_string())),
        Flag::expect_i8("timeout", "t", "A timeout.").evaluate(&over[..])
    );
    assert_eq!(
        Err(CliError::FlagEvaluation("timeout".to_string())),
        Flag::expect_i8("timeout", "t", "A timeout.").evaluate(&under[..])
    );
    assert_eq!(
        Ok(Value::new(Span::from_range(0..2), -128i8)),
        Flag::expect_i8("timeout", "t", "A timeout.").evaluate(&fits[..])
    );
}

#[test]
fn unsigned_parse_accepts_plus_and_rejects_minus() {
    let plus = ["-c", "+42"];
    let minus = ["-c", "-0"];
    assert_eq!(
        Ok(Value::new(Span::from_range(0..2), 42u64)),
        Flag::expect_u64("count", "c", "A count.").evaluate(&plus[..])
    );
    assert_eq!(
        Err(CliError::FlagEvaluation("count".to_string())),
        Flag::expect_u64("count", "c", "A count.").evaluate(&minus[..])
    );
}

#[test]
fn signed_parse_handles_extreme_magnitudes() {
    let min = ["-t", "-9223372036854775808"];
    let max = ["-t", "9223372036854775807"];
    let too_big = ["-t", "9223372036854775808"];
    let huge = ["-t", "99999999999999999999999999"];
    let f = Flag::expect_i64("timeout", "t", "A timeout.");
    assert_eq!(
        Ok(Value::new(Span::from_range(0..2), i64::MIN)),
        f.evaluate(&min[..])
    );
    assert_eq!(
        Ok(Value::new(Span::from_range(0..2), i64::MAX)),
        f.evaluate(&max[..])
    );
    assert_eq!(
        Err(CliError::FlagEvaluation("timeout".to_string())),
        f.evaluate(&too_big[..])
    );
    assert_eq!(
        Err(CliError::FlagEvaluation("timeout".to_string())),
        f.evaluate(&huge[..])
    );
}

#[test]
fn u8_and_u16_and_u32_parse_within_range() {
    assert_eq!(
        Ok(Value::new(Span::from_range(0..2), 255u8)),
        Flag::expect_u8("v", "v", "A value.").evaluate(&["-v", "255"][..])
    );
    assert_eq!(
        Err(CliError::FlagEvaluation("v".to_string())),
        Flag::expect_u8("v", "v", "A value.").evaluate(&["-v", "256"][..])
    );
    assert_eq!(
        Ok(Value::new(Span::from_range(0..2), 65535u16)),
        Flag::expect_u16("v", "v", "A value.").evaluate(&["-v", "65535"][..])
    );
    assert_eq!(
        Ok(Value::new(Span::from_range(0..2), 4294967295u32)),
        Flag::expect_u32("v", "v", "A value.").evaluate(&["-v", "4294967295"][..])
    );
    assert_eq!(
        Ok(Value::new(Span::from_range(0..2), 32767i16)),
        Flag::expect_i16("v", "v", "A value.").evaluate(&["-v", "32767"][..])
    );
    assert_eq!(
        Ok(Value::new(Span::from_range(0..2), -2147483648i32)),
        Flag::expect_i32("v", "v", "A value.").evaluate(&["-v", "-2147483648"][..])
    );
}

#[test]
fn leading_zeroes_and_empty_digits_behave_like_the_decimal_grammar() {
    let zeroes = ["-v", "007"];
    let bare_sign = ["-v", "+"];
    let empty = ["-v", ""];
    assert_eq!(
        Ok(Value::new(Span::from_range(0..2), 7u32)),
        Flag::expect_u32("v", "v", "A value.").evaluate(&zeroes[..])
    );
    assert_eq!(
        Err(CliError::FlagEvaluation("v".to_string())),
        Flag::expect_u32("v", "v", "A value.").evaluate(&bare_sign[..])
    );
    assert_eq!(
        Err(CliError::FlagEvaluation("v".to_string())),
        Flag::expect_u32("v", "v", "A value.").evaluate(&empty[..])
    );
}

#[test]
fn defaulted_value_bypasses_choice_validation() {
    let input = ["prog", "--log-level", "info"];
    assert_eq!(
        Ok(Value::new(Span::empty(), "debug".to_string())),
        WithDefault::new(
            "debug".to_string(),
            Optional::new(WithChoices::new(
                ["error".to_string()],
                FlagWithValue::new("log-level", "l", "A log level.", StringValue)
            ))
        )
        .evaluate(&input[..])
    );
}

#[test]
fn error_messages_render_each_variant() {
    assert_eq!("ambiguous command".to_string(), CliError::AmbiguousCommand.message());
    assert_eq!("value missmatch".to_string(), CliError::ValueEvaluation.message());
    assert_eq!(
        "unable to evaluate flag: name".to_string(),
        CliError::FlagEvaluation("name".to_string()).message()
    );
}
