use scrap::typed::Cmd;
use scrap::typed::Defaultable;
use scrap::typed::Evaluator;
use scrap::typed::ExpectStringValue;
use scrap::typed::Flag;
use scrap::typed::Helpable;
use scrap::typed::Join;
use scrap::typed::Optional;
use scrap::typed::WithDefault;

#[test]
fn cmd_should_type_validate_handler() {
    assert_eq!(
        Ok(("foo".to_string(), "info".to_string())),
        Cmd::new("test")
            .description("a test cmd")
            .with_flags(
                Flag::expect_string("name", "n", "A name.")
                    .optional()
                    .with_default("foo".to_string())
                    .join(Flag::expect_string(
                        "log-level",
                        "l",
                        "A given log level setting.",
                    )),
            )
            .with_handler(|(l, r)| {
                println!("(Left: {}, Right: {})", &l, &r);
            })
            .evaluate(&["test", "-l", "info"][..])
    )
}

#[test]
fn should_evaluate_command_with_valid_sub_flags() {
    assert_eq!(
        Ok("foo".to_string()),
        Cmd::new("test")
            .description("a test cmd")
            .with_flags(
                Flag::expect_string("name", "n", "A name.")
                    .optional()
                    .with_default("foo".to_string())
            )
            .evaluate(&["test"][..])
    );

    assert_eq!(
        Ok(("foo".to_string(), "info".to_string())),
        Cmd::new("test")
            .description("a test cmd")
            .with_flags(
                Flag::expect_string("name", "n", "A name.")
                    .optional()
                    .with_default("foo".to_string())
                    .join(Flag::expect_string(
                        "log-level",
                        "l",
                        "A given log level setting."
                    ))
            )
            .evaluate(&["test", "-l", "info"][..])
    );
}

#[test]
fn typed_should_generate_expected_helpstring_for_given_command() {
    assert_eq!(
        "test:\na test cmd\n--name, -n\tA name.\t[(optional), (default: \"foo\")]".to_string(),
        Cmd::new("test")
            .description("a test cmd")
            .with_flags(WithDefault::<String, _>::new(
                "foo",
                Optional::new(ExpectStringValue::new("name", "n", "A name.")),
            ),)
            .help()
            .to_string()
    )
}

#[test]
fn should_find_valid_string_flag() {
    let input_long = vec!["hello", "--name", "foo"];
    let input_short = vec!["hello", "-n", "foo"];

    assert_eq!(
        Ok("foo".to_string()),
        ExpectStringValue::new("name", "n", "A name.").evaluate(&input_long[..])
    );

    assert_eq!(
        Ok("foo".to_string()),
        ExpectStringValue::new("name", "n", "A name.").evaluate(&input_short[..])
    );
}

#[test]
fn typed_should_generate_expected_helpstring_for_given_string_check() {
    assert_eq!(
        "--name, -n\tA name.".to_string(),
        ExpectStringValue::new("name", "n", "A name.").help().render()
    )
}

#[test]
fn should_find_joined_evaluators() {
    let input = vec!["hello", "-n", "foo", "-l", "info"];
    assert_eq!(
        Ok(("foo".to_string(), "info".to_string())),
        Join::new(
            ExpectStringValue::new("name", "n", "A name."),
            ExpectStringValue::new("log-level", "l", "A given log level setting."),
        )
        .evaluate(&input[..])
    );

    assert_eq!(
        Ok(("foo".to_string(), "info".to_string())),
        Flag::expect_string("name", "n", "A name.")
            .join(ExpectStringValue::new(
                "log-level",
                "l",
                "A given log level setting."
            ))
            .evaluate(&input[..])
    );
}

#[test]
fn should_optionally_match_a_value() {
    let input = vec!["hello", "-n", "foo"];

    assert_eq!(
        Ok(Some("foo".to_string())),
        Optional::new(ExpectStringValue::new("name", "n", "A name.")).evaluate(&input[..])
    );

    assert_eq!(
        Ok(Some("foo".to_string())),
        ExpectStringValue::new("name", "n", "A name.")
            .optional()
            .evaluate(&input[..])
    );

    assert_eq!(
        Ok(None),
        Optional::new(ExpectStringValue::new(
            "log-level",
            "l",
            "A given log level setting."
        ))
        .evaluate(&input[..])
    );
}

#[test]
fn typed_should_generate_expected_helpstring_for_optional_flag() {
    assert_eq!(
        "--log-level, -l\tA given log level setting.\t[(optional)]".to_string(),
        Optional::new(ExpectStringValue::new(
            "log-level",
            "l",
            "A given log level setting."
        ))
        .help()
        .render()
    )
}

#[test]
fn should_default_an_optional_match_when_assigned() {
    let input = vec!["hello", "--log-level", "info"];

    assert_eq!(
        Ok("foo".to_string()),
        WithDefault::new(
            "foo",
            Optional::new(ExpectStringValue::new("name", "n", "A name."))
        )
        .evaluate(&input[..])
    );

    assert_eq!(
        Ok("foo".to_string()),
        Flag::expect_string("name", "n", "A name.")
            .optional()
            .with_default("foo".to_string())
            .evaluate(&input[..])
    );
}

#[test]
fn typed_should_generate_expected_helpstring_for_optional_with_default_flag() {
    assert_eq!(
        "--name, -n\tA name.\t[(optional), (default: \"foo\")]".to_string(),
        WithDefault::<String, _>::new(
            "foo",
            Optional::new(ExpectStringValue::new("name", "n", "A name."))
        )
        .help()
        .render()
    )
}
