use scrap::Defaultable;
use scrap::Dispatchable;
use scrap::DispatchableWithArgs;
use scrap::DispatchableWithHelpString;
use scrap::Evaluatable;
use scrap::Helpable;
use scrap::return_unused_args;
use scrap::CliError;
use scrap::Cmd;
use scrap::CmdGroup;
use scrap::Either;
use scrap::Flag;
use scrap::FlagWithValue;
use scrap::OneOf;
use scrap::Span;
use scrap::StringValue;
use scrap::Value;

#[test]
fn cmd_should_dispatch_a_valid_handler() {
    let cmd = Cmd::new("test")
        .description("a test cmd")
        .with_flag(
            Flag::expect_string("name", "n", "A name.")
                .optional()
                .with_default("foo".to_string()),
        )
        .with_flag(
            Flag::store_true("debug", "d", "run command in debug mode.")
                .optional()
                .with_default(false),
        )
        .with_handler(|(n, debug)| {
            format!("(Left: {}, Right: {})", &n, debug);
        });

    assert_eq!(
        Ok(()),
        cmd.evaluate(&["test", "-l", "info"][..])
            .map(|flag_values| cmd.dispatch(flag_values))
    );
}

#[test]
fn cmd_requires_its_own_name_as_the_first_token() {
    let cmd = Cmd::new("test").with_flag(Flag::expect_string("name", "n", "A name."));
    assert_eq!(
        Ok(Value::new(Span::from_range(0..3), "foo".to_string())),
        cmd.evaluate(&["test", "-n", "foo"][..])
    );
    assert_eq!(
        Err(CliError::AmbiguousCommand),
        cmd.evaluate(&["other", "-n", "foo"][..])
    );
    assert_eq!(Err(CliError::AmbiguousCommand), cmd.evaluate(&[][..]));
}

#[test]
fn cmd_matches_on_the_file_name_component() {
    let cmd = Cmd::new("test").with_flag(Flag::expect_string("name", "n", "A name."));
    assert_eq!(
        Ok(Value::new(Span::from_range(0..3), "foo".to_string())),
        cmd.evaluate(&["/usr/local/bin/test", "-n", "foo"][..])
    );
    assert_eq!(
        Ok(Value::new(Span::from_range(0..3), "foo".to_string())),
        cmd.evaluate(&["./test", "-n", "foo"][..])
    );
}

#[test]
fn one_of_accepts_exactly_one_matching_command() {
    let left_cmd = Cmd::new("test_one")
        .description("first test cmd")
        .with_flag(
            Flag::expect_string("name", "n", "A name.")
                .optional()
                .with_default("foo".to_string()),
        )
        .with_handler(|name| {
            format!("name: {}", &name);
        });

    let right_cmd = Cmd::new("test_two")
        .description("a test cmd")
        .with_flag(
            Flag::store_true("debug", "d", "Run command in debug mode.")
                .optional()
                .with_default(false),
        )
        .with_handler(|debug| {
            format!("debug: {}", &debug);
        });

    assert_eq!(
        Ok(Value::new(
            Span::from_range(0..3),
            Either::Left("test".to_string())
        )),
        OneOf::new(left_cmd, right_cmd).evaluate(&["test_one", "-n", "test"][..])
    );
}

#[test]
fn one_of_rejects_input_that_matches_no_command() {
    let left_cmd = Cmd::new("one").with_flag(Flag::store_true("a", "a", "A."));
    let right_cmd = Cmd::new("two").with_flag(Flag::store_true("b", "b", "B."));
    assert_eq!(
        Err(CliError::AmbiguousCommand),
        OneOf::new(left_cmd, right_cmd).evaluate(&["three", "-a"][..])
    );
}

#[test]
fn cmd_group_evaluates_a_named_subcommand() {
    let left_cmd = Cmd::new("test_one")
        .description("first test cmd")
        .with_flag(
            Flag::expect_string("name", "n", "A name.")
                .optional()
                .with_default("foo".to_string()),
        )
        .with_handler(|name| {
            format!("name: {}", &name);
        });

    let right_cmd = Cmd::new("test_two")
        .description("a test cmd")
        .with_flag(
            Flag::store_true("debug", "d", "Run command in debug mode.")
                .optional()
                .with_default(false),
        )
        .with_handler(|debug| {
            format!("debug: {}", &debug);
        });

    let commands = OneOf::new(left_cmd, right_cmd);

    assert_eq!(
        Ok(Value::new(
            Span::from_range(0..4),
            Either::Left("test".to_string())
        )),
        CmdGroup::new("testgroup")
            .with_command(commands)
            .evaluate(&["testgroup", "test_one", "-n", "test"][..])
    );
}

#[test]
fn cmd_group_dispatches_through_its_alternatives() {
    let left_cmd = Cmd::new("add").with_flag(Flag::expect_string("name", "n", "A name."))
        .with_handler(|name: String| format!("added {}", name));
    let right_cmd = Cmd::new("drop").with_flag(Flag::expect_string("name", "n", "A name."))
        .with_handler(|name: String| format!("dropped {}", name));
    let group = CmdGroup::new("tool").with_command(OneOf::new(left_cmd, right_cmd));

    let evaluated = group.evaluate(&["tool", "drop", "-n", "users"][..]).unwrap();
    assert_eq!("dropped users".to_string(), group.dispatch(evaluated));
}

#[test]
fn dispatch_with_args_hands_over_the_unused_tokens() {
    let input = ["hello", "a", "-n", "foo", "b", "c", "1"];

    let cmd = Cmd::new("hello")
        .with_flag(FlagWithValue::new("name", "n", "A name.", StringValue))
        .with_args_handler(|name: String, args: Vec<String>| (name, args));

    let evaluated = cmd.evaluate(&input[..]).unwrap();
    let args = return_unused_args(&input[..], &evaluated.span);
    let (name, rest) = cmd.dispatch_with_args(evaluated, args);
    assert_eq!("foo".to_string(), name);
    assert_eq!(
        vec!["a".to_string(), "b".to_string(), "c".to_string(), "1".to_string()],
        rest
    );
}

#[test]
fn return_unused_args_keeps_unmatched_tokens_in_order() {
    let input = ["hello", "a", "-n", "foo", "b", "c", "1"];

    let evaluated_res = Cmd::new("hello")
        .with_flag(FlagWithValue::new("name", "n", "A name.", StringValue))
        .evaluate(&input[..]);

    let val_with_args = evaluated_res.map(|flags| {
        let args = return_unused_args(&input[..], &flags.span);
        (flags, args)
    });

    let expected_span = Span::from_range(0..1).join(Span::from_range(2..4));
    let expected_args: Vec<String> =
        vec!["a", "b", "c", "1"].iter().map(|v| v.to_string()).collect();
    assert_eq!(
        Ok((Value::new(expected_span, "foo".to_string()), expected_args)),
        val_with_args
    );
}

#[test]
fn dispatch_with_helpstring_hands_the_help_text_over() {
    let cmd = Cmd::new("test")
        .description("a test cmd")
        .with_flag(Flag::expect_string("name", "n", "A name."))
        .with_helpstring_handler(|help: String, name: String| (help, name));

    let expected_help = "Usage: test [OPTIONS]\na test cmd\nFlags:\n    --name, -n       A name.                                 ".to_string();
    let evaluated = cmd.evaluate(&["test", "-n", "foo"][..]).unwrap();
    let (help, name) = cmd.dispatch_with_helpstring(evaluated);
    assert_eq!(expected_help, help);
    assert_eq!("foo".to_string(), name);
}

#[test]
fn join_combinator_method_builds_the_same_join() {
    let input = ["hello", "-n", "foo", "-l", "info"];
    assert_eq!(
        Ok(Value::new(
            Span::from_range(1..5),
            ("foo".to_string(), "info".to_string())
        )),
        Flag::expect_string("name", "n", "A name.")
            .join(FlagWithValue::new(
                "log-level",
                "l",
                "A given log level setting.",
                StringValue
            ))
            .evaluate(&input[..])
    );
}

#[test]
fn spans_offset_past_a_command_prefix() {
    let cmd = Cmd::new("test").with_flag(Flag::store_true("debug", "d", "Debug."));
    let evaluated = cmd.evaluate(&["test", "x", "--debug"][..]).unwrap();
    assert_eq!(Value::new(Span::from_range(0..1).join(Span::from_range(2..3)), true), evaluated);
}
