use scrap::Defaultable;
use scrap::Helpable;
use scrap::ShortHelpable;
use scrap::Cmd;
use scrap::FlagWithValue;
use scrap::Optional;
use scrap::StringValue;
use scrap::WithDefault;

#[test]
fn mod_should_generate_expected_helpstring_for_given_command() {
    assert_eq!("Usage: test [OPTIONS]\na test cmd\nFlags:\n    --name, -n       A name.                                  [(optional), (default: \"foo\")]"
            .to_string(),
            Cmd::new("test")
                .description("a test cmd")
                .with_flag(WithDefault::<String, _>::new(
                    "foo",
                    Optional::new(FlagWithValue::new("name", "n", "A name.", StringValue)),
                ),)
                .help()
        )
}

#[test]
fn mod_should_generate_expected_helpstring_for_given_string_check() {
    assert_eq!(
        "    --name, -n       A name.                                 ".to_string(),
        FlagWithValue::new("name", "n", "A name.", StringValue).short_help().render()
    )
}

#[test]
fn mod_should_generate_expected_helpstring_for_optional_flag() {
    assert_eq!(
        "    --log-level, -l  A given log level setting.               [(optional)]".to_string(),
        Optional::new(FlagWithValue::new(
            "log-level",
            "l",
            "A given log level setting.",
            StringValue
        ))
        .short_help()
        .render()
    )
}

#[test]
fn mod_should_generate_expected_helpstring_for_optional_with_default_flag() {
    assert_eq!(
            "    --name, -n       A name.                                  [(optional), (default: \"foo\")]".to_string(),
            WithDefault::<String, _>::new(
                "foo",
                Optional::new(FlagWithValue::new("name", "n", "A name.", StringValue))
            )
            .short_help()
            .render()
        )
}

#[test]
fn store_true_helpstring_lists_default_modifier() {
    assert_eq!(
        "    --debug, -d      Run in debug mode.                       [(optional), (default: false)]"
            .to_string(),
        scrap::Flag::store_true("debug", "d", "Run in debug mode.")
            .optional()
            .with_default(false)
            .short_help()
            .render()
    )
}

#[test]
fn with_choices_helpstring_lists_choices_modifier() {
    assert_eq!(
        "    --log-level, -l  A log level.                             [(choices: [\"info\", \"warn\"])]"
            .to_string(),
        scrap::Flag::with_choices(
            "log-level",
            "l",
            "A log level.",
            ["info".to_string(), "warn".to_string()],
            StringValue,
        )
        .short_help()
        .render()
    )
}

#[test]
fn cmd_group_helpstring_lists_subcommands() {
    let group = scrap::CmdGroup::new("testgroup").description("a group.").with_command(
        Cmd::new("one").description("first."),
    );
    assert_eq!(
        "Usage: testgroup [OPTIONS]\na group.\nSubcommands:\none             first.".to_string(),
        group.help()
    );
}

#[test]
fn numeric_default_helpstring_renders_decimal() {
    assert_eq!(
        "    --timeout, -t    A timeout.                               [(optional), (default: -120)]"
            .to_string(),
        scrap::Flag::expect_i32("timeout", "t", "A timeout.")
            .optional()
            .with_default(-120i32)
            .short_help()
            .render()
    )
}
