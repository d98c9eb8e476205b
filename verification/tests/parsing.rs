use options_window::model::{Configuration, ExecutionStrategy, MessageType, ParseErrorType};

fn o(s: &str) -> Vec<u8> {
    s.as_bytes().to_vec()
}

#[test]
fn button_order() {
    let args = vec![
        o("app"),
        o("-b"),
        o("1.1"),
        o("1.2"),
        o("-B"),
        o("2.1"),
        o("2.2"),
        o("-b"),
        o("3.1"),
        o("3.2"),
        o("-B"),
        o("4.1"),
        o("4.2"),
    ];
    let config = Configuration::new(&args).unwrap();
    let mut i = 1;
    for button in config.buttons {
        let label = format!("{}.1", i);
        assert_eq!(label.as_bytes().to_vec(), button.label);
        i += 1;
    }
}

#[test]
fn defaults_with_no_flags() {
    let args = vec![o("app")];
    let config = Configuration::new(&args).unwrap();
    assert_eq!(config.message, o("This could be your text!"));
    assert_eq!(config.message_type, MessageType::ERROR);
    assert!(!config.exit_after_action);
    assert!(config.buttons.is_empty());
}

#[test]
fn end_to_end_two_buttons() {
    let args = vec![
        o("app"),
        o("-b"),
        o("Open"),
        o("firefox"),
        o("-B"),
        o("Close"),
        o("pkill firefox"),
        o("--exit-after-action"),
    ];
    let config = Configuration::new(&args).unwrap();
    assert_eq!(config.buttons.len(), 2);
    assert_eq!(config.buttons[0].label, o("Open"));
    assert_eq!(config.buttons[0].command.command, o("firefox"));
    assert_eq!(config.buttons[0].command.strategy, ExecutionStrategy::Terminal);
    assert_eq!(config.buttons[1].label, o("Close"));
    assert_eq!(config.buttons[1].command.command, o("pkill firefox"));
    assert_eq!(config.buttons[1].command.strategy, ExecutionStrategy::DirectShell);
    assert!(config.exit_after_action);
}

#[test]
fn icon_consumed_when_present() {
    let args = vec![o("app"), o("-b"), o("L"), o("A"), o("I"), o("-t"), o("error")];
    let config = Configuration::new(&args).unwrap();
    assert_eq!(config.buttons.len(), 1);
    assert_eq!(config.buttons[0].icon, Some(o("I")));
}

#[test]
fn icon_absent_before_next_flag() {
    let args = vec![o("app"), o("-b"), o("L"), o("A"), o("-t"), o("error")];
    let config = Configuration::new(&args).unwrap();
    assert_eq!(config.buttons.len(), 1);
    assert_eq!(config.buttons[0].icon, None);
    assert_eq!(config.message_type, MessageType::ERROR);
}

#[test]
fn icon_lookahead_does_not_consume_dash_token() {
    // The `-x` after ACTION is left in place, and then fails as unknown.
    let args = vec![o("app"), o("-b"), o("L"), o("A"), o("-x")];
    let err = Configuration::new(&args).unwrap_err();
    assert_eq!(err.error_type, ParseErrorType::WrongArgument);
    assert_eq!(err.message, o("Unexpected argument: -x"));
}

#[test]
fn empty_token_is_taken_as_icon() {
    let args = vec![o("app"), o("-b"), o("L"), o("A"), o("")];
    let config = Configuration::new(&args).unwrap();
    assert_eq!(config.buttons[0].icon, Some(o("")));
}

#[test]
fn message_flag_sets_message() {
    let args = vec![o("app"), o("--message"), o("hello there")];
    let config = Configuration::new(&args).unwrap();
    assert_eq!(config.message, o("hello there"));
}

#[test]
fn missing_message_operand() {
    let args = vec![o("app"), o("-m")];
    let err = Configuration::new(&args).unwrap_err();
    assert_eq!(err.error_type, ParseErrorType::MissingArgument);
    assert_eq!(err.message, o("Required argument for -m is missing."));
}

#[test]
fn missing_button_action() {
    let args = vec![o("app"), o("-b"), o("L")];
    let err = Configuration::new(&args).unwrap_err();
    assert_eq!(err.error_type, ParseErrorType::MissingArgument);
    assert_eq!(err.message, o("Missing action for Button."));
}

#[test]
fn missing_button_label() {
    let args = vec![o("app"), o("-B")];
    let err = Configuration::new(&args).unwrap_err();
    assert_eq!(err.error_type, ParseErrorType::MissingArgument);
    assert_eq!(err.message, o("Missing label for Button."));
}

#[test]
fn type_accepts_warning_case_insensitively() {
    let args = vec![o("app"), o("-t"), o("Warning")];
    let config = Configuration::new(&args).unwrap();
    assert_eq!(config.message_type, MessageType::WARNING);
}

#[test]
fn type_accepts_error_case_insensitively() {
    let args = vec![o("app"), o("-t"), o("ERROR")];
    let config = Configuration::new(&args).unwrap();
    assert_eq!(config.message_type, MessageType::ERROR);
}

#[test]
fn type_rejects_other_values() {
    let args = vec![o("app"), o("-t"), o("critical")];
    let err = Configuration::new(&args).unwrap_err();
    assert_eq!(err.error_type, ParseErrorType::WrongArgument);
    assert_eq!(err.message, o("Parameter for -t (critical) was neither warning nor error."));
}

#[test]
fn type_missing_operand() {
    let args = vec![o("app"), o("--type")];
    let err = Configuration::new(&args).unwrap_err();
    assert_eq!(err.error_type, ParseErrorType::MissingArgument);
    assert_eq!(err.message, o("Required argument for -t is missing."));
}

#[test]
fn explicit_error_does_not_override_earlier_warning() {
    // `-t error` only rejects other values; it never resets an earlier
    // `-t warning`.
    let args = vec![o("app"), o("-t"), o("warning"), o("-t"), o("error")];
    let config = Configuration::new(&args).unwrap();
    assert_eq!(config.message_type, MessageType::WARNING);
}

#[test]
fn unknown_token_is_named() {
    let args = vec![o("app"), o("bogus")];
    let err = Configuration::new(&args).unwrap_err();
    assert_eq!(err.error_type, ParseErrorType::WrongArgument);
    assert_eq!(err.message, o("Unexpected argument: bogus"));
}

#[test]
fn help_short_circuits_later_errors() {
    let args = vec![o("app"), o("-h"), o("garbage"), o("-t"), o("critical")];
    let err = Configuration::new(&args).unwrap_err();
    assert_eq!(err.error_type, ParseErrorType::HelpRequested);
    assert_eq!(err.exit_code(), 0);
}

#[test]
fn version_short_circuits_later_errors() {
    let args = vec![o("app"), o("-m"), o("msg"), o("--version"), o("bogus")];
    let err = Configuration::new(&args).unwrap_err();
    assert_eq!(err.error_type, ParseErrorType::VersionInfoRequested);
    assert_eq!(err.exit_code(), 0);
}

#[test]
fn parse_errors_exit_with_one() {
    let args = vec![o("app"), o("nope")];
    let err = Configuration::new(&args).unwrap_err();
    assert_eq!(err.exit_code(), 1);
}

#[test]
fn font_flag_consumes_its_operand() {
    let args = vec![o("app"), o("-f"), o("Mono"), o("-m"), o("hi")];
    let config = Configuration::new(&args).unwrap();
    assert_eq!(config.message, o("hi"));
}

#[test]
fn font_flag_at_end_is_tolerated() {
    let args = vec![o("app"), o("--font")];
    assert!(Configuration::new(&args).is_ok());
}

#[test]
fn empty_argument_list_gives_defaults() {
    let args: Vec<Vec<u8>> = Vec::new();
    let config = Configuration::new(&args).unwrap();
    assert_eq!(config.message, o("This could be your text!"));
    assert!(config.buttons.is_empty());
}
