//! The argument-token parser.
//!
//! `Configuration::new` walks the raw argument list left to right with a
//! single cursor and no backtracking, and builds a `Configuration` or stops
//! at the first failure.  The spec function `parse_args` is the mathematical
//! description of that walk; the executable parser is proved to return
//! exactly what `parse_args` says, for every argument list.

use vstd::prelude::*;

use crate::bytes::{
    clone_bytes, eq_ignore_ascii_case_bytes, lit_bytes, lit_vec, push_bytes, starts_with_dash,
    token_is, token_is_ignore_case, views_of,
};
use crate::model::{
    help_model, missing_argument_model, version_model, wrong_argument_model, Button, ButtonModel,
    Command, CommandModel, ConfigModel, Configuration, ErrorModel, ExecutionStrategy, MessageType,
    ParseError,
};

verus! {

/// `-m` / `--message`: the next token becomes the dialog message.
pub open spec fn is_message_flag(t: Seq<u8>) -> bool {
    t == lit_bytes("-m"@) || t == lit_bytes("--message"@)
}

/// `-t` / `--type`: the next token names the message severity.
pub open spec fn is_type_flag(t: Seq<u8>) -> bool {
    t == lit_bytes("-t"@) || t == lit_bytes("--type"@)
}

/// `-b` / `--button`: a button whose command runs in a terminal.
pub open spec fn is_button_flag(t: Seq<u8>) -> bool {
    t == lit_bytes("-b"@) || t == lit_bytes("--button"@)
}

/// `-B` / `--button-no-terminal`: a button whose command runs directly.
pub open spec fn is_button_no_terminal_flag(t: Seq<u8>) -> bool {
    t == lit_bytes("-B"@) || t == lit_bytes("--button-no-terminal"@)
}

/// `--exit-after-action`: quit after the first button press.
pub open spec fn is_exit_flag(t: Seq<u8>) -> bool {
    t == lit_bytes("--exit-after-action"@)
}

/// `-f` / `--font`: accepted for compatibility; the operand is discarded.
pub open spec fn is_font_flag(t: Seq<u8>) -> bool {
    t == lit_bytes("-f"@) || t == lit_bytes("--font"@)
}

/// `-h` / `--help`.
pub open spec fn is_help_flag(t: Seq<u8>) -> bool {
    t == lit_bytes("-h"@) || t == lit_bytes("--help"@)
}

/// `-v` / `--version`.
pub open spec fn is_version_flag(t: Seq<u8>) -> bool {
    t == lit_bytes("-v"@) || t == lit_bytes("--version"@)
}

/// Any token the parser recognizes as a flag.
pub open spec fn is_recognized_flag(t: Seq<u8>) -> bool {
    ||| is_message_flag(t)
    ||| is_type_flag(t)
    ||| is_button_flag(t)
    ||| is_button_no_terminal_flag(t)
    ||| is_exit_flag(t)
    ||| is_font_flag(t)
    ||| is_help_flag(t)
    ||| is_version_flag(t)
}

/// The configuration before any token is read: no buttons, severity
/// `ERROR`, a placeholder message, no exit after action.
pub open spec fn initial_config() -> ConfigModel {
    ConfigModel {
        message: lit_bytes("This could be your text!"@),
        exit_after_action: false,
        message_type: MessageType::ERROR,
        buttons: Seq::empty(),
    }
}

/// What a button flag at `pos` yields: the button, and the position of the
/// first token after everything the flag consumed — or the first failure.
///
/// LABEL and ACTION are mandatory; ICON is consumed only if a further token
/// exists and does not begin with `-` (such a token is taken to be the next
/// flag and is left for the caller).
pub open spec fn button_from(args: Seq<Seq<u8>>, pos: int, strategy: ExecutionStrategy) -> Result<
    (ButtonModel, int),
    ErrorModel,
> {
    if pos + 1 >= args.len() {
        Err(missing_argument_model(lit_bytes("Missing label for Button."@)))
    } else if pos + 2 >= args.len() {
        Err(missing_argument_model(lit_bytes("Missing action for Button."@)))
    } else {
        let label = args[pos + 1];
        let command = CommandModel { command: args[pos + 2], strategy };
        if pos + 3 < args.len() && !starts_with_dash(args[pos + 3]) {
            Ok((ButtonModel { label, icon: Some(args[pos + 3]), command }, pos + 4))
        } else {
            Ok((ButtonModel { label, icon: None, command }, pos + 3))
        }
    }
}

/// The tokens still ahead of cursor `pos`: the termination metric of the
/// parse, which only ever moves the cursor right.
pub open spec fn remaining(args: Seq<Seq<u8>>, pos: int) -> nat {
    if pos <= args.len() {
        (args.len() - pos) as nat
    } else {
        0
    }
}

/// One step of the parse at cursor `pos` over accumulated state `acc`, and
/// everything that follows it.  The first failure is returned immediately.
pub open spec fn parse_from(args: Seq<Seq<u8>>, pos: int, acc: ConfigModel) -> Result<
    ConfigModel,
    ErrorModel,
>
    decreases remaining(args, pos),
{
    if pos >= args.len() {
        Ok(acc)
    } else {
        let t = args[pos];
        if is_message_flag(t) {
            if pos + 1 < args.len() {
                parse_from(args, pos + 2, ConfigModel { message: args[pos + 1], ..acc })
            } else {
                Err(missing_argument_model(lit_bytes("Required argument for -m is missing."@)))
            }
        } else if is_type_flag(t) {
            if pos + 1 < args.len() {
                let v = args[pos + 1];
                if eq_ignore_ascii_case_bytes(v, lit_bytes("warning"@)) {
                    parse_from(
                        args,
                        pos + 2,
                        ConfigModel { message_type: MessageType::WARNING, ..acc },
                    )
                } else if eq_ignore_ascii_case_bytes(v, lit_bytes("error"@)) {
                    parse_from(args, pos + 2, acc)
                } else {
                    Err(
                        wrong_argument_model(
                            lit_bytes("Parameter for -t ("@) + v + lit_bytes(
                                ") was neither warning nor error."@,
                            ),
                        ),
                    )
                }
            } else {
                Err(missing_argument_model(lit_bytes("Required argument for -t is missing."@)))
            }
        } else if is_button_flag(t) {
            match button_from(args, pos, ExecutionStrategy::Terminal) {
                Ok(r) => parse_from(
                    args,
                    r.1,
                    ConfigModel { buttons: acc.buttons.push(r.0), ..acc },
                ),
                Err(e) => Err(e),
            }
        } else if is_button_no_terminal_flag(t) {
            match button_from(args, pos, ExecutionStrategy::DirectShell) {
                Ok(r) => parse_from(
                    args,
                    r.1,
                    ConfigModel { buttons: acc.buttons.push(r.0), ..acc },
                ),
                Err(e) => Err(e),
            }
        } else if is_exit_flag(t) {
            parse_from(args, pos + 1, ConfigModel { exit_after_action: true, ..acc })
        } else if is_font_flag(t) {
            parse_from(args, pos + 2, acc)
        } else if is_help_flag(t) {
            Err(help_model())
        } else if is_version_flag(t) {
            Err(version_model())
        } else {
            Err(wrong_argument_model(lit_bytes("Unexpected argument: "@) + t))
        }
    }
}

/// The whole parse: the cursor starts at 1, behind the program name.
pub open spec fn parse_args(args: Seq<Seq<u8>>) -> Result<ConfigModel, ErrorModel> {
    parse_from(args, 1, initial_config())
}

/// The buttons that the parse yields from cursor `pos` on, in the order in
/// which their flags stand, with `-b` bound to the terminal strategy and
/// `-B` to the direct-shell strategy.  Where the parse fails, the value is
/// of no interest and is left empty.
pub open spec fn buttons_from(args: Seq<Seq<u8>>, pos: int) -> Seq<ButtonModel>
    decreases remaining(args, pos),
{
    if pos >= args.len() {
        Seq::empty()
    } else {
        let t = args[pos];
        if is_message_flag(t) {
            if pos + 1 < args.len() {
                buttons_from(args, pos + 2)
            } else {
                Seq::empty()
            }
        } else if is_type_flag(t) {
            if pos + 1 < args.len() && (eq_ignore_ascii_case_bytes(args[pos + 1], lit_bytes("warning"@))
                || eq_ignore_ascii_case_bytes(args[pos + 1], lit_bytes("error"@))) {
                buttons_from(args, pos + 2)
            } else {
                Seq::empty()
            }
        } else if is_button_flag(t) {
            match button_from(args, pos, ExecutionStrategy::Terminal) {
                Ok(r) => seq![r.0] + buttons_from(args, r.1),
                Err(_) => Seq::empty(),
            }
        } else if is_button_no_terminal_flag(t) {
            match button_from(args, pos, ExecutionStrategy::DirectShell) {
                Ok(r) => seq![r.0] + buttons_from(args, r.1),
                Err(_) => Seq::empty(),
            }
        } else if is_exit_flag(t) {
            buttons_from(args, pos + 1)
        } else if is_font_flag(t) {
            buttons_from(args, pos + 2)
        } else {
            Seq::empty()
        }
    }
}

/// Whenever the parse from `pos` succeeds, its buttons are the ones already
/// accumulated followed, in order, by exactly the buttons of the tokens
/// from `pos` on.
pub proof fn lemma_buttons_accumulate(args: Seq<Seq<u8>>, pos: int, acc: ConfigModel)
    ensures
        parse_from(args, pos, acc) matches Ok(c) ==> c.buttons == acc.buttons + buttons_from(
            args,
            pos,
        ),
    decreases remaining(args, pos),
{
    if pos >= args.len() {
        assert(acc.buttons + buttons_from(args, pos) =~= acc.buttons);
    } else {
        let t = args[pos];
        if is_message_flag(t) {
            if pos + 1 < args.len() {
                lemma_buttons_accumulate(
                    args,
                    pos + 2,
                    ConfigModel { message: args[pos + 1], ..acc },
                );
            }
        } else if is_type_flag(t) {
            if pos + 1 < args.len() {
                if eq_ignore_ascii_case_bytes(args[pos + 1], lit_bytes("warning"@)) {
                    lemma_buttons_accumulate(
                        args,
                        pos + 2,
                        ConfigModel { message_type: MessageType::WARNING, ..acc },
                    );
                } else if eq_ignore_ascii_case_bytes(args[pos + 1], lit_bytes("error"@)) {
                    lemma_buttons_accumulate(args, pos + 2, acc);
                }
            }
        } else if is_button_flag(t) {
            match button_from(args, pos, ExecutionStrategy::Terminal) {
                Ok(r) => {
                    let acc2 = ConfigModel { buttons: acc.buttons.push(r.0), ..acc };
                    lemma_buttons_accumulate(args, r.1, acc2);
                    assert(acc2.buttons + buttons_from(args, r.1) =~= acc.buttons + (seq![r.0]
                        + buttons_from(args, r.1)));
                },
                Err(_) => {},
            }
        } else if is_button_no_terminal_flag(t) {
            match button_from(args, pos, ExecutionStrategy::DirectShell) {
                Ok(r) => {
                    let acc2 = ConfigModel { buttons: acc.buttons.push(r.0), ..acc };
                    lemma_buttons_accumulate(args, r.1, acc2);
                    assert(acc2.buttons + buttons_from(args, r.1) =~= acc.buttons + (seq![r.0]
                        + buttons_from(args, r.1)));
                },
                Err(_) => {},
            }
        } else if is_exit_flag(t) {
            lemma_buttons_accumulate(args, pos + 1, ConfigModel { exit_after_action: true, ..acc });
        } else if is_font_flag(t) {
            lemma_buttons_accumulate(args, pos + 2, acc);
        }
    }
}

/// Button ordering: when a parse succeeds, `buttons[i]` corresponds to the
/// i-th `-b`/`-B` flag in left-to-right order, regardless of interleaving,
/// with the strategy its flag asks for.
pub proof fn lemma_button_order(args: Seq<Seq<u8>>)
    ensures
        parse_args(args) matches Ok(c) ==> c.buttons == buttons_from(args, 1),
{
    lemma_buttons_accumulate(args, 1, initial_config());
    match parse_args(args) {
        Ok(c) => {
            assert(initial_config().buttons + buttons_from(args, 1) =~= buttons_from(args, 1));
        },
        Err(_) => {},
    }
}

/// Icon look-ahead: with LABEL and ACTION present, a further token is
/// consumed as ICON exactly when it exists and does not begin with `-`;
/// otherwise it is left in place for the next flag.
pub proof fn lemma_icon_lookahead(args: Seq<Seq<u8>>, pos: int, strategy: ExecutionStrategy)
    requires
        0 <= pos,
        pos + 2 < args.len(),
    ensures
        pos + 3 < args.len() && !starts_with_dash(args[pos + 3]) ==> button_from(args, pos, strategy)
            == Ok::<(ButtonModel, int), ErrorModel>(
            (
                ButtonModel {
                    label: args[pos + 1],
                    icon: Some(args[pos + 3]),
                    command: CommandModel { command: args[pos + 2], strategy },
                },
                pos + 4,
            ),
        ),
        pos + 3 >= args.len() || starts_with_dash(args[pos + 3]) ==> button_from(args, pos, strategy)
            == Ok::<(ButtonModel, int), ErrorModel>(
            (
                ButtonModel {
                    label: args[pos + 1],
                    icon: None,
                    command: CommandModel { command: args[pos + 2], strategy },
                },
                pos + 3,
            ),
        ),
{
}

/// Pins down the length and the distinguishing bytes of every flag literal,
/// so that no token can stand for two different flags.
pub proof fn lemma_flag_literals()
    ensures
        lit_bytes("-m"@).len() == 2 && lit_bytes("-m"@)[1] == 109,
        lit_bytes("-t"@).len() == 2 && lit_bytes("-t"@)[1] == 116,
        lit_bytes("-b"@).len() == 2 && lit_bytes("-b"@)[1] == 98,
        lit_bytes("-B"@).len() == 2 && lit_bytes("-B"@)[1] == 66,
        lit_bytes("-f"@).len() == 2 && lit_bytes("-f"@)[1] == 102,
        lit_bytes("-h"@).len() == 2 && lit_bytes("-h"@)[1] == 104,
        lit_bytes("-v"@).len() == 2 && lit_bytes("-v"@)[1] == 118,
        lit_bytes("--message"@).len() == 9 && lit_bytes("--message"@)[2] == 109,
        lit_bytes("--version"@).len() == 9 && lit_bytes("--version"@)[2] == 118,
        lit_bytes("--type"@).len() == 6 && lit_bytes("--type"@)[2] == 116,
        lit_bytes("--font"@).len() == 6 && lit_bytes("--font"@)[2] == 102,
        lit_bytes("--help"@).len() == 6 && lit_bytes("--help"@)[2] == 104,
        lit_bytes("--button"@).len() == 8,
        lit_bytes("--button-no-terminal"@).len() == 20,
        lit_bytes("--exit-after-action"@).len() == 19,
{
    reveal_strlit("-m");
    reveal_strlit("-t");
    reveal_strlit("-b");
    reveal_strlit("-B");
    reveal_strlit("-f");
    reveal_strlit("-h");
    reveal_strlit("-v");
    reveal_strlit("--message");
    reveal_strlit("--version");
    reveal_strlit("--type");
    reveal_strlit("--font");
    reveal_strlit("--help");
    reveal_strlit("--button");
    reveal_strlit("--button-no-terminal");
    reveal_strlit("--exit-after-action");
}

/// Help short-circuit: `-h`/`--help` at the cursor ends the parse at once
/// with a help request, whatever the accumulated state and whatever stands
/// after it.
pub proof fn lemma_help_short_circuit(args: Seq<Seq<u8>>, pos: int, acc: ConfigModel)
    requires
        0 <= pos < args.len(),
        is_help_flag(args[pos]),
    ensures
        parse_from(args, pos, acc) == Err::<ConfigModel, ErrorModel>(help_model()),
{
    lemma_flag_literals();
}

/// Version short-circuit: as for help.
pub proof fn lemma_version_short_circuit(args: Seq<Seq<u8>>, pos: int, acc: ConfigModel)
    requires
        0 <= pos < args.len(),
        is_version_flag(args[pos]),
    ensures
        parse_from(args, pos, acc) == Err::<ConfigModel, ErrorModel>(version_model()),
{
    lemma_flag_literals();
}

/// Unknown token: a token the cursor reaches that is no recognized flag
/// ends the parse with a `WrongArgument` naming that token.
pub proof fn lemma_unknown_token(args: Seq<Seq<u8>>, pos: int, acc: ConfigModel)
    requires
        0 <= pos < args.len(),
        !is_recognized_flag(args[pos]),
    ensures
        parse_from(args, pos, acc) == Err::<ConfigModel, ErrorModel>(
            wrong_argument_model(lit_bytes("Unexpected argument: "@) + args[pos]),
        ),
{
}

/// Missing operand: a flag at the very end of the list whose operand is
/// required fails with `MissingArgument`.
pub proof fn lemma_missing_operand(args: Seq<Seq<u8>>, pos: int, acc: ConfigModel)
    requires
        0 <= pos < args.len(),
        pos + 1 >= args.len(),
    ensures
        is_message_flag(args[pos]) ==> parse_from(args, pos, acc) == Err::<
            ConfigModel,
            ErrorModel,
        >(missing_argument_model(lit_bytes("Required argument for -m is missing."@))),
        is_type_flag(args[pos]) ==> parse_from(args, pos, acc) == Err::<ConfigModel, ErrorModel>(
            missing_argument_model(lit_bytes("Required argument for -t is missing."@)),
        ),
        is_button_flag(args[pos]) || is_button_no_terminal_flag(args[pos]) ==> parse_from(
            args,
            pos,
            acc,
        ) == Err::<ConfigModel, ErrorModel>(
            missing_argument_model(lit_bytes("Missing label for Button."@)),
        ),
{
    lemma_flag_literals();
}

/// Missing button action: a button flag whose LABEL is the last token fails
/// with `MissingArgument` for the action.
pub proof fn lemma_missing_button_action(args: Seq<Seq<u8>>, pos: int, acc: ConfigModel)
    requires
        0 <= pos < args.len(),
        pos + 1 < args.len(),
        pos + 2 >= args.len(),
        is_button_flag(args[pos]) || is_button_no_terminal_flag(args[pos]),
    ensures
        parse_from(args, pos, acc) == Err::<ConfigModel, ErrorModel>(
            missing_argument_model(lit_bytes("Missing action for Button."@)),
        ),
{
    lemma_flag_literals();
}

/// Type validation: the `-t` operand is compared case-insensitively against
/// the closed set {warning, error}; anything else is a `WrongArgument`
/// naming the operand.
pub proof fn lemma_type_validation(args: Seq<Seq<u8>>, pos: int, acc: ConfigModel)
    requires
        0 <= pos,
        pos + 1 < args.len(),
        is_type_flag(args[pos]),
    ensures
        eq_ignore_ascii_case_bytes(args[pos + 1], lit_bytes("warning"@)) ==> parse_from(
            args,
            pos,
            acc,
        ) == parse_from(args, pos + 2, ConfigModel { message_type: MessageType::WARNING, ..acc }),
        !eq_ignore_ascii_case_bytes(args[pos + 1], lit_bytes("warning"@))
            && eq_ignore_ascii_case_bytes(args[pos + 1], lit_bytes("error"@)) ==> parse_from(
            args,
            pos,
            acc,
        ) == parse_from(args, pos + 2, acc),
        !eq_ignore_ascii_case_bytes(args[pos + 1], lit_bytes("warning"@))
            && !eq_ignore_ascii_case_bytes(args[pos + 1], lit_bytes("error"@)) ==> parse_from(
            args,
            pos,
            acc,
        ) == Err::<ConfigModel, ErrorModel>(
            wrong_argument_model(
                lit_bytes("Parameter for -t ("@) + args[pos + 1] + lit_bytes(
                    ") was neither warning nor error."@,
                ),
            ),
        ),
{
    lemma_flag_literals();
}

/// The token at `pos`, if one exists.
pub fn get_argument<P>(pos: usize, args: &Vec<P>) -> (r: Option<&P>)
    ensures
        match r {
            Some(p) => pos < args@.len() && p == &args@[pos as int],
            None => pos >= args@.len(),
        },
{
    if pos < args.len() {
        Some(&args[pos])
    } else {
        None
    }
}

impl Configuration {
    /// Reads the button flag at `*pos` (the flag itself, not its operands)
    /// and moves the cursor to the last consumed token.  Returns exactly
    /// what `button_from` says for this position and strategy.
    fn create_button(pos: &mut usize, args: &Vec<Vec<u8>>, strategy: ExecutionStrategy) -> (r:
        Result<Button, ParseError>)
        requires
            *old(pos) < args@.len(),
        ensures
            match r {
                Ok(b) => button_from(views_of(args@), *old(pos) as int, strategy)
                    == Ok::<(ButtonModel, int), ErrorModel>((b@, *final(pos) as int + 1)),
                Err(e) => button_from(views_of(args@), *old(pos) as int, strategy) == Err::<
                    (ButtonModel, int),
                    ErrorModel,
                >(e@),
            },
    {
        proof {
            reveal_strlit("Missing label for Button.");
            reveal_strlit("Missing action for Button.");
            assert("Missing label for Button.".is_ascii());
            assert("Missing action for Button.".is_ascii());
        }
        let len = args.len();
        let ghost v = views_of(args@);
        let ghost flag_pos = *pos as int;
        *pos += 1;
        let label = match get_argument(*pos, args) {
            None => {
                return Err(ParseError::missing_argument(lit_vec("Missing label for Button.")));
            },
            Some(l) => {
                proof {
                    assert(v[flag_pos + 1] == args@[flag_pos + 1]@);
                }
                clone_bytes(l)
            },
        };
        *pos += 1;
        let action = match get_argument(*pos, args) {
            None => {
                return Err(ParseError::missing_argument(lit_vec("Missing action for Button.")));
            },
            Some(a) => {
                proof {
                    assert(v[flag_pos + 2] == args@[flag_pos + 2]@);
                }
                clone_bytes(a)
            },
        };
        let icon: Option<Vec<u8>> = if *pos + 1 < len {
            let val = &args[*pos + 1];
            proof {
                assert(v[flag_pos + 3] == args@[flag_pos + 3]@);
            }
            if val.len() > 0 && val[0] == 45 {
                None
            } else {
                let icon_v = clone_bytes(val);
                *pos += 1;
                Some(icon_v)
            }
        } else {
            None
        };
        let button = Button { label, icon, command: Command::new(action, strategy) };
        Ok(button)
    }

    /// Parses the raw argument list (the program name stands at index 0)
    /// into a `Configuration`, or returns the first failure.  The result is
    /// exactly `parse_args` of the tokens.
    #[verifier::loop_isolation(false)]
    pub fn new(args: &Vec<Vec<u8>>) -> (r: Result<Configuration, ParseError>)
        requires
            args@.len() < usize::MAX,
        ensures
            match r {
                Ok(c) => parse_args(views_of(args@)) == Ok::<ConfigModel, ErrorModel>(c@),
                Err(e) => parse_args(views_of(args@)) == Err::<ConfigModel, ErrorModel>(e@),
            },
    {
        proof {
            reveal_strlit("This could be your text!");
            reveal_strlit("-m");
            reveal_strlit("--message");
            reveal_strlit("-t");
            reveal_strlit("--type");
            reveal_strlit("warning");
            reveal_strlit("error");
            reveal_strlit("-b");
            reveal_strlit("--button");
            reveal_strlit("-B");
            reveal_strlit("--button-no-terminal");
            reveal_strlit("--exit-after-action");
            reveal_strlit("-f");
            reveal_strlit("--font");
            reveal_strlit("-h");
            reveal_strlit("--help");
            reveal_strlit("-v");
            reveal_strlit("--version");
            reveal_strlit("Required argument for -m is missing.");
            reveal_strlit("Required argument for -t is missing.");
            reveal_strlit("Parameter for -t (");
            reveal_strlit(") was neither warning nor error.");
            reveal_strlit("Unexpected argument: ");
            assert("This could be your text!".is_ascii());
            assert("-m".is_ascii());
            assert("--message".is_ascii());
            assert("-t".is_ascii());
            assert("--type".is_ascii());
            assert("warning".is_ascii());
            assert("error".is_ascii());
            assert("-b".is_ascii());
            assert("--button".is_ascii());
            assert("-B".is_ascii());
            assert("--button-no-terminal".is_ascii());
            assert("--exit-after-action".is_ascii());
            assert("-f".is_ascii());
            assert("--font".is_ascii());
            assert("-h".is_ascii());
            assert("--help".is_ascii());
            assert("-v".is_ascii());
            assert("--version".is_ascii());
            assert("Required argument for -m is missing.".is_ascii());
            assert("Required argument for -t is missing.".is_ascii());
            assert("Parameter for -t (".is_ascii());
            assert(") was neither warning nor error.".is_ascii());
            assert("Unexpected argument: ".is_ascii());
        }
        let ghost v = views_of(args@);
        let mut config = Configuration {
            buttons: Vec::new(),
            message_type: MessageType::ERROR,
            exit_after_action: false,
            message: lit_vec("This could be your text!"),
        };
        proof {
            assert(config@.buttons =~= initial_config().buttons);
            assert(config@ =~= initial_config());
        }
        let mut pos: usize = 1;
        while pos < args.len()
            invariant
                1 <= pos,
                args@.len() < usize::MAX,
                v == views_of(args@),
                parse_from(v, 1, initial_config()) == parse_from(v, pos as int, config@),
            decreases remaining(v, pos as int),
        {
            let ghost before = config@;
            let a = &args[pos];
            proof {
                assert(v[pos as int] == args@[pos as int]@);
            }
            if token_is(a, "-m") || token_is(a, "--message") {
                pos += 1;
                match get_argument(pos, args) {
                    None => {
                        return Err(
                            ParseError::missing_argument(
                                lit_vec("Required argument for -m is missing."),
                            ),
                        );
                    },
                    Some(msg) => {
                        proof {
                            assert(v[pos as int] == args@[pos as int]@);
                        }
                        config.message = clone_bytes(msg);
                        proof {
                            assert(config@ =~= (ConfigModel {
                                message: v[pos as int],
                                ..before
                            }));
                        }
                    },
                }
            } else if token_is(a, "-t") || token_is(a, "--type") {
                pos += 1;
                match get_argument(pos, args) {
                    None => {
                        return Err(
                            ParseError::missing_argument(
                                lit_vec("Required argument for -t is missing."),
                            ),
                        );
                    },
                    Some(type_arg) => {
                        proof {
                            assert(v[pos as int] == args@[pos as int]@);
                        }
                        if token_is_ignore_case(type_arg, "warning") {
                            config.message_type = MessageType::WARNING;
                            proof {
                                assert(config@ =~= (ConfigModel {
                                    message_type: MessageType::WARNING,
                                    ..before
                                }));
                            }
                        } else if token_is_ignore_case(type_arg, "error") {
                        } else {
                            let mut msg = lit_vec("Parameter for -t (");
                            push_bytes(&mut msg, type_arg);
                            let tail = lit_vec(") was neither warning nor error.");
                            push_bytes(&mut msg, &tail);
                            return Err(ParseError::wrong_argument(msg));
                        }
                    },
                }
            } else if token_is(a, "-b") || token_is(a, "--button") {
                let button = match Self::create_button(&mut pos, args, ExecutionStrategy::Terminal) {
                    Ok(b) => b,
                    Err(e) => {
                        return Err(e);
                    },
                };
                let ghost bm = button@;
                config.buttons.push(button);
                proof {
                    assert(config@.buttons =~= before.buttons.push(bm));
                    assert(config@ =~= (ConfigModel { buttons: before.buttons.push(bm), ..before }));
                }
            } else if token_is(a, "-B") || token_is(a, "--button-no-terminal") {
                let button = match Self::create_button(
                    &mut pos,
                    args,
                    ExecutionStrategy::DirectShell,
                ) {
                    Ok(b) => b,
                    Err(e) => {
                        return Err(e);
                    },
                };
                let ghost bm = button@;
                config.buttons.push(button);
                proof {
                    assert(config@.buttons =~= before.buttons.push(bm));
                    assert(config@ =~= (ConfigModel { buttons: before.buttons.push(bm), ..before }));
                }
            } else if token_is(a, "--exit-after-action") {
                config.exit_after_action = true;
                proof {
                    assert(config@ =~= (ConfigModel { exit_after_action: true, ..before }));
                }
            } else if token_is(a, "-f") || token_is(a, "--font") {
                pos += 1;
            } else if token_is(a, "-h") || token_is(a, "--help") {
                return Err(ParseError::help_requested());
            } else if token_is(a, "-v") || token_is(a, "--version") {
                return Err(ParseError::version_requested());
            } else {
                let mut msg = lit_vec("Unexpected argument: ");
                push_bytes(&mut msg, a);
                return Err(ParseError::wrong_argument(msg));
            }
            pos += 1;
        }
        Ok(config)
    }
}

} // verus!
