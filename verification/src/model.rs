//! The value types of the launcher: message severity, execution strategies,
//! commands, buttons, the parsed configuration, and parse failures.
//!
//! Each executable type has a ghost model over `Seq<u8>` through `View`;
//! every contract of the crate speaks over these models.

use vstd::prelude::*;

verus! {

/// Severity of the message shown by the dialog; decides its icon.
#[derive(Clone, Copy, PartialEq, Eq, Structural, Debug)]
pub enum MessageType {
    WARNING,
    ERROR,
}

/// How a command is run when its button is activated.
#[derive(Clone, Copy, PartialEq, Eq, Structural, Debug)]
pub enum ExecutionStrategy {
    /// Inside an interactive terminal emulator, through the script-and-link
    /// relaunch protocol.
    Terminal,
    /// Directly through `/bin/sh -c`, with no window of its own.
    DirectShell,
}

/// The ways an argument list can fail to parse.  The help and version
/// requests are not faults; they share this type so that parsing always
/// returns one `Result`.
#[derive(Clone, Copy, PartialEq, Eq, Structural, Debug)]
pub enum ParseErrorType {
    HelpRequested,
    VersionInfoRequested,
    MissingArgument,
    WrongArgument,
}

/// A parse failure: its kind and a human-readable byte-string message.
#[derive(Debug)]
pub struct ParseError {
    pub message: Vec<u8>,
    pub error_type: ParseErrorType,
}

/// Ghost model of a `ParseError`.
#[verifier::ext_equal]
pub ghost struct ErrorModel {
    pub message: Seq<u8>,
    pub error_type: ParseErrorType,
}

impl View for ParseError {
    type V = ErrorModel;

    open spec fn view(&self) -> ErrorModel {
        ErrorModel { message: self.message@, error_type: self.error_type }
    }
}

/// The model of a missing-operand failure carrying message `msg`.
pub open spec fn missing_argument_model(msg: Seq<u8>) -> ErrorModel {
    ErrorModel { message: msg, error_type: ParseErrorType::MissingArgument }
}

/// The model of an invalid-operand or unknown-token failure carrying `msg`.
pub open spec fn wrong_argument_model(msg: Seq<u8>) -> ErrorModel {
    ErrorModel { message: msg, error_type: ParseErrorType::WrongArgument }
}

/// The model of a help request; it carries no message.
pub open spec fn help_model() -> ErrorModel {
    ErrorModel { message: Seq::empty(), error_type: ParseErrorType::HelpRequested }
}

/// The model of a version request; it carries no message.
pub open spec fn version_model() -> ErrorModel {
    ErrorModel { message: Seq::empty(), error_type: ParseErrorType::VersionInfoRequested }
}

impl ParseError {
    /// A required operand of a flag was absent.
    pub fn missing_argument(msg: Vec<u8>) -> (e: Self)
        ensures
            e@ == missing_argument_model(msg@),
    {
        ParseError { error_type: ParseErrorType::MissingArgument, message: msg }
    }

    /// An operand was present but invalid, or a token was not recognized.
    pub fn wrong_argument(msg: Vec<u8>) -> (e: Self)
        ensures
            e@ == wrong_argument_model(msg@),
    {
        ParseError { error_type: ParseErrorType::WrongArgument, message: msg }
    }

    /// The caller asked for the help text.
    pub fn help_requested() -> (e: Self)
        ensures
            e@ == help_model(),
    {
        let e = ParseError { error_type: ParseErrorType::HelpRequested, message: Vec::new() };
        proof {
            assert(e.message@ =~= Seq::<u8>::empty());
        }
        e
    }

    /// The caller asked for the version string.
    pub fn version_requested() -> (e: Self)
        ensures
            e@ == version_model(),
    {
        let e = ParseError {
            error_type: ParseErrorType::VersionInfoRequested,
            message: Vec::new(),
        };
        proof {
            assert(e.message@ =~= Seq::<u8>::empty());
        }
        e
    }

    /// The process exit code this failure asks for: `1` for real parse
    /// faults, `0` for the informational help and version requests.
    pub fn exit_code(&self) -> (c: i32)
        ensures
            c == exit_code_of(self@),
    {
        match self.error_type {
            ParseErrorType::MissingArgument => 1,
            ParseErrorType::WrongArgument => 1,
            ParseErrorType::HelpRequested => 0,
            ParseErrorType::VersionInfoRequested => 0,
        }
    }
}

/// The exit code owed for a parse failure: informational requests succeed,
/// real faults fail.
pub open spec fn exit_code_of(e: ErrorModel) -> int {
    match e.error_type {
        ParseErrorType::MissingArgument => 1,
        ParseErrorType::WrongArgument => 1,
        ParseErrorType::HelpRequested => 0,
        ParseErrorType::VersionInfoRequested => 0,
    }
}

/// An opaque shell command bound to the strategy that will run it.
#[derive(Clone, Debug)]
pub struct Command {
    pub command: Vec<u8>,
    pub strategy: ExecutionStrategy,
}

/// Ghost model of a `Command`.
#[verifier::ext_equal]
pub ghost struct CommandModel {
    pub command: Seq<u8>,
    pub strategy: ExecutionStrategy,
}

impl View for Command {
    type V = CommandModel;

    open spec fn view(&self) -> CommandModel {
        CommandModel { command: self.command@, strategy: self.strategy }
    }
}

impl Command {
    /// Binds a command text to an execution strategy.  Never fails.
    pub fn new(command: Vec<u8>, strategy: ExecutionStrategy) -> (c: Self)
        ensures
            c@ == (CommandModel { command: command@, strategy }),
    {
        Command { command, strategy }
    }
}

/// A user-configured action: a label, an optional icon name, and the bound
/// command.  A button's identity is purely positional.
#[derive(Clone, Debug)]
pub struct Button {
    pub label: Vec<u8>,
    pub icon: Option<Vec<u8>>,
    pub command: Command,
}

/// Ghost model of a `Button`.
#[verifier::ext_equal]
pub ghost struct ButtonModel {
    pub label: Seq<u8>,
    pub icon: Option<Seq<u8>>,
    pub command: CommandModel,
}

impl View for Button {
    type V = ButtonModel;

    open spec fn view(&self) -> ButtonModel {
        ButtonModel {
            label: self.label@,
            icon: match self.icon {
                Some(i) => Some(i@),
                None => None,
            },
            command: self.command@,
        }
    }
}

/// Everything one run of the program was asked to do, derived once from the
/// command line.  Immutable after construction.
#[derive(Clone, Debug)]
pub struct Configuration {
    pub message: Vec<u8>,
    pub exit_after_action: bool,
    pub message_type: MessageType,
    pub buttons: Vec<Button>,
}

/// Ghost model of a `Configuration`.
#[verifier::ext_equal]
pub ghost struct ConfigModel {
    pub message: Seq<u8>,
    pub exit_after_action: bool,
    pub message_type: MessageType,
    pub buttons: Seq<ButtonModel>,
}

impl View for Configuration {
    type V = ConfigModel;

    open spec fn view(&self) -> ConfigModel {
        ConfigModel {
            message: self.message@,
            exit_after_action: self.exit_after_action,
            message_type: self.message_type,
            buttons: self.buttons@.map_values(|b: Button| b@),
        }
    }
}

} // verus!
