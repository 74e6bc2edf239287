//! The configuration of a run and the command line it is read from.

use crate::check::lossy_text;
use crate::check::quote_path;
use crate::check::quoted_path;
use crate::check::to_text_lossy;
use bstr::ByteVec;
use lexopt::Error as ParseFailure;
use lexopt::ValueExt;
use vstd::prelude::*;
use vstd::string::StrSliceExecFns;
use vstd::string::StringExecFns;
use vstd::string::StringSliceAdditionalSpecFns;

verus! {

/// How the result of a command is judged.
#[derive(Debug, PartialEq, Eq, Clone, Copy, Structural)]
pub enum CommandKind {
    /// The command passes when it exits with status zero.
    Status,
    /// The command passes when it exits with status zero and its output
    /// is the file's content, byte for byte.
    Diff,
}

/// What the command line asks for.
#[derive(Debug)]
pub enum Action {
    /// List the files that would be checked.
    ListFiles(()),
    /// Check the files.
    Check(Check),
}

/// The configuration of a check run.
#[derive(Debug)]
pub struct Check {
    /// How many files are worked on at once.
    pub max_processes: usize,
    /// What stands for the file's path in a command.
    pub placeholder: Vec<u8>,
    /// The commands that validate a file, in the order given.
    pub validate_commands: Vec<(Vec<u8>, CommandKind)>,
    /// The commands that would rewrite a file. None is supported.
    pub format_commands: Vec<Vec<u8>>,
}

/// Why a configuration cannot be run.
#[derive(Debug, PartialEq, Eq, Clone, Copy, Structural)]
pub enum ConfigError {
    /// No file could ever be admitted.
    NoProcesses,
    /// An empty placeholder stands for nothing.
    EmptyPlaceholder,
    /// Rewriting files is asked for, and is not implemented.
    FormatNotImplemented,
}

impl ConfigError {
    /// The line that tells the user what is wrong with the configuration.
    pub open spec fn message(self) -> Seq<char> {
        match self {
            ConfigError::NoProcesses => "At least one file has to be worked on at a time"@,
            ConfigError::EmptyPlaceholder => "The placeholder must not be empty"@,
            ConfigError::FormatNotImplemented => "Formatting files is not implemented"@,
        }
    }

    /// Says what is wrong with the configuration.
    pub fn describe(&self) -> (text: String)
        ensures
            text@ == self.message(),
    {
        match self {
            ConfigError::NoProcesses => String::from_str(
                "At least one file has to be worked on at a time",
            ),
            ConfigError::EmptyPlaceholder => String::from_str("The placeholder must not be empty"),
            ConfigError::FormatNotImplemented => String::from_str(
                "Formatting files is not implemented",
            ),
        }
    }
}

impl Check {
    /// A configuration can be run when it admits at least one file at a
    /// time, has a placeholder, and asks for no rewriting.
    pub open spec fn valid(&self) -> bool {
        self.max_processes >= 1 && self.placeholder@.len() > 0 && self.format_commands@.len() == 0
    }

    /// What is wrong with the configuration, first fault first.
    pub open spec fn fault(&self) -> Option<ConfigError> {
        if self.format_commands@.len() > 0 {
            Some(ConfigError::FormatNotImplemented)
        } else if self.max_processes == 0 {
            Some(ConfigError::NoProcesses)
        } else if self.placeholder@.len() == 0 {
            Some(ConfigError::EmptyPlaceholder)
        } else {
            None
        }
    }

    /// The configuration that a command line without options stands for.
    pub fn new(max_processes: usize) -> (check: Self)
        ensures
            check.max_processes == max_processes,
            check.placeholder@ == "{}".spec_bytes(),
            check.validate_commands@.len() == 0,
            check.format_commands@.len() == 0,
    {
        Check {
            max_processes,
            placeholder: "{}".as_bytes_vec(),
            validate_commands: Vec::new(),
            format_commands: Vec::new(),
        }
    }

    /// Refuses a configuration that cannot be run, before anything runs.
    pub fn validate(&self) -> (res: Result<(), ConfigError>)
        ensures
            res.is_ok() == self.valid(),
            match res {
                Ok(_) => self.fault().is_none(),
                Err(error) => self.fault() == Some(error),
            },
    {
        if self.format_commands.len() > 0 {
            Err(ConfigError::FormatNotImplemented)
        } else if self.max_processes == 0 {
            Err(ConfigError::NoProcesses)
        } else if self.placeholder.len() == 0 {
            Err(ConfigError::EmptyPlaceholder)
        } else {
            Ok(())
        }
    }
}

/// A configuration as plain values.
pub struct CheckView {
    pub max_processes: usize,
    pub placeholder: Seq<u8>,
    pub validate_commands: Seq<(Seq<u8>, CommandKind)>,
    pub format_commands: Seq<Seq<u8>>,
}

impl View for Check {
    type V = CheckView;

    open spec fn view(&self) -> CheckView {
        CheckView {
            max_processes: self.max_processes,
            placeholder: self.placeholder@,
            validate_commands: Seq::new(
                self.validate_commands@.len(),
                |at: int| (self.validate_commands@[at].0@, self.validate_commands@[at].1),
            ),
            format_commands: Seq::new(
                self.format_commands@.len(),
                |at: int| self.format_commands@[at]@,
            ),
        }
    }
}

/// One piece of a command line.
#[derive(Debug, Clone, PartialEq, Eq)]
pub enum Token {
    /// A short option, without its dash.
    Short(char),
    /// A long option, without its dashes.
    Long(String),
    /// Anything else.
    Value(Vec<u8>),
}

/// An option of the `check` command. Each takes a value.
#[derive(Debug, PartialEq, Eq, Clone, Copy, Structural)]
pub enum CheckOption {
    /// `-j`, `--jobs`: how many files are worked on at once.
    Jobs,
    /// `-I`: what stands for the file's path in a command.
    Placeholder,
    /// `-s`, `--status`: a command judged by its exit status.
    Status,
    /// `-d`, `--diff`: a command judged by its exit status and its output.
    Diff,
}

/// A command of the program.
#[derive(Debug, PartialEq, Eq, Clone, Copy, Structural)]
pub enum Command {
    /// `list`
    List,
    /// `check`
    Check,
}

/// Why a command line was refused.
#[derive(Debug)]
pub enum ArgsError {
    /// The command line ended before it named a command.
    MissingCommand,
    /// The command is not one of the program's.
    UnexpectedCommand(Vec<u8>),
    /// A short option stands where the command belongs.
    UnexpectedShort(char),
    /// A long option stands where the command belongs.
    UnexpectedLong(String),
    /// The command does not take this argument.
    Unexpected(Token),
    /// The command line does not describe a configuration that can run.
    Config(ConfigError),
    /// The command line could not be taken apart, or a value not be read.
    Parser(ParseFailure),
}

#[verifier::external_type_specification]
#[verifier::external_body]
pub struct ExParser(lexopt::Parser);

#[verifier::external_type_specification]
#[verifier::external_body]
pub struct ExParserError(ParseFailure);

/// A piece of a command line as plain values.
pub enum TokenView {
    Short(char),
    Long(Seq<char>),
    Value(Seq<u8>),
}

impl View for Token {
    type V = TokenView;

    open spec fn view(&self) -> TokenView {
        match self {
            Token::Short(letter) => TokenView::Short(*letter),
            Token::Long(name) => TokenView::Long(name@),
            Token::Value(value) => TokenView::Value(value@),
        }
    }
}

/// What a command line asks for, as plain values.
pub enum ActionView {
    ListFiles,
    Check(CheckView),
}

impl View for Action {
    type V = ActionView;

    open spec fn view(&self) -> ActionView {
        match self {
            Action::ListFiles(_) => ActionView::ListFiles,
            Action::Check(check) => ActionView::Check(check@),
        }
    }
}

/// Why a command line was refused, as plain values. Of a failure of the
/// parser only the fact is kept.
pub enum Refusal {
    MissingCommand,
    UnexpectedCommand(Seq<u8>),
    UnexpectedShort(char),
    UnexpectedLong(Seq<char>),
    Unexpected(TokenView),
    Config(ConfigError),
    Parser,
}

impl View for ArgsError {
    type V = Refusal;

    open spec fn view(&self) -> Refusal {
        match self {
            ArgsError::MissingCommand => Refusal::MissingCommand,
            ArgsError::UnexpectedCommand(name) => Refusal::UnexpectedCommand(name@),
            ArgsError::UnexpectedShort(letter) => Refusal::UnexpectedShort(*letter),
            ArgsError::UnexpectedLong(name) => Refusal::UnexpectedLong(name@),
            ArgsError::Unexpected(token) => Refusal::Unexpected(token@),
            ArgsError::Config(fault) => Refusal::Config(*fault),
            ArgsError::Parser(_) => Refusal::Parser,
        }
    }
}

impl Refusal {
    /// The line that tells the user why the command line was refused.
    /// For a failure of the parser the line is the parser's own, which is
    /// not known here.
    pub open spec fn message(self) -> Option<Seq<char>> {
        match self {
            Refusal::MissingCommand => Some("Command 'list' or 'check' must be provided"@),
            Refusal::UnexpectedCommand(name) => Some("Unexpected command "@ + lossy_text(name)),
            Refusal::UnexpectedShort(letter) => Some(
                "Unexpected argument -"@ + seq![letter] + " (expecting a command)"@,
            ),
            Refusal::UnexpectedLong(name) => Some(
                "Unexpected argument --"@ + name + " (expecting a command)"@,
            ),
            Refusal::Unexpected(TokenView::Short(letter)) => Some(
                "invalid option '-"@ + seq![letter] + "'"@,
            ),
            Refusal::Unexpected(TokenView::Long(name)) => Some(
                "invalid option '--"@ + name + "'"@,
            ),
            Refusal::Unexpected(TokenView::Value(value)) => Some(
                "unexpected argument "@ + quoted_path(value),
            ),
            Refusal::Config(fault) => Some(fault.message()),
            Refusal::Parser => None,
        }
    }
}

/// `String::from` on a character. Trusted: the text is that character.
#[verifier::external_body]
fn letter_text(letter: char) -> (text: String)
    ensures
        text@ == seq![letter],
{
    String::from(letter)
}

/// `lexopt::Error` shown with `Display`. Trusted: nothing is claimed of
/// the text.
#[verifier::external_body]
fn failure_text(failure: &ParseFailure) -> (text: String) {
    failure.to_string()
}

impl ArgsError {
    /// Says why the command line was refused.
    pub fn describe(&self) -> (text: String)
        ensures
            self@.message() matches Some(line) ==> text@ == line,
    {
        match self {
            ArgsError::MissingCommand => String::from_str(
                "Command 'list' or 'check' must be provided",
            ),
            ArgsError::UnexpectedCommand(name) => {
                let mut text = String::from_str("Unexpected command ");
                text.append(to_text_lossy(name.as_slice()).as_str());
                text
            },
            ArgsError::UnexpectedShort(letter) => {
                let mut text = String::from_str("Unexpected argument -");
                text.append(letter_text(*letter).as_str());
                text.append(" (expecting a command)");
                text
            },
            ArgsError::UnexpectedLong(name) => {
                let mut text = String::from_str("Unexpected argument --");
                text.append(name.as_str());
                text.append(" (expecting a command)");
                text
            },
            ArgsError::Unexpected(Token::Short(letter)) => {
                let mut text = String::from_str("invalid option '-");
                text.append(letter_text(*letter).as_str());
                text.append("'");
                text
            },
            ArgsError::Unexpected(Token::Long(name)) => {
                let mut text = String::from_str("invalid option '--");
                text.append(name.as_str());
                text.append("'");
                text
            },
            ArgsError::Unexpected(Token::Value(value)) => {
                let mut text = String::from_str("unexpected argument ");
                text.append(quote_path(value.as_slice()).as_str());
                text
            },
            ArgsError::Config(fault) => fault.describe(),
            ArgsError::Parser(failure) => failure_text(failure),
        }
    }
}

/// What a parser is in the middle of, between two calls.
pub enum Midway {
    /// Nothing: the next piece starts a new argument.
    Nothing,
    /// A long option came with `=`, and the value behind it is not taken
    /// yet.
    Value(Seq<u8>),
    /// A run of short options: the argument, and how many of its bytes
    /// are behind the parser.
    Shorts(Seq<u8>, nat),
    /// `--` has been seen: whatever follows is a value.
    Finished,
}

/// What a call leaves of a parser, and what it hands out: nothing where
/// the call fails.
pub struct Step<T> {
    pub handed: Option<T>,
    pub unread: Seq<Seq<u8>>,
    pub midway: Midway,
}

/// The arguments that a parser has not looked at yet, in their order.
pub uninterp spec fn unread(parser: lexopt::Parser) -> Seq<Seq<u8>>;

/// What a parser is in the middle of.
pub uninterp spec fn midway(parser: lexopt::Parser) -> Midway;

/// What asking a parser for its next piece comes to. The piece is `None`
/// at the end of the command line.
pub uninterp spec fn next_of(unread: Seq<Seq<u8>>, midway: Midway) -> Step<Option<TokenView>>;

/// What asking a parser for the value of an option comes to.
pub uninterp spec fn value_of(unread: Seq<Seq<u8>>, midway: Midway) -> Step<Seq<u8>>;

/// Whether a byte is a decimal digit.
pub open spec fn is_digit(byte: u8) -> bool {
    48 <= byte <= 57
}

/// The number that a run of decimal digits stands for.
pub open spec fn decimal_value(digits: Seq<u8>) -> nat
    decreases digits.len(),
{
    if digits.len() == 0 {
        0
    } else {
        decimal_value(digits.drop_last()) * 10 + (digits.last() - 48) as nat
    }
}

/// The digits of a number in text: the text without a plus sign in front.
pub open spec fn digits_of(text: Seq<u8>) -> Seq<u8> {
    if text.len() > 0 && text[0] == 43 {
        text.skip(1)
    } else {
        text
    }
}

/// A number as `usize` reads it from text, where the text is one: decimal
/// digits, at least one, with or without a plus sign in front, that stand
/// for a number within `usize`.
pub open spec fn parsed_count(text: Seq<u8>) -> Option<usize> {
    let digits = digits_of(text);
    if digits.len() > 0 && (forall|at: int| 0 <= at < digits.len() ==> is_digit(#[trigger] digits[at]))
        && decimal_value(digits) <= usize::MAX {
        Some(decimal_value(digits) as usize)
    } else {
        None
    }
}

/// The bytes of each argument of a command line.
pub open spec fn bytes_of_all(args: Seq<Vec<u8>>) -> Seq<Seq<u8>> {
    Seq::new(args.len(), |at: int| args[at]@)
}

/// A command line without the program's name, which comes first.
pub open spec fn behind_name(args: Seq<Seq<u8>>) -> Seq<Seq<u8>> {
    if args.len() == 0 {
        Seq::empty()
    } else {
        args.skip(1)
    }
}

/// The size of what a parser has not looked at yet: the bytes of each
/// argument and two for the argument itself.
pub open spec fn size_of_all(unread: Seq<Seq<u8>>) -> nat
    decreases unread.len(),
{
    if unread.len() == 0 {
        0
    } else {
        size_of_all(unread.drop_last()) + unread.last().len() + 2
    }
}

/// How much a parser has still to go through: what it has not looked at,
/// and what is left of the argument it is in the middle of. Every piece
/// that a parser hands out takes from this.
pub open spec fn weight(unread: Seq<Seq<u8>>, midway: Midway) -> nat {
    size_of_all(unread) + match midway {
        Midway::Nothing => 0nat,
        Midway::Value(_) => 1nat,
        Midway::Shorts(argument, behind) => if behind <= argument.len() {
            (argument.len() - behind + 1) as nat
        } else {
            1nat
        },
        Midway::Finished => 0nat,
    }
}

/// What a call of the parser handed out, as plain values.
pub open spec fn piece_handed(res: Result<Option<Token>, ParseFailure>) -> Option<Option<TokenView>> {
    match res {
        Ok(Some(token)) => Some(Some(token@)),
        Ok(None) => Some(None),
        Err(_) => None,
    }
}

/// The value that a call of the parser handed out, as plain values.
pub open spec fn value_handed(res: Result<Vec<u8>, ParseFailure>) -> Option<Seq<u8>> {
    match res {
        Ok(value) => Some(value@),
        Err(_) => None,
    }
}

/// `lexopt::Parser::from_iter`, over arguments made with
/// `bstr::ByteVec::into_os_string_lossy`, which on Unix keeps every byte.
/// Trusted: the parser starts between arguments, with the first argument
/// taken as the program's name and every other argument still to look at.
#[verifier::external_body]
fn parser_over(args: Vec<Vec<u8>>) -> (parser: lexopt::Parser)
    ensures
        unread(parser) == behind_name(bytes_of_all(args@)),
        midway(parser) == Midway::Nothing,
{
    lexopt::Parser::from_iter(args.into_iter().map(|arg| arg.into_os_string_lossy()))
}

/// `lexopt::Parser::next`, its result in the library's own type. Trusted:
/// what the call hands out and what it leaves of the parser depend on
/// what the parser held alone, and a parser that hands out a piece has
/// less to go through than it had.
#[verifier::external_body]
fn next_token(parser: &mut lexopt::Parser) -> (res: Result<Option<Token>, ParseFailure>)
    ensures
        piece_handed(res) == next_of(unread(*old(parser)), midway(*old(parser))).handed,
        unread(*final(parser)) == next_of(unread(*old(parser)), midway(*old(parser))).unread,
        midway(*final(parser)) == next_of(unread(*old(parser)), midway(*old(parser))).midway,
        res matches Ok(Some(_)) ==> weight(unread(*final(parser)), midway(*final(parser)))
            < weight(unread(*old(parser)), midway(*old(parser))),
{
    Ok(
        match parser.next()? {
            Some(lexopt::Arg::Short(letter)) => Some(Token::Short(letter)),
            Some(lexopt::Arg::Long(name)) => Some(Token::Long(name.to_owned())),
            Some(lexopt::Arg::Value(value)) => Some(Token::Value(value.into_encoded_bytes())),
            None => None,
        },
    )
}

/// `lexopt::Parser::value`, its result as bytes. Trusted: what the call
/// hands out and what it leaves of the parser depend on what the parser
/// held alone, and taking a value leaves the parser no more to go through
/// than it had.
#[verifier::external_body]
fn option_value(parser: &mut lexopt::Parser) -> (res: Result<Vec<u8>, ParseFailure>)
    ensures
        value_handed(res) == value_of(unread(*old(parser)), midway(*old(parser))).handed,
        unread(*final(parser)) == value_of(unread(*old(parser)), midway(*old(parser))).unread,
        midway(*final(parser)) == value_of(unread(*old(parser)), midway(*old(parser))).midway,
        weight(unread(*final(parser)), midway(*final(parser))) <= weight(
            unread(*old(parser)),
            midway(*old(parser)),
        ),
{
    Ok(parser.value()?.into_encoded_bytes())
}

/// `lexopt::ValueExt::parse` to `usize`. Trusted: the text is read as
/// `usize::from_str` reads a decimal number, and anything else is refused.
#[verifier::external_body]
fn parse_count(text: Vec<u8>) -> (res: Result<usize, ParseFailure>)
    ensures
        match res {
            Ok(count) => parsed_count(text@) == Some(count),
            Err(_) => parsed_count(text@).is_none(),
        },
{
    text.into_os_string_lossy().parse()
}

/// The option of `check` that a piece of the command line names.
pub open spec fn option_of(token: TokenView) -> Option<CheckOption> {
    match token {
        TokenView::Short(letter) => if letter == 'j' {
            Some(CheckOption::Jobs)
        } else if letter == 'I' {
            Some(CheckOption::Placeholder)
        } else if letter == 's' {
            Some(CheckOption::Status)
        } else if letter == 'd' {
            Some(CheckOption::Diff)
        } else {
            None
        },
        TokenView::Long(name) => if name == "jobs"@ {
            Some(CheckOption::Jobs)
        } else if name == "status"@ {
            Some(CheckOption::Status)
        } else if name == "diff"@ {
            Some(CheckOption::Diff)
        } else {
            None
        },
        TokenView::Value(_) => None,
    }
}

/// The option of `check` that a piece of the command line names.
pub open spec fn option_named(token: Token) -> Option<CheckOption> {
    option_of(token@)
}

/// Tells which option of `check` a piece of the command line names.
pub fn check_option(token: &Token) -> (option: Option<CheckOption>)
    ensures
        option == option_named(*token),
{
    match token {
        Token::Short(letter) => {
            if *letter == 'j' {
                Some(CheckOption::Jobs)
            } else if *letter == 'I' {
                Some(CheckOption::Placeholder)
            } else if *letter == 's' {
                Some(CheckOption::Status)
            } else if *letter == 'd' {
                Some(CheckOption::Diff)
            } else {
                None
            }
        },
        Token::Long(name) => {
            if *name == String::from_str("jobs") {
                Some(CheckOption::Jobs)
            } else if *name == String::from_str("status") {
                Some(CheckOption::Status)
            } else if *name == String::from_str("diff") {
                Some(CheckOption::Diff)
            } else {
                None
            }
        },
        Token::Value(_) => None,
    }
}

/// The command that the first piece of a command line names.
pub open spec fn command_named(first: Option<Token>) -> Result<Command, ArgsError> {
    match first {
        Some(Token::Value(name)) => if name@ == "list".spec_bytes() {
            Ok(Command::List)
        } else if name@ == "check".spec_bytes() {
            Ok(Command::Check)
        } else {
            Err(ArgsError::UnexpectedCommand(name))
        },
        Some(Token::Short(letter)) => Err(ArgsError::UnexpectedShort(letter)),
        Some(Token::Long(name)) => Err(ArgsError::UnexpectedLong(name)),
        None => Err(ArgsError::MissingCommand),
    }
}

/// The command that the first piece of a command line names, as plain
/// values.
pub open spec fn command_of(first: Option<TokenView>) -> Result<Command, Refusal> {
    match first {
        Some(TokenView::Value(name)) => if name == "list".spec_bytes() {
            Ok(Command::List)
        } else if name == "check".spec_bytes() {
            Ok(Command::Check)
        } else {
            Err(Refusal::UnexpectedCommand(name))
        },
        Some(TokenView::Short(letter)) => Err(Refusal::UnexpectedShort(letter)),
        Some(TokenView::Long(name)) => Err(Refusal::UnexpectedLong(name)),
        None => Err(Refusal::MissingCommand),
    }
}

/// A piece of a command line that may be missing, as plain values.
pub open spec fn piece_of(piece: Option<Token>) -> Option<TokenView> {
    match piece {
        Some(token) => Some(token@),
        None => None,
    }
}

/// A result with its error as plain values.
pub open spec fn refused<T>(res: Result<T, ArgsError>) -> Result<T, Refusal> {
    match res {
        Ok(value) => Ok(value),
        Err(error) => Err(error@),
    }
}

/// Tells which command the first piece of a command line names.
pub fn command(first: Option<Token>) -> (res: Result<Command, ArgsError>)
    ensures
        res == command_named(first),
        refused(res) == command_of(piece_of(first)),
{
    match first {
        Some(Token::Value(name)) => {
            if crate::check::same_bytes(name.as_slice(), "list".as_bytes()) {
                Ok(Command::List)
            } else if crate::check::same_bytes(name.as_slice(), "check".as_bytes()) {
                Ok(Command::Check)
            } else {
                Err(ArgsError::UnexpectedCommand(name))
            }
        },
        Some(Token::Short(letter)) => Err(ArgsError::UnexpectedShort(letter)),
        Some(Token::Long(name)) => Err(ArgsError::UnexpectedLong(name)),
        None => Err(ArgsError::MissingCommand),
    }
}

/// `list` takes no argument: whatever follows it is refused.
pub fn nothing_more(next: Option<Token>) -> (res: Result<(), ArgsError>)
    ensures
        match next {
            None => res == Ok::<(), ArgsError>(()),
            Some(token) => res == Err::<(), ArgsError>(ArgsError::Unexpected(token)),
        },
{
    match next {
        None => Ok(()),
        Some(token) => Err(ArgsError::Unexpected(token)),
    }
}

impl CheckView {
    /// The configuration that a command line without options stands for.
    pub open spec fn initial(max_processes: usize) -> CheckView {
        CheckView {
            max_processes,
            placeholder: "{}".spec_bytes(),
            validate_commands: Seq::empty(),
            format_commands: Seq::empty(),
        }
    }

    /// What is wrong with the configuration, first fault first.
    pub open spec fn fault(self) -> Option<ConfigError> {
        if self.format_commands.len() > 0 {
            Some(ConfigError::FormatNotImplemented)
        } else if self.max_processes == 0 {
            Some(ConfigError::NoProcesses)
        } else if self.placeholder.len() == 0 {
            Some(ConfigError::EmptyPlaceholder)
        } else {
            None
        }
    }

    /// The configuration where it can be run, and its first fault where
    /// it cannot.
    pub open spec fn settled(self) -> Result<CheckView, Refusal> {
        match self.fault() {
            None => Ok(self),
            Some(fault) => Err(Refusal::Config(fault)),
        }
    }

    /// The configuration with one more option taken in: each option
    /// replaces what it sets, or adds a command behind those given before.
    pub open spec fn with(self, option: CheckOption, value: Seq<u8>) -> CheckView {
        match option {
            CheckOption::Jobs => CheckView {
                max_processes: parsed_count(value).unwrap(),
                ..self
            },
            CheckOption::Placeholder => CheckView { placeholder: value, ..self },
            CheckOption::Status => CheckView {
                validate_commands: self.validate_commands.push((value, CommandKind::Status)),
                ..self
            },
            CheckOption::Diff => CheckView {
                validate_commands: self.validate_commands.push((value, CommandKind::Diff)),
                ..self
            },
        }
    }
}

impl Check {
    /// Takes in one option with its value. Only the number of jobs can be
    /// refused: where the value is not a number.
    pub fn set(&mut self, option: CheckOption, value: Vec<u8>) -> (res: Result<(), ArgsError>)
        ensures
            res.is_ok() == (option != CheckOption::Jobs || parsed_count(value@).is_some()),
            res.is_ok() ==> final(self)@ == old(self)@.with(option, value@),
            res.is_err() ==> (res matches Err(ArgsError::Parser(_))) && final(self)@ == old(self)@,
    {
        match option {
            CheckOption::Jobs => {
                match parse_count(value) {
                    Ok(count) => {
                        self.max_processes = count;
                    },
                    Err(error) => {
                        return Err(ArgsError::Parser(error));
                    },
                }
            },
            CheckOption::Placeholder => {
                self.placeholder = value;
            },
            CheckOption::Status => {
                self.validate_commands.push((value, CommandKind::Status));
                assert(self@.validate_commands =~= old(self)@.validate_commands.push(
                    (value@, CommandKind::Status),
                ));
            },
            CheckOption::Diff => {
                self.validate_commands.push((value, CommandKind::Diff));
                assert(self@.validate_commands =~= old(self)@.validate_commands.push(
                    (value@, CommandKind::Diff),
                ));
            },
        }
        Ok(())
    }
}

/// What follows `list`, read from a parser: nothing may follow.
pub open spec fn list_read(unread: Seq<Seq<u8>>, midway: Midway) -> Result<(), Refusal> {
    match next_of(unread, midway).handed {
        None => Err(Refusal::Parser),
        Some(None) => Ok(()),
        Some(Some(token)) => Err(Refusal::Unexpected(token)),
    }
}

/// What follows `check`, read from a parser into a configuration: options,
/// each with its value, until the command line ends; then the configuration
/// has to be one that can run. The first piece that is no option, the
/// first value that is missing and the first number of jobs that is no
/// number end the reading.
pub open spec fn check_read(unread: Seq<Seq<u8>>, midway: Midway, check: CheckView) -> Result<
    CheckView,
    Refusal,
>
    decreases weight(unread, midway),
{
    let piece = next_of(unread, midway);
    match piece.handed {
        None => Err(Refusal::Parser),
        Some(None) => check.settled(),
        Some(Some(token)) => match option_of(token) {
            None => Err(Refusal::Unexpected(token)),
            Some(option) => {
                let value = value_of(piece.unread, piece.midway);
                match value.handed {
                    None => Err(Refusal::Parser),
                    Some(text) => if option == CheckOption::Jobs && parsed_count(text).is_none() {
                        Err(Refusal::Parser)
                    } else if weight(value.unread, value.midway) < weight(unread, midway) {
                        check_read(value.unread, value.midway, check.with(option, text))
                    } else {
                        // A parser never gets here: a piece and its value
                        // leave it less to go through.
                        Err(Refusal::Parser)
                    },
                }
            },
        },
    }
}

/// A command line read from the arguments that a parser starts with: the
/// first piece names the command, and the rest is read as the command
/// asks.
pub open spec fn args_read(unread: Seq<Seq<u8>>, default_jobs: usize) -> Result<
    ActionView,
    Refusal,
> {
    let first = next_of(unread, Midway::Nothing);
    match first.handed {
        None => Err(Refusal::Parser),
        Some(piece) => match command_of(piece) {
            Err(refusal) => Err(refusal),
            Ok(Command::List) => match list_read(first.unread, first.midway) {
                Ok(_) => Ok(ActionView::ListFiles),
                Err(refusal) => Err(refusal),
            },
            Ok(Command::Check) => match check_read(
                first.unread,
                first.midway,
                CheckView::initial(default_jobs),
            ) {
                Ok(check) => Ok(ActionView::Check(check)),
                Err(refusal) => Err(refusal),
            },
        },
    }
}

/// The result of reading a configuration, as plain values.
pub open spec fn check_result(res: Result<Check, ArgsError>) -> Result<CheckView, Refusal> {
    match res {
        Ok(check) => Ok(check@),
        Err(error) => Err(error@),
    }
}

/// The result of reading a command line, as plain values.
pub open spec fn action_result(res: Result<Action, ArgsError>) -> Result<ActionView, Refusal> {
    match res {
        Ok(action) => Ok(action@),
        Err(error) => Err(error@),
    }
}

/// Reads what follows `list`: nothing may.
fn parse_list_files(parser: &mut lexopt::Parser) -> (res: Result<(), ArgsError>)
    ensures
        refused(res) == list_read(unread(*old(parser)), midway(*old(parser))),
{
    match next_token(parser) {
        Ok(next) => nothing_more(next),
        Err(error) => Err(ArgsError::Parser(error)),
    }
}

/// Reads what follows `check`: options, each with its value, until the
/// command line ends. What comes out can be run.
fn parse_check(parser: &mut lexopt::Parser, default_jobs: usize) -> (res: Result<Check, ArgsError>)
    ensures
        check_result(res) == check_read(
            unread(*old(parser)),
            midway(*old(parser)),
            CheckView::initial(default_jobs),
        ),
        res matches Ok(check) ==> check.valid(),
{
    let mut check = Check::new(default_jobs);
    assert(check@.validate_commands =~= Seq::empty());
    assert(check@.format_commands =~= Seq::empty());
    let ghost goal = check_read(unread(*parser), midway(*parser), check@);
    loop
        invariant_except_break
            goal == check_read(unread(*parser), midway(*parser), check@),
        invariant
            goal == check_read(
                unread(*old(parser)),
                midway(*old(parser)),
                CheckView::initial(default_jobs),
            ),
        ensures
            goal == check@.settled(),
        decreases weight(unread(*parser), midway(*parser)),
    {
        let token = match next_token(parser) {
            Ok(Some(token)) => token,
            Ok(None) => {
                break ;
            },
            Err(error) => {
                return Err(ArgsError::Parser(error));
            },
        };
        let option = match check_option(&token) {
            Some(option) => option,
            None => {
                return Err(ArgsError::Unexpected(token));
            },
        };
        let value = match option_value(parser) {
            Ok(value) => value,
            Err(error) => {
                return Err(ArgsError::Parser(error));
            },
        };
        match check.set(option, value) {
            Ok(_) => {},
            Err(error) => {
                return Err(error);
            },
        }
    }
    assert(check.fault() == check@.fault());
    match check.validate() {
        Ok(_) => Ok(check),
        Err(error) => Err(ArgsError::Config(error)),
    }
}

/// Reads a command line, the program's name first. `default_jobs` is the
/// number of files worked on at once where the command line names none.
pub fn parse_args(args: Vec<Vec<u8>>, default_jobs: usize) -> (res: Result<Action, ArgsError>)
    ensures
        action_result(res) == args_read(behind_name(bytes_of_all(args@)), default_jobs),
        res matches Ok(Action::Check(check)) ==> check.valid(),
{
    let mut parser = parser_over(args);
    let first = match next_token(&mut parser) {
        Ok(first) => first,
        Err(error) => {
            return Err(ArgsError::Parser(error));
        },
    };
    match command(first) {
        Ok(Command::List) => match parse_list_files(&mut parser) {
            Ok(done) => Ok(Action::ListFiles(done)),
            Err(error) => Err(error),
        },
        Ok(Command::Check) => match parse_check(&mut parser, default_jobs) {
            Ok(check) => Ok(Action::Check(check)),
            Err(error) => Err(error),
        },
        Err(error) => Err(error),
    }
}

} // verus!
