//! The command line of the application.
//!
//! The first argument is the program's name. Options of the program follow,
//! then the name of a command, then the command's own options and its one
//! argument, in any order:
//!
//! ```text
//! query_ai [-c|--config FILE] [-l|--log-level LEVEL] index REPO_URL [-b|--branch BRANCH] [-v|--verbose]
//! query_ai [-c|--config FILE] [-l|--log-level LEVEL] update PAYLOAD_FILE [-f|--force]
//! query_ai [-c|--config FILE] [-l|--log-level LEVEL] query QUERY [-l|--limit NUM] [-f|--format FORMAT]
//! ```
//!
//! An argument of two or more characters that starts with `-` is an option.
//! An option that takes a value takes it from the next argument, whatever
//! that is; a long option may carry it behind `=` instead. No option may be
//! given twice.

use crate::error::Error;
use crate::logging::{matches_level, parsed_level, LogLevel};
use crate::text::{characters, same_text};
use vstd::prelude::*;

verus! {

/// The arguments of one call of the program.
#[derive(Debug)]
pub struct Cli {
    pub config: Option<String>,
    pub log_level: String,
    pub command: Command,
}

/// What the program is asked to do.
#[derive(Debug)]
pub enum Command {
    Index(IndexCommand),
    Update(UpdateCommand),
    Query(QueryCommand),
}

/// Index a repository.
#[derive(Debug)]
pub struct IndexCommand {
    pub repo_url: String,
    pub branch: String,
    pub verbose: bool,
}

/// Update the index from a payload.
#[derive(Debug)]
pub struct UpdateCommand {
    pub payload_file: String,
    pub force: bool,
}

/// Ask the index a question.
#[derive(Debug)]
pub struct QueryCommand {
    pub query: String,
    pub limit: usize,
    pub format: String,
}

/// What a [`Command`] says.
pub enum CommandView {
    Index { repo_url: Seq<char>, branch: Seq<char>, verbose: bool },
    Update { payload_file: Seq<char>, force: bool },
    Query { query: Seq<char>, limit: nat, format: Seq<char> },
}

/// What a [`Cli`] says.
pub struct CliView {
    pub config: Option<Seq<char>>,
    pub log_level: Seq<char>,
    pub command: CommandView,
}

impl View for Command {
    type V = CommandView;

    open spec fn view(&self) -> CommandView {
        match self {
            Command::Index(c) => CommandView::Index {
                repo_url: c.repo_url@,
                branch: c.branch@,
                verbose: c.verbose,
            },
            Command::Update(c) => CommandView::Update {
                payload_file: c.payload_file@,
                force: c.force,
            },
            Command::Query(c) => CommandView::Query {
                query: c.query@,
                limit: c.limit as nat,
                format: c.format@,
            },
        }
    }
}

impl View for Cli {
    type V = CliView;

    open spec fn view(&self) -> CliView {
        CliView {
            config: match self.config {
                Some(path) => Some(path@),
                None => None,
            },
            log_level: self.log_level@,
            command: self.command@,
        }
    }
}

/// Why a command line is refused.
#[derive(Debug, Clone, Copy, PartialEq, Eq, Structural)]
pub enum UsageError {
    /// No command is named.
    MissingCommand,
    /// The command is none of `index`, `update` and `query`.
    UnknownCommand,
    /// An option is not known where it stands.
    UnknownOption,
    /// An option that takes a value is the last argument.
    MissingValue,
    /// An option that takes no value carries one.
    UnexpectedValue,
    /// An option is given twice.
    RepeatedOption,
    /// The command's argument is missing.
    MissingArgument,
    /// The command has more than one argument.
    UnexpectedArgument,
    /// The limit is no number that fits.
    InvalidNumber,
    /// `-h` or `--help` was given.
    HelpRequested,
    /// `-V` or `--version` was given.
    VersionRequested,
}

impl UsageError {
    /// The words that say why the command line is refused.
    pub open spec fn text(self) -> Seq<char> {
        match self {
            UsageError::MissingCommand => "no command is named"@,
            UsageError::UnknownCommand => "the command is not known"@,
            UsageError::UnknownOption => "an option is not known where it stands"@,
            UsageError::MissingValue => "an option lacks its value"@,
            UsageError::UnexpectedValue => "an option that takes no value carries one"@,
            UsageError::RepeatedOption => "an option is given twice"@,
            UsageError::MissingArgument => "the argument of the command is missing"@,
            UsageError::UnexpectedArgument => "the command takes one argument only"@,
            UsageError::InvalidNumber => "the limit is no number that fits"@,
            UsageError::HelpRequested => "help was asked for"@,
            UsageError::VersionRequested => "the version was asked for"@,
        }
    }

    pub fn message(self) -> (message: &'static str)
        ensures
            message@ == self.text(),
    {
        match self {
            UsageError::MissingCommand => "no command is named",
            UsageError::UnknownCommand => "the command is not known",
            UsageError::UnknownOption => "an option is not known where it stands",
            UsageError::MissingValue => "an option lacks its value",
            UsageError::UnexpectedValue => "an option that takes no value carries one",
            UsageError::RepeatedOption => "an option is given twice",
            UsageError::MissingArgument => "the argument of the command is missing",
            UsageError::UnexpectedArgument => "the command takes one argument only",
            UsageError::InvalidNumber => "the limit is no number that fits",
            UsageError::HelpRequested => "help was asked for",
            UsageError::VersionRequested => "the version was asked for",
        }
    }
}

/// The part of the command line in which an argument stands.
#[derive(Debug, Clone, Copy, PartialEq, Eq, Structural)]
pub enum Scope {
    Program,
    Index,
    Update,
    Query,
}

/// What an option means where it stands.
#[derive(Debug, Clone, Copy, PartialEq, Eq, Structural)]
pub enum Slot {
    /// The first option with a value: the configuration file, the branch,
    /// the limit.
    First,
    /// The second option with a value: the log level, the format.
    Second,
    /// The option without a value: `verbose`, `force`.
    Flag,
    Help,
    Version,
}

/// What was gathered from one part of the command line.
pub struct Gathered {
    pub first: Option<Seq<char>>,
    pub second: Option<Seq<char>>,
    pub flag: bool,
    pub argument: Option<Seq<char>>,
}

/// Nothing gathered yet.
pub open spec fn nothing() -> Gathered {
    Gathered { first: None, second: None, flag: false, argument: None }
}

/// Whether an argument is an option.
pub open spec fn is_option(token: Seq<char>) -> bool {
    token.len() >= 2 && token[0] == '-'
}

/// The place of the first `wanted` in a text, or the length of the text
/// where it holds none.
pub open spec fn first_index(text: Seq<char>, wanted: char) -> int
    decreases text.len(),
{
    if text.len() == 0 {
        0
    } else if text[0] == wanted {
        0
    } else {
        1 + first_index(text.drop_first(), wanted)
    }
}

/// Whether an option carries its value behind `=`.
pub open spec fn carries_value(token: Seq<char>) -> bool {
    token.len() >= 2 && token[0] == '-' && token[1] == '-' && first_index(token, '=') < token.len()
}

/// The name of an option: the whole of it, or what stands before `=`.
pub open spec fn name_part(token: Seq<char>) -> Seq<char> {
    if carries_value(token) {
        token.take(first_index(token, '='))
    } else {
        token
    }
}

/// The value that an option carries behind `=`.
pub open spec fn value_part(token: Seq<char>) -> Option<Seq<char>> {
    if carries_value(token) {
        Some(token.skip(first_index(token, '=') + 1))
    } else {
        None
    }
}

/// What an option's name means in a part of the command line.
pub open spec fn slot_of(scope: Scope, name: Seq<char>) -> Option<Slot> {
    if name == "--help"@ || name == "-h"@ {
        Some(Slot::Help)
    } else {
        match scope {
            Scope::Program => if name == "--config"@ || name == "-c"@ {
                Some(Slot::First)
            } else if name == "--log-level"@ || name == "-l"@ {
                Some(Slot::Second)
            } else if name == "--version"@ || name == "-V"@ {
                Some(Slot::Version)
            } else {
                None
            },
            Scope::Index => if name == "--branch"@ || name == "-b"@ {
                Some(Slot::First)
            } else if name == "--verbose"@ || name == "-v"@ {
                Some(Slot::Flag)
            } else {
                None
            },
            Scope::Update => if name == "--force"@ || name == "-f"@ {
                Some(Slot::Flag)
            } else {
                None
            },
            Scope::Query => if name == "--limit"@ || name == "-l"@ {
                Some(Slot::First)
            } else if name == "--format"@ || name == "-f"@ {
                Some(Slot::Second)
            } else {
                None
            },
        }
    }
}

/// The command that a name stands for.
pub open spec fn scope_named(name: Seq<char>) -> Option<Scope> {
    if name == "index"@ {
        Some(Scope::Index)
    } else if name == "update"@ {
        Some(Scope::Update)
    } else if name == "query"@ {
        Some(Scope::Query)
    } else {
        None
    }
}

/// What one step of the reading does at the argument `at`.
pub enum Step {
    /// The reading ends in front of this argument.
    Stop,
    /// The reading goes on behind the arguments that were taken.
    Next(Gathered, int),
    /// The command line is refused.
    Fail(UsageError),
}

/// Takes the value of an option with a value.
pub open spec fn take_value(
    tokens: Seq<Seq<char>>,
    at: int,
    taken: Option<Seq<char>>,
    with: spec_fn(Seq<char>) -> Gathered,
) -> Step {
    if taken is Some {
        Step::Fail(UsageError::RepeatedOption)
    } else {
        match value_part(tokens[at]) {
            Some(value) => Step::Next(with(value), at + 1),
            None => if at + 1 < tokens.len() {
                Step::Next(with(tokens[at + 1]), at + 2)
            } else {
                Step::Fail(UsageError::MissingValue)
            },
        }
    }
}

/// The step at the argument `at`, which is there.
pub open spec fn step(scope: Scope, tokens: Seq<Seq<char>>, at: int, so_far: Gathered) -> Step {
    let token = tokens[at];
    if is_option(token) {
        match slot_of(scope, name_part(token)) {
            None => Step::Fail(UsageError::UnknownOption),
            Some(Slot::Help) => Step::Fail(UsageError::HelpRequested),
            Some(Slot::Version) => Step::Fail(UsageError::VersionRequested),
            Some(Slot::Flag) => if value_part(token) is Some {
                Step::Fail(UsageError::UnexpectedValue)
            } else if so_far.flag {
                Step::Fail(UsageError::RepeatedOption)
            } else {
                Step::Next(Gathered { flag: true, ..so_far }, at + 1)
            },
            Some(Slot::First) => take_value(
                tokens,
                at,
                so_far.first,
                |value: Seq<char>| Gathered { first: Some(value), ..so_far },
            ),
            Some(Slot::Second) => take_value(
                tokens,
                at,
                so_far.second,
                |value: Seq<char>| Gathered { second: Some(value), ..so_far },
            ),
        }
    } else if scope == Scope::Program {
        Step::Stop
    } else if so_far.argument is Some {
        Step::Fail(UsageError::UnexpectedArgument)
    } else {
        Step::Next(Gathered { argument: Some(token), ..so_far }, at + 1)
    }
}

/// Reads one part of the command line from the argument `at` on: what was
/// gathered, and where the reading ended.
pub open spec fn read_part(scope: Scope, tokens: Seq<Seq<char>>, at: int, so_far: Gathered) -> Result<
    (Gathered, int),
    UsageError,
>
    decreases tokens.len() - at,
{
    if 0 <= at < tokens.len() {
        match step(scope, tokens, at, so_far) {
            Step::Stop => Ok((so_far, at)),
            Step::Fail(error) => Err(error),
            Step::Next(more, next) => if at < next {
                read_part(scope, tokens, next, more)
            } else {
                Ok((so_far, at))
            },
        }
    } else {
        Ok((so_far, at))
    }
}

/// Whether a text is made of decimal digits, and of at least one.
pub open spec fn is_number(text: Seq<char>) -> bool {
    text.len() > 0 && forall|i: int| 0 <= i < text.len() ==> '0' <= #[trigger] text[i] <= '9'
}

/// The number that decimal digits stand for.
pub open spec fn number_of(text: Seq<char>) -> nat
    decreases text.len(),
{
    if text.len() == 0 {
        0
    } else {
        number_of(text.drop_last()) * 10 + (text.last() as nat - '0' as nat) as nat
    }
}

/// The limit that a text stands for, where it is a number that fits.
pub open spec fn limit_of(text: Seq<char>) -> Option<nat> {
    if is_number(text) && number_of(text) <= usize::MAX {
        Some(number_of(text))
    } else {
        None
    }
}

/// The value of an option, or the default where it was not given.
pub open spec fn or_default(given: Option<Seq<char>>, default: Seq<char>) -> Seq<char> {
    match given {
        Some(value) => value,
        None => default,
    }
}

/// The command that was gathered from its part of the command line.
pub open spec fn command_of(scope: Scope, local: Gathered) -> Result<CommandView, UsageError> {
    match local.argument {
        None => Err(UsageError::MissingArgument),
        Some(argument) => match scope {
            Scope::Index => Ok(
                CommandView::Index {
                    repo_url: argument,
                    branch: or_default(local.first, "main"@),
                    verbose: local.flag,
                },
            ),
            Scope::Update => Ok(CommandView::Update { payload_file: argument, force: local.flag }),
            _ => match limit_of(or_default(local.first, "10"@)) {
                Some(limit) => Ok(
                    CommandView::Query {
                        query: argument,
                        limit,
                        format: or_default(local.second, "text"@),
                    },
                ),
                None => Err(UsageError::InvalidNumber),
            },
        },
    }
}

/// What a command line means, or why it is refused.
pub open spec fn parsed(tokens: Seq<Seq<char>>) -> Result<CliView, UsageError> {
    match read_part(Scope::Program, tokens, 1, nothing()) {
        Err(error) => Err(error),
        Ok((program, at)) => if 1 <= at < tokens.len() {
            match scope_named(tokens[at]) {
                None => Err(UsageError::UnknownCommand),
                Some(scope) => match read_part(scope, tokens, at + 1, nothing()) {
                    Err(error) => Err(error),
                    Ok((local, _)) => match command_of(scope, local) {
                        Err(error) => Err(error),
                        Ok(command) => Ok(
                            CliView {
                                config: program.first,
                                log_level: or_default(program.second, "info"@),
                                command,
                            },
                        ),
                    },
                },
            }
        } else {
            Err(UsageError::MissingCommand)
        },
    }
}

/// The texts of a list of arguments, in order.
pub open spec fn argument_texts(args: Seq<&str>) -> Seq<Seq<char>> {
    args.map_values(|a: &str| a@)
}

/// The text of an optional piece of an argument.
pub open spec fn piece_text(piece: Option<&str>) -> Option<Seq<char>> {
    match piece {
        Some(text) => Some(text@),
        None => None,
    }
}

/// The text of an optional value.
pub open spec fn value_text(value: Option<String>) -> Option<Seq<char>> {
    match value {
        Some(text) => Some(text@),
        None => None,
    }
}

/// Where `first_index` points, the text holds `wanted`, and nowhere before.
pub proof fn lemma_first_index(text: Seq<char>, wanted: char)
    ensures
        0 <= first_index(text, wanted) <= text.len(),
        first_index(text, wanted) < text.len() ==> text[first_index(text, wanted)] == wanted,
        forall|i: int| 0 <= i < first_index(text, wanted) ==> text[i] != wanted,
    decreases text.len(),
{
    if text.len() > 0 && text[0] != wanted {
        let rest = text.drop_first();
        lemma_first_index(rest, wanted);
        assert forall|i: int| 0 <= i < first_index(text, wanted) implies text[i] != wanted by {
            if i > 0 {
                assert(text[i] == rest[i - 1]);
            }
        }
    }
}

/// A text that holds no `wanted` before `place`, and one there unless
/// `place` is its length, has its first `wanted` at `place`.
pub proof fn lemma_first_index_is(text: Seq<char>, wanted: char, place: int)
    requires
        0 <= place <= text.len(),
        place < text.len() ==> text[place] == wanted,
        forall|i: int| 0 <= i < place ==> text[i] != wanted,
    ensures
        first_index(text, wanted) == place,
{
    lemma_first_index(text, wanted);
}

/// The number of a text is no smaller than that of any of its beginnings.
pub proof fn lemma_number_grows(text: Seq<char>, length: int)
    requires
        0 <= length <= text.len(),
    ensures
        number_of(text.take(length)) <= number_of(text),
    decreases text.len() - length,
{
    if length < text.len() {
        lemma_number_grows(text, length + 1);
        assert(text.take(length + 1).drop_last() == text.take(length));
    } else {
        assert(text.take(length) == text);
    }
}

/// What was gathered from one part of the command line.
struct Part {
    first: Option<String>,
    second: Option<String>,
    flag: bool,
    argument: Option<String>,
}

impl View for Part {
    type V = Gathered;

    closed spec fn view(&self) -> Gathered {
        Gathered {
            first: value_text(self.first),
            second: value_text(self.second),
            flag: self.flag,
            argument: value_text(self.argument),
        }
    }
}

/// Finds the first `wanted` among the characters.
fn find_first(list: &Vec<char>, wanted: char) -> (place: usize)
    ensures
        place as int == first_index(list@, wanted),
{
    let mut index: usize = 0;
    while index < list.len()
        invariant
            index <= list.len(),
            forall|i: int| 0 <= i < index ==> list@[i] != wanted,
        decreases list.len() - index,
    {
        if list[index] == wanted {
            proof {
                lemma_first_index_is(list@, wanted, index as int);
            }
            return index;
        }
        index += 1;
    }
    proof {
        lemma_first_index_is(list@, wanted, index as int);
    }
    index
}

/// Parts an option into its name and the value it carries.
fn split_option<'a>(token: &'a str, list: &Vec<char>) -> (parts: (&'a str, Option<&'a str>))
    requires
        list@ == token@,
    ensures
        parts.0@ == name_part(token@),
        piece_text(parts.1) == value_part(token@),
{
    if list.len() >= 2 && list[0] == '-' && list[1] == '-' {
        let cut = find_first(list, '=');
        if cut < list.len() {
            let name = token.substring_char(0, cut);
            let value = token.substring_char(cut + 1, list.len());
            assert(token@.take(cut as int) == token@.subrange(0, cut as int));
            assert(token@.skip(cut + 1) == token@.subrange(cut + 1, list.len() as int));
            return (name, Some(value));
        }
    }
    (token, None)
}

/// What an option's name means in a part of the command line.
fn slot(scope: Scope, name: &str) -> (found: Option<Slot>)
    ensures
        found == slot_of(scope, name@),
{
    if same_text(name, "--help") || same_text(name, "-h") {
        return Some(Slot::Help);
    }
    match scope {
        Scope::Program => {
            if same_text(name, "--config") || same_text(name, "-c") {
                Some(Slot::First)
            } else if same_text(name, "--log-level") || same_text(name, "-l") {
                Some(Slot::Second)
            } else if same_text(name, "--version") || same_text(name, "-V") {
                Some(Slot::Version)
            } else {
                None
            }
        },
        Scope::Index => {
            if same_text(name, "--branch") || same_text(name, "-b") {
                Some(Slot::First)
            } else if same_text(name, "--verbose") || same_text(name, "-v") {
                Some(Slot::Flag)
            } else {
                None
            }
        },
        Scope::Update => {
            if same_text(name, "--force") || same_text(name, "-f") {
                Some(Slot::Flag)
            } else {
                None
            }
        },
        Scope::Query => {
            if same_text(name, "--limit") || same_text(name, "-l") {
                Some(Slot::First)
            } else if same_text(name, "--format") || same_text(name, "-f") {
                Some(Slot::Second)
            } else {
                None
            }
        },
    }
}

/// The command that a name stands for.
fn command_named(name: &str) -> (found: Option<Scope>)
    ensures
        found == scope_named(name@),
{
    if same_text(name, "index") {
        Some(Scope::Index)
    } else if same_text(name, "update") {
        Some(Scope::Update)
    } else if same_text(name, "query") {
        Some(Scope::Query)
    } else {
        None
    }
}

/// Whether `found` is what `expected` describes.
spec fn matches_part(found: Result<(Part, usize), UsageError>, expected: Result<
    (Gathered, int),
    UsageError,
>) -> bool {
    match expected {
        Ok((gathered, at)) => found matches Ok((part, end)) && part@ == gathered && end == at,
        Err(error) => found matches Err(e) && e == error,
    }
}

/// The value of the option at `at`: the one it carries or the next argument.
/// The second part of the result is the place of the argument after it.
fn value_at(args: &Vec<&str>, at: usize, carried: Option<&str>) -> (found: Option<(String, usize)>)
    requires
        at < args.len(),
    ensures
        match found {
            Some((value, next)) => match carried {
                Some(text) => value@ == text@ && next == at + 1,
                None => at + 1 < args.len() && value@ == args@[at + 1]@ && next == at + 2,
            },
            None => carried is None && at + 1 >= args.len(),
        },
{
    match carried {
        Some(text) => Some((text.to_owned(), at + 1)),
        None => {
            if at + 1 < args.len() {
                Some((args[at + 1].to_owned(), at + 2))
            } else {
                None
            }
        },
    }
}

/// Reads one part of the command line from the argument `start` on.
fn read(scope: Scope, args: &Vec<&str>, start: usize) -> (found: Result<(Part, usize), UsageError>)
    ensures
        matches_part(found, read_part(scope, argument_texts(args@), start as int, nothing())),
{
    let ghost tokens = argument_texts(args@);
    let mut part = Part { first: None, second: None, flag: false, argument: None };
    let mut at: usize = start;
    while at < args.len()
        invariant
            tokens == argument_texts(args@),
            read_part(scope, tokens, start as int, nothing()) == read_part(
                scope,
                tokens,
                at as int,
                part@,
            ),
        decreases args.len() - at,
    {
        let token: &str = args[at];
        assert(tokens[at as int] == token@);
        assert(at + 1 < args.len() ==> tokens[at + 1] == args@[at + 1]@);
        let list = characters(token);
        if list.len() >= 2 && list[0] == '-' {
            let (name, carried) = split_option(token, &list);
            match slot(scope, name) {
                None => {
                    return Err(UsageError::UnknownOption);
                },
                Some(Slot::Help) => {
                    return Err(UsageError::HelpRequested);
                },
                Some(Slot::Version) => {
                    return Err(UsageError::VersionRequested);
                },
                Some(Slot::Flag) => {
                    if carried.is_some() {
                        return Err(UsageError::UnexpectedValue);
                    }
                    if part.flag {
                        return Err(UsageError::RepeatedOption);
                    }
                    part.flag = true;
                    at += 1;
                },
                Some(Slot::First) => {
                    if part.first.is_some() {
                        return Err(UsageError::RepeatedOption);
                    }
                    match value_at(args, at, carried) {
                        Some((value, next)) => {
                            part.first = Some(value);
                            at = next;
                        },
                        None => {
                            return Err(UsageError::MissingValue);
                        },
                    }
                },
                Some(Slot::Second) => {
                    if part.second.is_some() {
                        return Err(UsageError::RepeatedOption);
                    }
                    match value_at(args, at, carried) {
                        Some((value, next)) => {
                            part.second = Some(value);
                            at = next;
                        },
                        None => {
                            return Err(UsageError::MissingValue);
                        },
                    }
                },
            }
        } else {
            match scope {
                Scope::Program => {
                    return Ok((part, at));
                },
                _ => {
                    if part.argument.is_some() {
                        return Err(UsageError::UnexpectedArgument);
                    }
                    part.argument = Some(token.to_owned());
                    at += 1;
                },
            }
        }
    }
    Ok((part, at))
}

/// Reads a limit: a number in decimal digits that fits.
pub fn limit(text: &str) -> (found: Option<usize>)
    ensures
        match limit_of(text@) {
            Some(number) => found == Some(number as usize),
            None => found is None,
        },
{
    let list = characters(text);
    if list.len() == 0 {
        return None;
    }
    let mut value: usize = 0;
    let mut index: usize = 0;
    assert(list@.take(0).len() == 0);
    while index < list.len()
        invariant
            index <= list.len(),
            list@ == text@,
            forall|i: int| 0 <= i < index ==> '0' <= #[trigger] list@[i] <= '9',
            value == number_of(list@.take(index as int)),
        decreases list.len() - index,
    {
        let c = list[index];
        if c < '0' || c > '9' {
            return None;
        }
        let digit = (c as u32 - '0' as u32) as usize;
        proof {
            assert(list@.take(index + 1).drop_last() == list@.take(index as int));
            assert(list@.take(index + 1).last() == c);
            lemma_number_grows(list@, index + 1);
        }
        let scaled = match value.checked_mul(10) {
            Some(scaled) => scaled,
            None => {
                return None;
            },
        };
        value = match scaled.checked_add(digit) {
            Some(sum) => sum,
            None => {
                return None;
            },
        };
        index += 1;
    }
    assert(list@.take(index as int) == list@);
    Some(value)
}

/// The value of an option, or the default where it was not given.
fn value_or(given: Option<String>, default: &str) -> (value: String)
    ensures
        value@ == or_default(value_text(given), default@),
{
    match given {
        Some(value) => value,
        None => default.to_owned(),
    }
}

/// Whether `found` is what `expected` describes.
pub open spec fn matches_parsed(found: Result<Cli, UsageError>, expected: Result<
    CliView,
    UsageError,
>) -> bool {
    match expected {
        Ok(cli) => found matches Ok(c) && c@ == cli,
        Err(error) => found matches Err(e) && e == error,
    }
}

/// Builds the command from what its part of the command line held.
fn command_from(scope: Scope, local: Part) -> (found: Result<Command, UsageError>)
    requires
        scope != Scope::Program,
    ensures
        match command_of(scope, local@) {
            Ok(command) => found matches Ok(c) && c@ == command,
            Err(error) => found matches Err(e) && e == error,
        },
{
    let Part { first, second, flag, argument } = local;
    let argument = match argument {
        Some(argument) => argument,
        None => {
            return Err(UsageError::MissingArgument);
        },
    };
    match scope {
        Scope::Index => Ok(
            Command::Index(
                IndexCommand { repo_url: argument, branch: value_or(first, "main"), verbose: flag },
            ),
        ),
        Scope::Update => Ok(Command::Update(UpdateCommand { payload_file: argument, force: flag })),
        _ => {
            let number = value_or(first, "10");
            match limit(number.as_str()) {
                Some(limit) => Ok(
                    Command::Query(
                        QueryCommand { query: argument, limit, format: value_or(second, "text") },
                    ),
                ),
                None => Err(UsageError::InvalidNumber),
            }
        },
    }
}

impl Cli {
    /// Reads a command line. The first argument is the program's name.
    pub fn parse_from(args: Vec<&str>) -> (found: Result<Cli, UsageError>)
        ensures
            matches_parsed(found, parsed(argument_texts(args@))),
    {
        let (program, at) = match read(Scope::Program, &args, 1) {
            Ok(found) => found,
            Err(error) => {
                return Err(error);
            },
        };
        if at < 1 || at >= args.len() {
            return Err(UsageError::MissingCommand);
        }
        assert(argument_texts(args@)[at as int] == args@[at as int]@);
        let scope = match command_named(args[at]) {
            Some(scope) => scope,
            None => {
                return Err(UsageError::UnknownCommand);
            },
        };
        let local = match read(scope, &args, at + 1) {
            Ok((local, _)) => local,
            Err(error) => {
                return Err(error);
            },
        };
        let command = match command_from(scope, local) {
            Ok(command) => command,
            Err(error) => {
                return Err(error);
            },
        };
        let Part { first, second, flag: _, argument: _ } = program;
        Ok(Cli { config: first, log_level: value_or(second, "info"), command })
    }

    /// The level at which the program was asked to log.
    pub fn get_log_level(&self) -> (level: Result<LogLevel, Error>)
        ensures
            matches_level(level, parsed_level(self.log_level@)),
    {
        LogLevel::parse(self.log_level.as_str())
    }
}

} // verus!
