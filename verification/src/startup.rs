//! The order of a program's start: parse the command line, resolve the
//! configuration directory, read the file, and go on or leave.
//!
//! Each step of the program hands what it found to the function for that
//! step, which says what to do next. The program does the work itself:
//! nothing here reads a file, prints, or leaves the process.

use crate::config::Config;
use crate::dirs::{ConfigFile, ConfigFileView};
use crate::load::{
    fatal_message, fatal_text, load, loaded, FileRead, FileReadView, Load, LoadView, EXIT_FATAL,
};
use vstd::prelude::*;

verus! {

/// The program's version, as the command line reports it.
pub const VERSION: &'static str = "0.1.0";

/// What the command-line parser made of the arguments.
#[derive(Debug, Clone, Copy, PartialEq, Eq, Structural)]
pub enum ParsedArgs {
    /// The arguments were taken: the program runs.
    Accepted,
    /// The parser has shown the version, the help or an error, and names the
    /// exit code itself.
    Stopped,
}

/// What the program is to do next.
#[derive(Debug, PartialEq, Eq)]
pub enum Action {
    /// Resolve the place of the configuration file.
    ResolveDirectory,
    /// Read the configuration file at this place.
    ReadFile(ConfigFile),
    /// Go on with this configuration.
    Run(Config),
    /// Leave as the command-line parser directs.
    Leave,
    /// Print the message to standard error and leave with the code.
    Fail { message: String, code: i32 },
}

/// An `Action` with its strings as sequences of characters.
pub enum ActionView {
    ResolveDirectory,
    ReadFile(ConfigFileView),
    Run(Config),
    Leave,
    Fail { message: Seq<char>, code: i32 },
}

impl View for Action {
    type V = ActionView;

    open spec fn view(&self) -> ActionView {
        match self {
            Action::ResolveDirectory => ActionView::ResolveDirectory,
            Action::ReadFile(file) => ActionView::ReadFile(file@),
            Action::Run(config) => ActionView::Run(*config),
            Action::Leave => ActionView::Leave,
            Action::Fail { message, code } => ActionView::Fail { message: message@, code: *code },
        }
    }
}

/// The step after the command line was parsed: on, where the arguments were
/// taken; out, where the parser stopped.
pub open spec fn parsed_step(arguments: ParsedArgs) -> ActionView {
    match arguments {
        ParsedArgs::Accepted => ActionView::ResolveDirectory,
        ParsedArgs::Stopped => ActionView::Leave,
    }
}

/// The step after the directory was resolved: read the file, or run on the
/// defaults where no directory could be had.
pub open spec fn resolved_step(file: Option<ConfigFileView>) -> ActionView {
    match file {
        Some(file) => ActionView::ReadFile(file),
        None => ActionView::Run(Config {}),
    }
}

/// The step after loading ended: run on the configuration, or fail with the
/// report of the error for the file shown as `path`.
pub open spec fn loaded_step(path: Seq<char>, outcome: LoadView) -> ActionView {
    match outcome {
        LoadView::Loaded(config) => ActionView::Run(config),
        LoadView::Defaults(config) => ActionView::Run(config),
        LoadView::Fatal(error) => ActionView::Fail {
            message: fatal_text(path, error.message),
            code: EXIT_FATAL,
        },
    }
}

/// Whether an action ends the start: no step follows it.
pub open spec fn is_final(action: ActionView) -> bool {
    action is Run || action is Leave || action is Fail
}

/// Where a start ends, given what each step finds if it is reached: the
/// parser's verdict, the place resolved, and what reading the file shown as
/// `path` gives. The steps follow each other in this order and none is
/// taken twice.
pub open spec fn start(
    arguments: ParsedArgs,
    file: Option<ConfigFileView>,
    path: Seq<char>,
    read: FileReadView,
) -> ActionView {
    match parsed_step(arguments) {
        ActionView::ResolveDirectory => match resolved_step(file) {
            ActionView::ReadFile(_) => loaded_step(path, loaded(read)),
            action => action,
        },
        action => action,
    }
}

/// Every start ends, after three steps at most. Where the parser stopped it
/// ends there, whatever resolving and reading would have found. It fails
/// exactly where the arguments were taken, a place was resolved and loading
/// from it is fatal; in every other case with accepted arguments the
/// program runs.
pub proof fn lemma_start_ends(
    arguments: ParsedArgs,
    file: Option<ConfigFileView>,
    path: Seq<char>,
    read: FileReadView,
)
    ensures
        is_final(start(arguments, file, path, read)),
        arguments is Stopped ==> start(arguments, file, path, read) == ActionView::Leave,
        start(arguments, file, path, read) is Fail <==> arguments is Accepted && file is Some
            && loaded(read) is Fatal,
        start(arguments, file, path, read) is Run <==> arguments is Accepted && (file is None
            || !(loaded(read) is Fatal)),
{
}

/// A parser that stopped ends the start: no directory is resolved and no file
/// read. The directory is resolved only after the arguments were taken.
pub proof fn lemma_stopped_parser_ends_start(arguments: ParsedArgs)
    ensures
        arguments is Stopped ==> parsed_step(arguments) == ActionView::Leave,
        parsed_step(arguments) is ResolveDirectory <==> arguments is Accepted,
        !(parsed_step(arguments) is ReadFile),
{
}

/// That no directory could be resolved, or that the file is missing, is never
/// a failure: the program runs on the defaults.
pub proof fn lemma_defaults_when_nothing_to_read(path: Seq<char>)
    ensures
        resolved_step(None) == ActionView::Run(Config {}),
        loaded_step(path, loaded(FileReadView::Missing)) == ActionView::Run(Config {}),
{
}

/// The program fails exactly where loading is fatal, and then with the code
/// for a fatal error and the report that names the path and the error.
pub proof fn lemma_fails_iff_fatal(path: Seq<char>, read: FileReadView)
    ensures
        loaded_step(path, loaded(read)) is Fail <==> loaded(read) is Fatal,
        loaded(read) matches LoadView::Fatal(error) ==> loaded_step(path, loaded(read))
            == (ActionView::Fail { message: fatal_text(path, error.message), code: EXIT_FATAL }),
        !(loaded(read) is Fatal) ==> loaded_step(path, loaded(read)) == ActionView::Run(Config {}),
{
}

/// Says what follows the parsing of the command line.
pub fn after_arguments(arguments: ParsedArgs) -> (action: Action)
    ensures
        action@ == parsed_step(arguments),
{
    match arguments {
        ParsedArgs::Accepted => Action::ResolveDirectory,
        ParsedArgs::Stopped => Action::Leave,
    }
}

/// Says what follows the resolving of the configuration file's place. That
/// no place could be resolved is no error: the defaults apply.
pub fn after_directory(file: Option<ConfigFile>) -> (action: Action)
    ensures
        action@ == resolved_step(file.deep_view()),
{
    match file {
        Some(file) => Action::ReadFile(file),
        None => Action::Run(Config::default()),
    }
}

/// Says what follows the reading of the configuration file, shown in
/// messages as `path`.
pub fn after_read(path: &str, read: FileRead) -> (action: Action)
    ensures
        action@ == loaded_step(path@, loaded(read@)),
{
    match load(read) {
        Load::Loaded(config) => Action::Run(config),
        Load::Defaults(config) => Action::Run(config),
        Load::Fatal(error) => Action::Fail {
            message: fatal_message(path, &error),
            code: EXIT_FATAL,
        },
    }
}

} // verus!
