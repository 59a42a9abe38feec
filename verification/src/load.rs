//! From what reading the configuration file gave to a configuration.

use crate::config::{Cause, Config, FatalError, FatalErrorView};
use vstd::prelude::*;
use vstd::string::StringExecFns;

verus! {

/// The exit code after a fatal error in loading the configuration.
pub const EXIT_FATAL: i32 = 1;

/// What reading the configuration file gave.
#[derive(Debug, PartialEq, Eq)]
pub enum FileRead {
    /// The file's text is a TOML document: the configuration it holds.
    Parsed(Config),
    /// The file's text is no TOML document, with the parser's message.
    Invalid(String),
    /// There is no file at that path.
    Missing,
    /// The file is there but reading it failed, with the system's message.
    Failed(String),
}

/// A `FileRead` with its strings as sequences of characters.
pub enum FileReadView {
    Parsed(Config),
    Invalid(Seq<char>),
    Missing,
    Failed(Seq<char>),
}

impl View for FileRead {
    type V = FileReadView;

    open spec fn view(&self) -> FileReadView {
        match self {
            FileRead::Parsed(config) => FileReadView::Parsed(*config),
            FileRead::Invalid(message) => FileReadView::Invalid(message@),
            FileRead::Missing => FileReadView::Missing,
            FileRead::Failed(message) => FileReadView::Failed(message@),
        }
    }
}

/// How loading ended.
#[derive(Debug, PartialEq, Eq)]
pub enum Load {
    /// The file was read and parsed.
    Loaded(Config),
    /// There is no file: the defaults apply. This is no error.
    Defaults(Config),
    /// The file is there and cannot be used.
    Fatal(FatalError),
}

/// A `Load` with its error's message as a sequence of characters.
pub enum LoadView {
    Loaded(Config),
    Defaults(Config),
    Fatal(FatalErrorView),
}

impl View for Load {
    type V = LoadView;

    open spec fn view(&self) -> LoadView {
        match self {
            Load::Loaded(config) => LoadView::Loaded(*config),
            Load::Defaults(config) => LoadView::Defaults(*config),
            Load::Fatal(error) => LoadView::Fatal(error@),
        }
    }
}

/// How loading ends for each thing that reading can give: a document is
/// loaded, a missing file gives the defaults, and the rest is fatal, with a
/// parse error that carries the parser's message or an I/O error that
/// carries the system's.
pub open spec fn loaded(read: FileReadView) -> LoadView {
    match read {
        FileReadView::Parsed(config) => LoadView::Loaded(config),
        FileReadView::Invalid(message) => LoadView::Fatal(
            FatalErrorView { cause: Cause::Parse, message },
        ),
        FileReadView::Missing => LoadView::Defaults(Config {}),
        FileReadView::Failed(message) => LoadView::Fatal(
            FatalErrorView { cause: Cause::Io, message },
        ),
    }
}

/// The line that reports a fatal error: `cannot load <path>: <message>`.
pub open spec fn fatal_text(path: Seq<char>, message: Seq<char>) -> Seq<char> {
    "cannot load "@ + path + ": "@ + message
}

/// Decides how loading ends from what reading the file gave.
pub fn load(read: FileRead) -> (outcome: Load)
    ensures
        outcome@ == loaded(read@),
{
    match read {
        FileRead::Parsed(config) => Load::Loaded(config),
        FileRead::Invalid(message) => Load::Fatal(FatalError { cause: Cause::Parse, message }),
        FileRead::Missing => Load::Defaults(Config::default()),
        FileRead::Failed(message) => Load::Fatal(FatalError { cause: Cause::Io, message }),
    }
}

/// The line to print for a fatal error in loading the file shown as `path`.
pub fn fatal_message(path: &str, error: &FatalError) -> (text: String)
    ensures
        text@ == fatal_text(path@, error@.message),
{
    let mut text = String::from_str("cannot load ");
    text.append(path);
    text.append(": ");
    text.append(error.message.as_str());
    text
}

/// Only a missing file gives the defaults, and it always does: that the file
/// is missing is never an error.
pub proof fn lemma_defaults_iff_missing(read: FileReadView)
    ensures
        loaded(read) is Defaults <==> read is Missing,
        read is Missing ==> loaded(read) == LoadView::Defaults(Config {}),
{
}

/// Every document loads, whatever keys it holds, and gives the one
/// configuration there is; nothing but a document loads.
pub proof fn lemma_loaded_iff_parsed(read: FileReadView)
    ensures
        loaded(read) is Loaded <==> read is Parsed,
        read is Parsed ==> loaded(read) == LoadView::Loaded(Config {}),
{
}

/// Loading is fatal exactly where the file is there and cannot be used. The
/// error tells what went wrong and carries the message that came with it: a
/// parse error the parser's, an I/O error the system's.
pub proof fn lemma_fatal_iff_unusable(read: FileReadView)
    ensures
        loaded(read) is Fatal <==> read is Invalid || read is Failed,
        read matches FileReadView::Invalid(message) ==> loaded(read) == LoadView::Fatal(
            FatalErrorView { cause: Cause::Parse, message },
        ),
        read matches FileReadView::Failed(message) ==> loaded(read) == LoadView::Fatal(
            FatalErrorView { cause: Cause::Io, message },
        ),
{
}

} // verus!
