//! The configuration record and the error that ends a program without one.

use vstd::prelude::*;

verus! {

/// The program's settings. There are none yet, so every configuration is the
/// default one and a document's keys are all unknown to it.
#[derive(Debug, Clone, Copy, PartialEq, Eq, Structural)]
pub struct Config {}

impl Default for Config {
    fn default() -> (config: Config)
        ensures
            config == (Config {}),
    {
        Config {}
    }
}

/// There is one configuration only: each equals the default.
pub proof fn lemma_config_is_default(config: Config)
    ensures
        config == (Config {}),
{
}

/// Why a configuration file could not be used.
#[derive(Debug, Clone, Copy, PartialEq, Eq, Structural)]
pub enum Cause {
    /// The file is there but could not be read as text.
    Io,
    /// The file's text is not a TOML document.
    Parse,
}

/// An error that ends the program: its cause and the message that came with it.
#[derive(Debug, PartialEq, Eq)]
pub struct FatalError {
    pub cause: Cause,
    pub message: String,
}

/// A fatal error with its message as a sequence of characters.
pub struct FatalErrorView {
    pub cause: Cause,
    pub message: Seq<char>,
}

impl View for FatalError {
    type V = FatalErrorView;

    open spec fn view(&self) -> FatalErrorView {
        FatalErrorView { cause: self.cause, message: self.message@ }
    }
}

} // verus!
