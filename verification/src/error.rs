//! The errors of a build run.

use vstd::prelude::*;

verus! {

/// Why a build could not be started or did not succeed.
#[derive(Debug)]
pub enum BuildError {
    /// The configuration names no source: `url` is absent or not a string.
    MissingUrl,
    /// The packaging tool could not be started; the text is the cause.
    Spawn(String),
    /// The packaging tool reported an error while running; the text is the cause.
    Command(String),
    /// The packaging tool ended with an exit code other than zero.
    NonZeroExit,
}

/// The message that goes with an error.
pub open spec fn message_text(e: BuildError) -> Seq<char> {
    match e {
        BuildError::MissingUrl => "URL is required"@,
        BuildError::Spawn(cause) => "Failed to start pake command: "@ + cause@,
        BuildError::Command(cause) => "Command error: "@ + cause@,
        BuildError::NonZeroExit => "Command terminated with non-zero exit code"@,
    }
}

impl BuildError {
    /// The message shown to the user.
    pub fn message(&self) -> (r: String)
        ensures
            r@ == message_text(*self),
    {
        match self {
            BuildError::MissingUrl => "URL is required".to_owned(),
            BuildError::Spawn(cause) => "Failed to start pake command: ".to_owned().concat(
                cause.as_str(),
            ),
            BuildError::Command(cause) => "Command error: ".to_owned().concat(cause.as_str()),
            BuildError::NonZeroExit => "Command terminated with non-zero exit code".to_owned(),
        }
    }
}

} // verus!
