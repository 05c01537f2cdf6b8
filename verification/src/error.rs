//! The errors that end a launch before the target program starts.

use vstd::prelude::*;
use vstd::string::*;

verus! {

/// The launcher's own configuration is unusable. Always fatal at startup.
#[derive(Debug, PartialEq, Eq)]
pub enum ConfigError {
    /// The embedded identifier `name` holds no NUL byte.
    MissingTerminator { name: String },
    /// The bytes of the embedded identifier `name` before its terminator are
    /// not valid UTF-8.
    InvalidEncoding { name: String },
    /// No cache root was given and the platform names no local data directory.
    NoDataDir,
}

impl ConfigError {
    /// The diagnostic text of this error, as a sequence of characters.
    pub open spec fn message_text(&self) -> Seq<char> {
        match self {
            ConfigError::MissingTerminator { name } => name@ + " has no NUL terminator"@,
            ConfigError::InvalidEncoding { name } => "Can't convert "@ + name@ + " CStr to str"@,
            ConfigError::NoDataDir => "No data local dir found"@,
        }
    }

    /// The diagnostic text of this error.
    pub fn message(&self) -> (text: String)
        ensures
            text@ == self.message_text(),
    {
        match self {
            ConfigError::MissingTerminator { name } => {
                let mut text = name.clone();
                text.append(" has no NUL terminator");
                text
            },
            ConfigError::InvalidEncoding { name } => {
                let mut text = String::from_str("Can't convert ");
                text.append(name.as_str());
                text.append(" CStr to str");
                text
            },
            ConfigError::NoDataDir => String::from_str("No data local dir found"),
        }
    }
}

/// The work of the caller that can fail a launch.
#[derive(Clone, Copy, Debug, PartialEq, Eq, Structural)]
pub enum Stage {
    /// Reading the modification times of the cache entry and of the executable.
    Probe,
    /// Unpacking the payload into the cache entry.
    Extract,
    /// Running the target program.
    Execute,
}

/// Why a launch ended without the exit code of the target program.
#[derive(Debug, PartialEq, Eq)]
pub enum LaunchError {
    /// The launcher's configuration is unusable.
    Config(ConfigError),
    /// The caller reports that the work of `stage` failed; `detail` is its
    /// account of the failure.
    Io { stage: Stage, detail: String },
    /// The caller answered the request for `stage` with a report that is no
    /// answer to it.
    OutOfTurn { stage: Stage },
}

/// What a stage is called in diagnostics.
pub open spec fn stage_text(stage: Stage) -> Seq<char> {
    match stage {
        Stage::Probe => "reading modification times"@,
        Stage::Extract => "unpacking the payload"@,
        Stage::Execute => "running the target"@,
    }
}

/// What a stage is called in diagnostics.
pub fn stage_name(stage: Stage) -> (name: &'static str)
    ensures
        name@ == stage_text(stage),
{
    match stage {
        Stage::Probe => "reading modification times",
        Stage::Extract => "unpacking the payload",
        Stage::Execute => "running the target",
    }
}

impl LaunchError {
    /// The diagnostic text of this error, as a sequence of characters.
    pub open spec fn message_text(&self) -> Seq<char> {
        match self {
            LaunchError::Config(e) => e.message_text(),
            LaunchError::Io { stage, detail } => stage_text(*stage) + " failed: "@ + detail@,
            LaunchError::OutOfTurn { stage } => stage_text(*stage) + " was answered out of turn"@,
        }
    }

    /// The diagnostic text of this error.
    pub fn message(&self) -> (text: String)
        ensures
            text@ == self.message_text(),
    {
        match self {
            LaunchError::Config(e) => e.message(),
            LaunchError::Io { stage, detail } => {
                let mut text = String::from_str(stage_name(*stage));
                text.append(" failed: ");
                text.append(detail.as_str());
                text
            },
            LaunchError::OutOfTurn { stage } => {
                let mut text = String::from_str(stage_name(*stage));
                text.append(" was answered out of turn");
                text
            },
        }
    }
}

} // verus!
