//! How the standard streams of a spawned command are set up.

use vstd::prelude::*;

verus! {

/// What a child's standard stream is connected to.
#[derive(Clone, Copy, Debug, PartialEq, Eq, Structural)]
pub enum StdioMode {
    /// The null device: the stream is suppressed.
    Null,
    /// A new pipe whose other end the parent keeps.
    Piped,
}

/// The setup of a child's standard streams.
#[derive(Clone, Copy, Debug, PartialEq, Eq, Structural)]
pub struct CommandStdio {
    /// The child's standard input.
    pub stdin: StdioMode,
    /// The child's standard output.
    pub stdout: StdioMode,
    /// The child's standard error.
    pub stderr: StdioMode,
}

impl CommandStdio {
    /// The setup for reading what a command prints: its output is piped and
    /// its other streams are suppressed.
    pub fn for_reading() -> (stdio: Self)
        ensures
            stdio == (CommandStdio {
                stdin: StdioMode::Null,
                stdout: StdioMode::Piped,
                stderr: StdioMode::Null,
            }),
    {
        CommandStdio { stdin: StdioMode::Null, stdout: StdioMode::Piped, stderr: StdioMode::Null }
    }

    /// The setup for writing to a command: its input is piped and its other
    /// streams are suppressed.
    pub fn for_writing() -> (stdio: Self)
        ensures
            stdio == (CommandStdio {
                stdin: StdioMode::Piped,
                stdout: StdioMode::Null,
                stderr: StdioMode::Null,
            }),
    {
        CommandStdio { stdin: StdioMode::Piped, stdout: StdioMode::Null, stderr: StdioMode::Null }
    }

    /// The setup for talking to a command: both its input and its output are
    /// piped, and its standard error is suppressed.
    pub fn for_interaction() -> (stdio: Self)
        ensures
            stdio == (CommandStdio {
                stdin: StdioMode::Piped,
                stdout: StdioMode::Piped,
                stderr: StdioMode::Null,
            }),
    {
        CommandStdio { stdin: StdioMode::Piped, stdout: StdioMode::Piped, stderr: StdioMode::Null }
    }
}

} // verus!
