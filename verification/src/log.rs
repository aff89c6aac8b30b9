//! Where the application's log records go.

use vstd::prelude::*;

verus! {

/// Destination of the log records written by the host application.
#[derive(Clone, Copy, Debug, PartialEq, Eq, Structural)]
pub enum LoggerOutput {
    /// A log file in the application's log directory, rotated daily.
    File,
    /// The standard output of the process.
    Stdout,
}

impl Default for LoggerOutput {
    /// Log records go to a file unless the host asks otherwise.
    fn default() -> (output: Self)
        ensures
            output == LoggerOutput::File,
    {
        LoggerOutput::File
    }
}

impl LoggerOutput {
    /// Whether records for this destination carry terminal colour codes.
    pub open spec fn spec_uses_ansi(self) -> bool {
        self == LoggerOutput::Stdout
    }

    /// Colour codes are written to a terminal and kept out of files.
    pub fn uses_ansi(&self) -> (ansi: bool)
        ensures
            ansi == self.spec_uses_ansi(),
    {
        match self {
            LoggerOutput::File => false,
            LoggerOutput::Stdout => true,
        }
    }
}

} // verus!
