//! The ways a command can fail, and the text shown for each.

use vstd::prelude::*;
use vstd::string::StringExecFns;

verus! {

/// Why a command failed.
#[derive(Debug)]
pub enum CommandError {
    /// The file system refused an access; holds the system's description.
    Io(String),
    /// A manifest is malformed or does not fit the schema; holds a diagnostic.
    Parse(String),
    /// A stem file is absent; holds the resolved path that was tried.
    NotFound(String),
    /// The converter could not be launched; holds the system's description.
    ProcessStart(String),
    /// The converter ran and reported failure; holds what it wrote to its
    /// standard output and standard error, each without surrounding
    /// whitespace.
    ProcessFailed { stdout: String, stderr: String },
}

/// A `CommandError` with its texts as character sequences.
pub enum ErrorModel {
    Io(Seq<char>),
    Parse(Seq<char>),
    NotFound(Seq<char>),
    ProcessStart(Seq<char>),
    ProcessFailed { stdout: Seq<char>, stderr: Seq<char> },
}

impl View for CommandError {
    type V = ErrorModel;

    open spec fn view(&self) -> ErrorModel {
        match self {
            CommandError::Io(m) => ErrorModel::Io(m@),
            CommandError::Parse(m) => ErrorModel::Parse(m@),
            CommandError::NotFound(p) => ErrorModel::NotFound(p@),
            CommandError::ProcessStart(m) => ErrorModel::ProcessStart(m@),
            CommandError::ProcessFailed { stdout, stderr } => ErrorModel::ProcessFailed {
                stdout: stdout@,
                stderr: stderr@,
            },
        }
    }
}

/// The text that describes an error to the user.
pub open spec fn message_of(e: ErrorModel) -> Seq<char> {
    match e {
        ErrorModel::Io(m) => m,
        ErrorModel::Parse(m) => m,
        ErrorModel::NotFound(p) => "Stem file not found: "@ + p,
        ErrorModel::ProcessStart(m) => "Failed to start process: "@ + m,
        ErrorModel::ProcessFailed { stdout, stderr } => "Processing failed:\n"@ + stdout + "\n"@
            + stderr,
    }
}

impl CommandError {
    /// The descriptive string under which the error reaches the caller.
    pub fn message(&self) -> (text: String)
        ensures
            text@ == message_of(self@),
    {
        match self {
            CommandError::Io(m) => m.clone(),
            CommandError::Parse(m) => m.clone(),
            CommandError::NotFound(p) => {
                let head = String::from_str("Stem file not found: ");
                head.concat(p.as_str())
            },
            CommandError::ProcessStart(m) => {
                let head = String::from_str("Failed to start process: ");
                head.concat(m.as_str())
            },
            CommandError::ProcessFailed { stdout, stderr } => {
                let head = String::from_str("Processing failed:\n");
                head.concat(stdout.as_str()).concat("\n").concat(stderr.as_str())
            },
        }
    }
}

} // verus!
