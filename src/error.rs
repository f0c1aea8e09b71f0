//! The errors that preparing or finishing a build can report.
use vstd::prelude::*;
use crate::text::join3;

verus! {

/// Kind of error that was encountered.
#[derive(Clone, Copy, Debug, PartialEq, Eq, Structural)]
pub enum ErrorKind {
    /// A required environment variable is absent.
    EnvVarNotFound,
    /// The target architecture has no Go name.
    InvalidGOARCH,
    /// The target operating system has no Go name.
    InvalidGOOS,
    /// The Go tool could not be started, or it failed.
    ToolExecError,
}

impl ErrorKind {
    /// The name of the kind, as it is written in front of a message.
    pub open spec fn spec_name(self) -> Seq<char> {
        match self {
            ErrorKind::EnvVarNotFound => "EnvVarNotFound"@,
            ErrorKind::InvalidGOARCH => "InvalidGOARCH"@,
            ErrorKind::InvalidGOOS => "InvalidGOOS"@,
            ErrorKind::ToolExecError => "ToolExecError"@,
        }
    }

    /// The name of the kind.
    pub fn name(&self) -> (r: &'static str)
        ensures
            r@ == self.spec_name(),
    {
        match self {
            ErrorKind::EnvVarNotFound => "EnvVarNotFound",
            ErrorKind::InvalidGOARCH => "InvalidGOARCH",
            ErrorKind::InvalidGOOS => "InvalidGOOS",
            ErrorKind::ToolExecError => "ToolExecError",
        }
    }
}

/// An error that occurred, with an explanation for people to read.
#[derive(Clone, Debug)]
pub struct Error {
    pub kind: ErrorKind,
    pub message: String,
}

impl Error {
    /// An error of the given kind with the given message.
    pub fn new(kind: ErrorKind, message: &str) -> (r: Error)
        ensures
            r.kind == kind,
            r.message@ == message@,
    {
        Error { kind, message: message.to_owned() }
    }

    /// The kind of the error.
    pub fn kind(&self) -> (r: ErrorKind)
        ensures
            r == self.kind,
    {
        self.kind
    }

    /// The explanation of the error.
    pub fn message(&self) -> (r: &str)
        ensures
            r@ == self.message@,
    {
        self.message.as_str()
    }

    /// The error as one line: the kind's name, a colon, and the message.
    pub fn to_string(&self) -> (r: String)
        ensures
            r@ == self.kind.spec_name() + ": "@ + self.message@,
    {
        join3(self.kind.name(), ": ", self.message.as_str())
    }
}

} // verus!
