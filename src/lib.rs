//! Compiles Go packages into C-compatible libraries from a build script.
//!
//! The library decides everything about a `go build` invocation: how the
//! target platform is named for Go, which arguments and environment the
//! command gets, what the produced file is called, and what a finished run
//! means (the metadata directives to print, or a structured error). Running
//! the command and reading the process environment is left to the caller.
use vstd::prelude::*;

pub mod command;
pub mod config;
pub mod error;
pub mod mode;
pub mod report;
pub mod target;
pub mod text;

pub use command::{GoCommand, HostEnv};
pub use config::{Build, BuildView};
pub use error::{Error, ErrorKind};
pub use mode::BuildMode;
pub use report::ToolOutcome;
