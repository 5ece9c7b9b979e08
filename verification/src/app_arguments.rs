//! The arguments of the gateway's command line and their validation.

use crate::app_config::PathKind;
use vstd::prelude::*;

verus! {

/// The arguments of the command line.
#[derive(Debug, Clone, PartialEq, Eq)]
pub struct AppArguments {
    /// Path of the config file.
    pub config: String,
}

/// Why the arguments cannot be used.
#[derive(Debug, Clone, Copy, PartialEq, Eq, Structural)]
pub enum ArgumentError {
    /// Nothing exists at the path of the config file.
    Missing,
    /// What exists there is no regular file.
    NotAFile,
}

/// What is wrong with a config file of which the file system says `probe`.
pub open spec fn argument_fault(probe: PathKind) -> Option<ArgumentError> {
    match probe {
        PathKind::Missing => Some(ArgumentError::Missing),
        PathKind::NotAFile => Some(ArgumentError::NotAFile),
        PathKind::File => None,
    }
}

/// The words for a fault of the arguments.
pub open spec fn argument_error_text(e: ArgumentError) -> Seq<char> {
    match e {
        ArgumentError::Missing => "Google credential file does not exist"@,
        ArgumentError::NotAFile => "Google credential file is not a file"@,
    }
}

impl AppArguments {
    /// Checks the arguments against what the file system says of the config
    /// file: it must be a regular file.
    pub fn validate_arguments(&self, probe: PathKind) -> (r: Result<(), ArgumentError>)
        ensures
            match r {
                Ok(()) => argument_fault(probe) is None,
                Err(e) => argument_fault(probe) == Some(e),
            },
    {
        match probe {
            PathKind::Missing => Err(ArgumentError::Missing),
            PathKind::NotAFile => Err(ArgumentError::NotAFile),
            PathKind::File => Ok(()),
        }
    }
}

impl ArgumentError {
    /// Describes the fault.
    pub fn describe(&self) -> (r: &'static str)
        ensures
            r@ == argument_error_text(*self),
    {
        match self {
            ArgumentError::Missing => "Google credential file does not exist",
            ArgumentError::NotAFile => "Google credential file is not a file",
        }
    }
}

} // verus!
