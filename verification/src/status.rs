//! What a command reports, and how an operation of the registry can fail.

use vstd::prelude::*;

verus! {

/// What a command reports when it has run.
#[derive(Debug, Clone, Copy, PartialEq, Eq, Structural)]
pub enum ReturnCode {
    Success,
    Failure,
}

/// Why an operation of the registry failed.
#[derive(Debug, Clone, Copy, PartialEq, Eq, Structural)]
pub enum CommandProcessorError {
    /// A command of that name is registered already.
    CommandAlreadyExists,
    /// No command of that name is registered.
    CommandNotFound,
    /// The registry holds as many commands as it can.
    CommandListFull,
    /// The sink refused a write.
    WriteError,
    /// The help listing was asked for without a sink to write it to.
    NoWriter,
}

/// What a callback, and with it a dispatch, returns.
pub type CommandCallbackReturn = Result<ReturnCode, CommandProcessorError>;

} // verus!
