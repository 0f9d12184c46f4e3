//! A bounded registry of named commands and the dispatcher that runs them.
//!
//! A [`CommandProcessor`] holds at most a fixed number of commands. Each has a
//! unique name, a callback and an optional help text. A command is run by
//! name, with a [`Sink`] for its output if the caller has one; the reserved
//! name `help` lists the help texts instead.
//!
//! The contracts speak of a registry as the sequence of its entries
//! ([`model`]); [`laws`] holds what follows for every registry.

pub mod status;
pub mod name;
pub mod help_text;
pub mod sink;
pub mod model;
pub mod processor;
pub mod laws;

pub use help_text::HelpText;
pub use processor::{CommandCallback, CommandProcessor};
pub use sink::{Sink, WriteFailed};
pub use status::{CommandCallbackReturn, CommandProcessorError, ReturnCode};
