//! Heap-free command handling: positional tokens are parsed into typed
//! commands, and commands run through a uniform executor interface whose
//! suspended state lives inline in an adapter.
use vstd::prelude::*;

pub mod command;
pub mod internal;
pub mod num;
pub mod parse;
pub mod text;

pub use command::{CommandExecutor, InlineCommandExecutor, InlineCommandExecutorImpl, InlineDynCommandExecutor, Step};
pub use num::{PrefixedNum, RadixInt};
pub use parse::{finish_args, parse_field, ArgValue, CommandParser};
pub use text::FixedText;

verus! {

/// The failures of parsing a command or one of its values.
#[derive(Debug, Clone, Copy, PartialEq, Eq, Structural)]
pub enum Error {
    /// The tokens ran out before every field had one.
    TooFewArguments,
    /// Tokens were left over after every field had one.
    UnusedArguments,
    /// A token could not be converted into its field's type.
    ArgumentParseError,
    /// Reserved for an integer prefix that is not recognised.
    InvalidIntegerPrefix,
    /// The digits of an integer are invalid for the selected base, or the value does not fit.
    IntegerParseError,
}

} // verus!
