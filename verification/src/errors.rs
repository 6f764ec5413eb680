//! The recoverable errors that a command line can produce.

use vstd::prelude::*;

verus! {

/// Everything that can go wrong while parsing, resolving or executing one
/// command line. Each failing command reports exactly one of these and
/// leaves the editor unchanged.
#[derive(Clone, Copy, Debug, PartialEq, Eq, Structural)]
pub enum EdError {
    /// A run of digits did not fit into a line number.
    AddressParseFailure,
    /// The verb character is not one the editor knows.
    UnknownCommand,
    /// A path-taking verb had its separator but no path after it.
    MissingCommandArgument,
    /// A path-taking verb was followed by something other than a separator.
    ExpectedSeparator,
    /// Input was left over after a complete command had been read.
    ExtraTrailingCharacters,
    /// A resolved line range does not lie within the buffer, or runs
    /// backwards.
    OutOfBoundsAddress,
    /// A write command had no explicit path and no remembered one.
    MissingWritePath,
    /// An edit command had no explicit path and no remembered one.
    MissingFilePath,
}

} // verus!
