//! The error taxonomy of the configuration subsystem.
//!
//! Every fallible operation returns one of these kinds, so that a caller can
//! branch on what went wrong: a missing pointer file is the expected state
//! before first setup, a malformed file needs the user to fix their JSON, and
//! a validation failure names the offending rule.

use vstd::prelude::*;

verus! {

/// What can go wrong while loading or saving the configuration.  Each
/// variant carries a human-readable reason.
#[derive(Debug)]
pub enum MaestroError {
    /// The well-known pointer file is absent or unreadable: the tool has not
    /// been configured yet.
    ConfigNotFound(String),
    /// The pointer file exists but does not hold a well-formed pointer
    /// record.
    PointerParseError(String),
    /// The pointer dereferences to a user configuration file that is absent
    /// or unreadable: the pointer is stale.
    UserConfigNotFound(String),
    /// The user configuration file does not hold a well-formed collection of
    /// workspaces.
    UserConfigParseError(String),
    /// The user configuration parsed, but a workspace entry breaks a
    /// validation rule; the payload is the rule's own message.
    ValidationError(String),
    /// The path handed to the save operation does not exist or could not be
    /// resolved to an absolute form.
    PathResolutionError(String),
    /// The pointer file could not be created or written.
    WriteError(String),
}

impl MaestroError {
    /// The reason carried by the error, whichever kind it is.
    pub fn message(&self) -> (m: &str)
        ensures
            m@ == self.reason(),
    {
        match self {
            MaestroError::ConfigNotFound(s) => s.as_str(),
            MaestroError::PointerParseError(s) => s.as_str(),
            MaestroError::UserConfigNotFound(s) => s.as_str(),
            MaestroError::UserConfigParseError(s) => s.as_str(),
            MaestroError::ValidationError(s) => s.as_str(),
            MaestroError::PathResolutionError(s) => s.as_str(),
            MaestroError::WriteError(s) => s.as_str(),
        }
    }

    /// The reason carried by the error, as a sequence of characters.
    pub open spec fn reason(&self) -> Seq<char> {
        match self {
            MaestroError::ConfigNotFound(s) => s@,
            MaestroError::PointerParseError(s) => s@,
            MaestroError::UserConfigNotFound(s) => s@,
            MaestroError::UserConfigParseError(s) => s@,
            MaestroError::ValidationError(s) => s@,
            MaestroError::PathResolutionError(s) => s@,
            MaestroError::WriteError(s) => s@,
        }
    }
}

} // verus!
