//! The ways a request to this library can be turned down.

use vstd::prelude::*;
use vstd::string::StringExecFns;

verus! {

/// Why a request was rejected. None of these is fatal: the session goes on
/// and only the request at hand is dropped.
#[derive(Debug, Clone, Copy, PartialEq, Eq, Structural)]
pub enum LuascanError {
    /// The configured runtime cannot be parsed.
    UnsupportedDialect,
    /// The request is not valid in the session's current phase.
    InvalidState,
    /// The workspace root named in the handshake does not exist.
    RootMissing,
    /// No workspace root was set, so there is nothing to index.
    RootNotSet,
    /// The document's URI does not name a filesystem path.
    NoFilePath,
    /// The document's path does not lead to an existing file.
    NotAFile,
    /// The document is not a Lua source file.
    NotLua,
    /// The notification carried no text to parse.
    NoText,
}

impl LuascanError {
    /// The text shown for each error.
    pub open spec fn message_text(self) -> Seq<char> {
        match self {
            LuascanError::UnsupportedDialect => "unsupported lua runtime version"@,
            LuascanError::InvalidState => "request is not valid in the current session state"@,
            LuascanError::RootMissing => "failed to set root path: it does not exist"@,
            LuascanError::RootNotSet => "failed to get root path"@,
            LuascanError::NoFilePath => "uri does not name a file path"@,
            LuascanError::NotAFile => "path is not an existing file"@,
            LuascanError::NotLua => "document is not a lua source file"@,
            LuascanError::NoText => "notification carries no text"@,
        }
    }

    /// A human-readable description of the error.
    pub fn message(&self) -> (text: String)
        ensures
            text@ == self.message_text(),
    {
        match self {
            LuascanError::UnsupportedDialect => String::from_str("unsupported lua runtime version"),
            LuascanError::InvalidState => String::from_str(
                "request is not valid in the current session state",
            ),
            LuascanError::RootMissing => String::from_str(
                "failed to set root path: it does not exist",
            ),
            LuascanError::RootNotSet => String::from_str("failed to get root path"),
            LuascanError::NoFilePath => String::from_str("uri does not name a file path"),
            LuascanError::NotAFile => String::from_str("path is not an existing file"),
            LuascanError::NotLua => String::from_str("document is not a lua source file"),
            LuascanError::NoText => String::from_str("notification carries no text"),
        }
    }
}

/// What is said of a workspace root that is not on disk: the path, in
/// double quotes, between a fixed opening and a fixed ending.
pub open spec fn missing_root_text(path: Seq<char>) -> Seq<char> {
    "failed to set root path. \""@ + path + "\" is not existed."@
}

/// Builds the message for a workspace root that is not on disk. It names
/// the path, which the error value itself does not carry.
pub fn missing_root_message(path: &str) -> (text: String)
    ensures
        text@ == missing_root_text(path@),
{
    let mut text = String::from_str("failed to set root path. \"");
    text.append(path);
    text.append("\" is not existed.");
    text
}

} // verus!
