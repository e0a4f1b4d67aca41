//! The settings the poller runs with, and the failures that end it.
use vstd::prelude::*;

verus! {

/// The loaded settings: whose review requests to look for, in which
/// repositories (`"owner/repo"` entries), and the access token.
#[derive(Clone, Debug)]
pub struct Config {
    pub username: String,
    pub repos: Vec<String>,
    pub token: String,
}

/// What failed.
#[derive(Clone, Copy, Debug, PartialEq, Eq, Structural)]
pub enum ErrorKind {
    /// The home directory could not be found.
    Environment,
    /// The configuration file could not be read.
    ConfigRead,
    /// The configuration file is malformed or lacks a field.
    ConfigParse,
    /// The authenticated client could not be built.
    ClientBuild,
    /// Listing the pull requests of a repository failed.
    Fetch,
    /// The notification could not be set up, updated or shown.
    Notify,
}

/// The words that open the message of a failure of `kind`.
pub open spec fn kind_label(kind: ErrorKind) -> Seq<char> {
    match kind {
        ErrorKind::Environment => "failed to get home dir"@,
        ErrorKind::ConfigRead => "failed to get config file"@,
        ErrorKind::ConfigParse => "failed to parse config"@,
        ErrorKind::ClientBuild => "failed to build client"@,
        ErrorKind::Fetch => "failed to get blocked"@,
        ErrorKind::Notify => "failed to show notification"@,
    }
}

/// A failure: its kind and what identifies the failing operation (the path
/// tried, the repository, the underlying cause).
#[derive(Clone, Debug)]
pub struct Failure {
    pub kind: ErrorKind,
    pub detail: String,
}

impl Failure {
    /// The text shown for this failure: `label: detail`.
    pub fn message(&self) -> (r: String)
        ensures
            r@ == kind_label(self.kind) + ": "@ + self.detail@,
    {
        let label = match self.kind {
            ErrorKind::Environment => "failed to get home dir",
            ErrorKind::ConfigRead => "failed to get config file",
            ErrorKind::ConfigParse => "failed to parse config",
            ErrorKind::ClientBuild => "failed to build client",
            ErrorKind::Fetch => "failed to get blocked",
            ErrorKind::Notify => "failed to show notification",
        };
        let mut s = label.to_owned();
        s.append(": ");
        s.append(self.detail.as_str());
        s
    }
}

} // verus!
