//! The errors of the development module and the messages they are shown with.
use vstd::prelude::*;

use crate::text::text_of;

verus! {

/// What can go wrong in the development module's own logic.
#[derive(Debug, Clone, PartialEq, Eq)]
pub enum DevError {
    /// The command line named a subcommand that the module does not have.
    UnknownSubcommand(String),
    /// A buildable of this name is already registered.
    DuplicateBuildable(String),
    /// There is no buildable of this name to remove.
    BuildableNotFound(String),
    /// There is no buildable of this name to show.
    NoBuildableNamed(String),
    /// A buildable's configuration lacks the attribute of this path.
    MissingConfigAttribute(String),
    /// A configuration setting (a word of a configuration string) has no `=`.
    MalformedSetting(String),
    /// A line read from the module's pipe has a quote that is never closed.
    UnbalancedQuotes,
    /// Build output arrived for a buildable that has no output buffer (its
    /// message is a bare ellipsis).
    NoOutputBuffer(String),
}

impl DevError {
    /// The message shown for this error.
    pub open spec fn spec_message(self) -> Seq<char> {
        match self {
            DevError::UnknownSubcommand(cmd) => "unknown subcommand '"@ + cmd@ + "'"@,
            DevError::DuplicateBuildable(name) => "A Buildable with the name '"@ + name@
                + "' already exists in this development environment"@,
            DevError::BuildableNotFound(name) => "Buildable with name '"@ + name@
                + "' does not exist in current dev env"@,
            DevError::NoBuildableNamed(name) => "no buildable with name '"@ + name@
                + "' found in current dev environment"@,
            DevError::MissingConfigAttribute(path) => "The config of the Buildable does not have a "@
                + path@ + " attribute"@,
            DevError::MalformedSetting(setting) => "config setting '"@ + setting@
                + "' is not of the form path=value"@,
            DevError::UnbalancedQuotes => "dev module: error spliting the line read from pipe"@,
            DevError::NoOutputBuffer(_) => "..."@,
        }
    }

    /// The message shown for this error.
    pub fn message(&self) -> (r: String)
        ensures
            r@ == self.spec_message(),
    {
        match self {
            DevError::UnknownSubcommand(cmd) => quoted("unknown subcommand '", cmd.as_str(), "'"),
            DevError::DuplicateBuildable(name) => quoted(
                "A Buildable with the name '",
                name.as_str(),
                "' already exists in this development environment",
            ),
            DevError::BuildableNotFound(name) => quoted(
                "Buildable with name '",
                name.as_str(),
                "' does not exist in current dev env",
            ),
            DevError::NoBuildableNamed(name) => quoted(
                "no buildable with name '",
                name.as_str(),
                "' found in current dev environment",
            ),
            DevError::MissingConfigAttribute(path) => quoted(
                "The config of the Buildable does not have a ",
                path.as_str(),
                " attribute",
            ),
            DevError::MalformedSetting(setting) => quoted(
                "config setting '",
                setting.as_str(),
                "' is not of the form path=value",
            ),
            DevError::UnbalancedQuotes => text_of("dev module: error spliting the line read from pipe"),
            DevError::NoOutputBuffer(_) => text_of("..."),
        }
    }
}

/// `before`, `middle` and `after`, one after the other.
pub fn quoted(before: &str, middle: &str, after: &str) -> (r: String)
    ensures
        r@ == before@ + middle@ + after@,
{
    let mut r = text_of(before);
    r.append(middle);
    r.append(after);
    r
}

} // verus!
