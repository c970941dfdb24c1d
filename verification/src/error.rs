//! The failures that the provisioning core reports.

use vstd::prelude::*;
use vstd::string::*;

verus! {

/// A failure of the provisioning core, with the context that names its subject.
#[derive(Debug, Clone)]
pub enum Error {
    /// The identifier is neither `owner/repo` nor a URL.
    InvalidIdentifier { identifier: String, reason: String },
    /// The remote has no normal form: it is no URL, or a URL without a host.
    InvalidRemote { remote: String, reason: String },
    /// Paranoid mode refused a plugin that the trust rule does not trust.
    RefusedUntrustedPlugin { name: String, url: String },
    /// The user declined to install the plugin.
    PluginNotInstalled { name: String },
    /// Computing the value of a cache entry failed.
    CacheComputeError { reason: String },
    /// The stored entry of a cache at `path` could not be read.
    CacheIOError { path: String, reason: String },
    /// Cloning or updating the repository of plugin `name` at `path` failed.
    GitOperationError { name: String, path: String, reason: String },
    /// The directory at `path` could not be removed.
    RemovalError { path: String, reason: String },
    /// An experimental feature was asked for while the experimental setting is off.
    ExperimentalRequired { feature: String },
}

impl Error {
    /// The text of the failure.
    pub open spec fn spec_message(self) -> Seq<char> {
        match self {
            Error::InvalidIdentifier { identifier, reason } => "Invalid version: "@ + identifier@
                + ": "@ + reason@,
            Error::InvalidRemote { remote, reason } => "Invalid remote: "@ + remote@ + ": "@
                + reason@,
            Error::RefusedUntrustedPlugin { name, url } =>
                "Paranoid mode is enabled, refusing to install community-developed plugin"@,
            Error::PluginNotInstalled { name } => name@ + " is not installed"@,
            Error::CacheComputeError { reason } => "Failed to compute cache entry: "@ + reason@,
            Error::CacheIOError { path, reason } => "Failed to read cache file "@ + path@ + ": "@
                + reason@,
            Error::GitOperationError { name, path, reason } => "plugin:"@ + name@ + " at "@ + path@
                + ": "@ + reason@,
            Error::RemovalError { path, reason } => "Failed to remove directory "@ + path@ + ": "@
                + reason@,
            Error::ExperimentalRequired { feature } => feature@
                + " is experimental and the experimental setting is off"@,
        }
    }

    /// The text of the failure, as a string.
    pub fn message(&self) -> (text: String)
        ensures
            text@ == self.spec_message(),
    {
        match self {
            Error::InvalidIdentifier { identifier, reason } => {
                let mut text = String::from_str("Invalid version: ");
                text.append(identifier.as_str());
                text.append(": ");
                text.append(reason.as_str());
                text
            },
            Error::InvalidRemote { remote, reason } => {
                let mut text = String::from_str("Invalid remote: ");
                text.append(remote.as_str());
                text.append(": ");
                text.append(reason.as_str());
                text
            },
            Error::RefusedUntrustedPlugin { name: _, url: _ } => String::from_str(
                "Paranoid mode is enabled, refusing to install community-developed plugin",
            ),
            Error::PluginNotInstalled { name } => {
                let mut text = name.clone();
                text.append(" is not installed");
                text
            },
            Error::CacheComputeError { reason } => {
                let mut text = String::from_str("Failed to compute cache entry: ");
                text.append(reason.as_str());
                text
            },
            Error::CacheIOError { path, reason } => {
                let mut text = String::from_str("Failed to read cache file ");
                text.append(path.as_str());
                text.append(": ");
                text.append(reason.as_str());
                text
            },
            Error::GitOperationError { name, path, reason } => {
                let mut text = String::from_str("plugin:");
                text.append(name.as_str());
                text.append(" at ");
                text.append(path.as_str());
                text.append(": ");
                text.append(reason.as_str());
                text
            },
            Error::RemovalError { path, reason } => {
                let mut text = String::from_str("Failed to remove directory ");
                text.append(path.as_str());
                text.append(": ");
                text.append(reason.as_str());
                text
            },
            Error::ExperimentalRequired { feature } => {
                let mut text = feature.clone();
                text.append(" is experimental and the experimental setting is off");
                text
            },
        }
    }
}

} // verus!
