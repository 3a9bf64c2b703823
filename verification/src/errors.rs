//! Error taxonomy of the plugin host.

use vstd::prelude::*;
use vstd::string::StringExecFns;

verus! {

/// A failure of a load or unload operation, surfaced to administrative
/// callers. Each variant classifies one underlying failure; `message`
/// renders the human-readable text that the transport reports.
#[derive(Debug)]
pub enum PluginError {
    /// The artifact could not be opened as a native shared library.
    LibraryLoad { detail: String },
    /// The library does not export the reserved constructor symbol.
    SymbolNotFound,
    /// A plugin with this identity is already loaded.
    DuplicateIdentity { id: String },
    /// This identity is the reserved manager identity.
    ReservedIdentity { id: String },
    /// A lifecycle hook of the plugin itself failed.
    LifecycleHook { detail: String },
}

impl PluginError {
    /// The view of the text that `message` returns.
    pub open spec fn spec_message(&self) -> Seq<char> {
        match self {
            PluginError::LibraryLoad { detail } => "failed to open plugin library: "@ + detail@,
            PluginError::SymbolNotFound => "constructor symbol was not found on plugin library"@,
            PluginError::DuplicateIdentity { id } => "plugin with id `"@ + id@
                + "` is already presented on manager"@,
            PluginError::ReservedIdentity { id } => "id `"@ + id@
                + "` is reserved for manager; choose another id for plugin"@,
            PluginError::LifecycleHook { detail } => "plugin lifecycle hook failed: "@ + detail@,
        }
    }

    /// Human-readable description of the failure, reproducing the underlying
    /// cause: the offending identity or the reported detail.
    pub fn message(&self) -> (m: String)
        ensures
            m@ == self.spec_message(),
    {
        match self {
            PluginError::LibraryLoad { detail } => {
                String::from_str("failed to open plugin library: ").concat(detail.as_str())
            },
            PluginError::SymbolNotFound => {
                String::from_str("constructor symbol was not found on plugin library")
            },
            PluginError::DuplicateIdentity { id } => {
                String::from_str("plugin with id `").concat(id.as_str()).concat(
                    "` is already presented on manager",
                )
            },
            PluginError::ReservedIdentity { id } => {
                String::from_str("id `").concat(id.as_str()).concat(
                    "` is reserved for manager; choose another id for plugin",
                )
            },
            PluginError::LifecycleHook { detail } => {
                String::from_str("plugin lifecycle hook failed: ").concat(detail.as_str())
            },
        }
    }
}

} // verus!
