//! Typed administrative requests routed to the manager.

use vstd::prelude::*;

verus! {

/// An administrative command for the manager.
///
/// The transport adapter owns the reply channel of each request; this type
/// carries only the payload the manager decides on. Each variant maps onto
/// one operation of the administrative surface.
#[derive(Debug)]
pub enum RpcRequest {
    /// Report the identities of all loaded plugins.
    ListPlugins,
    /// Load a plugin from the artifact at the given filesystem path.
    LoadPlugin { plugin_path: String },
    /// Unload the plugin with the given identity.
    UnloadPlugin { id: String },
}

} // verus!
