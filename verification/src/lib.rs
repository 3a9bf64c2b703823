//! Core of a dynamic plugin host: a registry of loaded plugins keyed by a
//! unique identity string, validation of new identities against duplicates and
//! the reserved manager identity, fan-out planning for domain notifications
//! with commit acknowledgements, and a fire-and-forget command channel sender.
//!
//! The host process around this library performs the unverifiable work:
//! opening native shared libraries, invoking plugin lifecycle hooks, and
//! serving the administrative transport. Every decision those steps depend on
//! is taken here, under a contract.

pub mod errors;
pub mod manager;
pub mod notification;
pub mod rpc;
pub mod sender;
