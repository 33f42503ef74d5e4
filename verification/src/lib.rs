//! pincher_core — the verified core of a reflex engine for AI agents.
//!
//! The library holds the decision logic of the engine: capability
//! manifests and path globbing, the migration state machine and its
//! constraints, the governance rules, the global workspace scheduler,
//! CRDT cell merging and the routing graph of rooms.

pub mod text;
pub mod capability;
pub mod ieee;
pub mod clock;
pub mod guard;
pub mod workspace;
pub mod claws;
pub mod crdt;
pub mod gastrolith;
pub mod governance;
pub mod route;
pub mod embedder;
pub mod resource;
pub mod types;
pub mod context;
pub mod energy;
pub mod phantom;
pub mod migration;
pub mod rpc;
pub mod engine;
pub mod schema;
