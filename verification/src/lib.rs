//! Lifecycle management for an embedded columnar query engine: a checked
//! handle registry that owns session contexts and shared runtime
//! environments, issues opaque nonzero handles for them, and destroys each
//! resource exactly once, plus version introspection of the engine.

pub mod engine;
pub mod lifetimes;
pub mod registry;
pub mod version;
