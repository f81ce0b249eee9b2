//! Result-index and context-action resolution engine for a launcher plugin
//! that lists container workloads.
//!
//! The library keeps a snapshot of known containers, builds a per-query
//! result index over them, derives the legal action set of each container
//! from its lifecycle state, and resolves activations of a result or of a
//! context-menu entry into the operation to perform.  All I/O (talking to
//! the container runtime, the launcher host protocol) stays outside; the
//! library works on plain values.

pub mod container;
pub mod docker;
pub mod plugin;
pub mod text;
