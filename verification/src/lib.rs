//! Runtime introspection and instrumentation for generated hierarchical
//! state machines.
//!
//! - [`environment`]: dynamically-typed values and named, read-only value
//!   lookup, used to expose event arguments and state variables.
//! - [`info`]: immutable descriptors of a machine's shape, shared by every
//!   instance of a machine type.
//! - [`live`]: runtime values produced while a machine runs, pairing a
//!   descriptor with live data.
//! - [`event`]: the event monitor, with bounded event and transition
//!   histories, callback registries, and the delivery record that the
//!   notification-ordering contracts are stated against.
//! - [`machines`]: generated-style machines that drive the monitor through
//!   the dispatch protocol, including a state stack with save and restore.

pub mod environment;
pub mod info;
pub mod live;
pub mod event;
pub mod machines;
