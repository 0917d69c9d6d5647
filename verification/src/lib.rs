//! Core logic of a small multi-client TCP broadcast relay.
//!
//! The crate verifies the coordination and data logic of the relay: the
//! fixed-size worker pool's lifecycle protocol, the wire-frame codec, the
//! registry of live client connections with its fan-out and pruning rules,
//! and the per-connection handler decisions. Everything that touches a
//! socket, a thread or the console lives outside, in a thin shell that
//! drives these functions and performs the actions they decide on.

pub mod frame;
pub mod pool;
pub mod echo;
pub mod reader;
pub mod registry;
