//! A minimal counter contract: a single counter value plus an owner identity,
//! with state-changing and read-only operations gated by caller identity.
//!
//! The transition engine is pure: every operation takes the durable store as
//! an explicit parameter, mutates it, and returns a typed outcome. The host
//! runtime that persists the store, serializes invocations, and decodes
//! messages lives outside this crate.

pub mod contract;
pub mod dec;
pub mod error;
pub mod msg;
pub mod response;
pub mod state;
