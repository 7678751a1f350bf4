//! An in-memory registry of items and the request handlers of the service
//! that exposes it.
//!
//! The registry is an ordered list of items, each an identifier with a name.
//! Identifiers are supplied by the caller and need not be unique; the
//! operations that look an item up by identifier act on the first match.

pub mod handlers;
pub mod item;
pub mod laws;
pub mod registry;
pub mod response;
