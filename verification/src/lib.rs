//! Layout engine of a scroll-driven compositor with a fixed two-column layout.
//!
//! The crate holds the verified part of the compositor: the configuration, the
//! integer geometry of a column strip, the workspace/column/window model with its
//! focus and reorder operations, the keyboard bindings, and the JSON-RPC 2.0
//! message model of the control socket.

pub mod config;
pub mod geometry;
pub mod layout;
pub mod state;
pub mod input;
pub mod protocol;
pub mod listing;
pub mod laws;
