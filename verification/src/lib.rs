//! A verified event-stream state synchronization engine.
//!
//! The library keeps a live in-memory projection of an external window
//! manager's workspaces and windows, and of a machine's hardware sensors,
//! by applying an ordered stream of change events. It holds the codec for
//! the newline-delimited JSON protocol, the state reducer with its
//! invariants, the derived projections handed to consumers, the debouncing
//! rule for filesystem watch notifications, and a model of the multiplexer
//! that merges several event sources. All I/O lives outside the library;
//! everything here is verified.

pub mod api;
pub mod event;
pub mod eww;
pub mod json;
pub mod model;
pub mod mux;
pub mod protocol;
pub mod reducer;
pub mod serialize;
pub mod stacking;
pub mod system;
pub mod watch;
