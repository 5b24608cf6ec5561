//! Run-loop core for a native windowed application.
//!
//! This crate is the verified heart of a desktop run loop: it receives
//! native window-system events and user-injected events, converts them
//! deterministically into window-state mutations and emitted domain events,
//! decides per tick whether application state must be recomputed and when
//! the loop should next wake, and accounts for results posted back by
//! background tasks.
//!
//! The native backend (window system, webview, executor) sits outside this
//! crate: the loop receives plain values describing what happened and hands
//! back plain values describing what to do. All decision logic lives here
//! and carries contracts.

pub mod bridge;
pub mod event;
pub mod policy;
pub mod registry;
pub mod runloop;
pub mod tasks;
pub mod window;
