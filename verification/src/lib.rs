//! Command-dispatch bridge between a host input-controller engine and a set
//! of named command handlers.
//!
//! The host engine owns the event loop; this crate owns the registry that maps
//! command names to handlers, the dispatch entry point the host calls for every
//! command, the bridge lifecycle that installs that entry point, and the drive
//! loop that pumps the engine tick by tick. Every dispatch either reaches the
//! one handler registered under the name and returns its status, or returns
//! the unhandled sentinel; there is no third outcome.

pub mod handler;
pub mod handlers;
pub mod registry;
pub mod engine;
pub mod bridge;
pub mod marshal;
pub mod laws;
