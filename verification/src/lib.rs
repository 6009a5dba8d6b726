//! Supervisor for a single auxiliary ("sidecar") child process.
//!
//! The library holds the decision logic of a desktop application shell that
//! launches, monitors and terminates exactly one long-running child process
//! and relays its output streams to a presentation layer:
//!
//! - [`registry`] serializes all start/stop decisions and records the handle
//!   of the one live process, if any.
//! - [`relay`] turns each chunk read from the child's output streams into an
//!   event for the presentation layer, decoding bytes lossily so that
//!   malformed input can never crash the relay.
//! - [`commands`] maps the outcomes of those operations to the replies the
//!   presentation layer sees.
//!
//! The host shell performs the actual operating-system work (spawning,
//! killing, event emission) and consults this library for every decision.

pub mod commands;
pub mod registry;
pub mod relay;
