//! Supervision of the desktop shell's companion backend server.
//!
//! The library decides; the host performs. It holds the launch candidates,
//! the single-handle supervisor slot, the start and restart sequences as
//! step functions, the shutdown plan and the diagnostic text. Spawning,
//! signalling, waiting, sleeping and probing the socket are done by the host,
//! which feeds each outcome back into the step functions.
pub mod decimal;
pub mod info;
pub mod locator;
pub mod platform;
pub mod probe;
pub mod restart;
pub mod start;
pub mod supervisor;
