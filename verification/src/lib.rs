//! Connection-acceptance and dispatch core of a game login server.
//!
//! The library resolves a configured listen address, models the listener's
//! startup and accept-loop state machine, and dispatches every accepted
//! connection to an independent handler task that carries clones of the
//! shared configuration and key-manager handle. Socket I/O itself is the
//! caller's concern: the library decides, the caller performs.

pub mod addr;
pub mod config;
pub mod keys;
pub mod listener;
