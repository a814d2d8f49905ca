//! Controlled, concurrent access to a duplex serial device.
//!
//! The crate is organised around a small verified core: connection settings
//! and their defaulting rules ([`settings`]), the command protocol and port
//! descriptors ([`types`], [`ports`]), the worker state machine that owns the
//! device ([`worker`]), the replaceable observer slots ([`observers`]), and a
//! sequential model of a whole open-port lifetime against an in-memory device
//! ([`session`]), which is what the threaded runtime around the crate mirrors.

pub mod errors;
pub mod observers;
pub mod ports;
pub mod session;
pub mod settings;
pub mod types;
pub mod worker;
