//! Verified core of two small wire-protocol command-line tools: one issues
//! register reads and writes against a Modbus TCP device, the other
//! subscribes, publishes and lists subjects on a NATS messaging server.
//!
//! This crate holds the decision and formatting logic of both tools with
//! contracts: request construction with defaults, decimal and hexadecimal
//! rendering of register values, authentication-configuration validation,
//! payload decoding for subscriptions, subject deduplication and filtering,
//! and connection-event severity mapping. The network I/O itself is left to
//! the thin binary around this crate.

pub mod auth;
pub mod events;
pub mod format;
pub mod registers;
pub mod subjects;
pub mod subscribe;
