//! Session layer of a client for a strongly consistent key-value store that
//! is reached over remote procedure calls.
//!
//! The library builds the wire requests of every key operation, decodes the
//! answers into text, and drives the life of a watch subscription. Sending the
//! requests is left to the transport that the caller owns.
pub mod error;
pub mod text;
pub mod wire;
pub mod key_values;
pub mod session;
pub mod watch;
pub mod store;
