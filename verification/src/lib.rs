//! Server-side authentication handshake for a PostgreSQL-style wire
//! protocol.
//!
//! The library is the handshake coordinator: a state machine that consumes
//! one inbound protocol message at a time and decides what the transport
//! must do next. It challenges the connecting identity with a salted
//! password scheme, validates the response against a credential fetched
//! from a credential source, and drives the connection to exactly one
//! terminal outcome: an authenticated session or a rejected, closed one.
//!
//! All I/O — reading frames, fetching credentials, sending challenges and
//! rejections — is left to the surrounding transport, which feeds messages
//! and credentials in and carries the returned [`protocol::Command`]s out.

pub mod coordinator;
pub mod laws;
pub mod protocol;
