//! Client-side real-time messaging channel: a connection controller that
//! turns application commands into wire frames, decodes inbound frames into
//! typed events, and keeps the connection state machine consistent.
//!
//! The transport itself (socket handshake, frame I/O) is the host's concern;
//! every decision the controller takes — which sources to poll, what frame to
//! write, how state moves on every outcome — is verified here.

pub mod client;
pub mod codec;
pub mod controller;
pub mod errors;
pub mod wire;
