//! Connection-management layer for a QUIC engine.
//!
//! The engine itself (handshake, encryption, congestion control, loss
//! recovery, socket I/O) is an opaque external collaborator; this crate owns
//! the decisions built on top of it: deterministic stream-identifier
//! allocation, readiness and disconnection classification of sampled
//! connection states, classification of raw error codes into a closed error
//! taxonomy, the packet-preparation outcome, and the stable-snapshot
//! protocol for enumerating live connections.

pub mod address;
pub mod connection;
pub mod error;
pub mod registry;
pub mod stream;
