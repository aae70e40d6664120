//! A generic RPC call dispatcher: a path-based router over method
//! descriptors, four call-shape adapters (unary, server-streaming,
//! client-streaming, bidirectional), and the codec, compression and
//! message-size negotiation they share.
//!
//! The transport (framing, connections) and the concrete message schema are
//! external collaborators: payloads enter and leave as opaque byte messages,
//! and handlers are supplied by the application behind the traits in
//! [`adapter`].

pub mod adapter;
pub mod codec;
pub mod compiler;
pub mod domain;
pub mod message;
pub mod router;
pub mod status;
