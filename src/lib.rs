//! Client-side engine for a length-framed, NUL-delimited trading protocol.
//!
//! The library holds the verified core of a session: frame encoding and decoding, the
//! handshake reply, classification and dispatch of inbound messages, the delivery queue
//! with its rotating extraction, correlation of contract queries, identifier allocation,
//! and the `Dormant`/`Live` lifecycle of a connection.

pub mod client;
pub mod decimal;
pub mod kind;
pub mod frame;
pub mod queue;
pub mod accounts;
pub mod ids;
pub mod bootstrap;
pub mod correlation;
pub mod dispatch;
pub mod handshake;
pub mod requests;
