//! A session layer for a small text protocol carried in WebSocket text frames.
//!
//! The crate holds the protocol's logic and proves it: the wire grammar
//! `prefix(context) body`, and the per-connection state machine that turns
//! inbound frames into events and outbound frames. Sockets, timers and the
//! HTTP upgrade live with the embedding application, which feeds this crate
//! plain values and carries out the steps it answers with.

pub mod acceptor;
pub mod connection;
pub mod correlation;
pub mod grammar;
pub mod json;
pub mod query;
pub mod socket_message;
pub mod text;
pub mod trace;

pub use acceptor::{unqueued, READY_QUEUE_CAPACITY};
pub use connection::{Connection, Correlation, Event, Incoming, Step};
pub use query::{ConnectionDetails, QueryParams};
pub use socket_message::{SocketMessage, SocketMessageBuilder, SocketMessageError};
