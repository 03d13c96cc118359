//! Fan-out of received offers to websocket clients.

pub mod channel;
