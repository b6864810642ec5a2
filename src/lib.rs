//! Client-side engine of DNS over QUIC: message framing, the shutdown gate of a
//! connection, the defaults of its configuration, and the decisions of the
//! datagram socket adapter.
pub mod adapter;
pub mod config;
pub mod connection;
pub mod framing;
