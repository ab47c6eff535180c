//! Verified core of an HTTP-to-Kafka relay server.

pub mod framing;
pub mod text;
pub mod batching;
pub mod routing;
pub mod memory;
pub mod connection;
pub mod producer;
pub mod containers;
pub mod writer;
pub mod servers;
