//! A QUIC latency bench.

pub mod aggregator;
pub mod block;
pub mod burst_client;
pub mod dcid_server;
pub mod echo_client;
pub mod handshake;
pub mod laws;
pub mod packet;
pub mod ping_client;
pub mod publisher;
pub mod quic_client;
pub mod quic_config;
pub mod registry;
pub mod schedule;
pub mod server;
pub mod subscriber;
pub mod transport;
