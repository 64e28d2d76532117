//! A relay that terminates a WireGuard tunnel, hands each configured peer an
//! address inside the tunnel's block and forwards HTTP requests to a peer.
pub mod address;
pub mod config;
pub mod error;
pub mod wireguard;
pub mod server;
pub mod proxy;
