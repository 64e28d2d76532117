//! What the relay is told at startup: where to listen, the tunnel's block and
//! port, and the peers to register.
use vstd::prelude::*;

verus! {

/// std's `PathBuf`, carried unread.
#[verifier::external_type_specification]
#[verifier::external_body]
pub struct ExPathBuf(std::path::PathBuf);

/// Where the HTTP front door listens.
#[derive(Debug)]
pub struct ProxyConfig {
    pub listen_url: String,
    pub listen_port: u16,
}

/// The tunnel endpoint: where its private key lives, its block in CIDR
/// notation (`10.8.0.0/24`) and its WireGuard listen port.
#[derive(Debug)]
pub struct ServerConfig {
    pub private_key_path: std::path::PathBuf,
    pub ip_range: String,
    pub listen_port: u16,
}

/// A remote peer: a label, its base64 public key, and the port on which its
/// application listens behind the tunnel.
#[derive(Debug)]
pub struct PeerConfig {
    pub label: String,
    pub public_key: String,
    pub port: u16,
}

#[derive(Debug)]
pub struct Configuration {
    pub proxy: ProxyConfig,
    pub server: ServerConfig,
    pub peers: Vec<PeerConfig>,
}

/// The standard WireGuard port.
pub const DEFAULT_LISTEN_PORT: u16 = 51820;

/// The tunnel listen port used when the configuration names none.
pub fn default_listen_port() -> (r: u16)
    ensures
        r == 51820,
{
    DEFAULT_LISTEN_PORT
}

} // verus!
