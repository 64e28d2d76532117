//! The calls into defguard_wireguard_rs, x25519-dalek and base64 that the
//! tunnel endpoint makes. Each item here is taken on trust; its doc comment
//! names the outside function and what is relied on.
use crate::address::{AddressRange, IpAddress, Ipv4Address};
use base64::prelude::BASE64_STANDARD;
use base64::Engine;
use defguard_wireguard_rs::error::WireguardInterfaceError;
use defguard_wireguard_rs::key::Key;
use defguard_wireguard_rs::net::{IpAddrMask, IpAddrParseError};
use defguard_wireguard_rs::peer::Peer as WgPeer;
use defguard_wireguard_rs::{InterfaceConfiguration, Kernel, Userspace, WGApi, WireguardInterfaceApi};
use std::str::FromStr;
use vstd::prelude::*;
use x25519_dalek::{PublicKey, StaticSecret};

verus! {

/// defguard's `WGApi`: a handle on one WireGuard interface, carried unread.
#[verifier::external_type_specification]
#[verifier::external_body]
#[verifier::reject_recursive_types(API)]
pub struct ExWGApi<API>(WGApi<API>);

/// defguard's marker for the kernel backend.
#[verifier::external_type_specification]
#[verifier::external_body]
pub struct ExKernel(Kernel);

/// defguard's marker for the userspace backend.
#[verifier::external_type_specification]
#[verifier::external_body]
pub struct ExUserspace(Userspace);

/// defguard's error for a failed interface operation, carried unread.
#[verifier::external_type_specification]
#[verifier::external_body]
pub struct ExWireguardInterfaceError(WireguardInterfaceError);

/// defguard's error for a text that is not `address/prefix`.
#[verifier::external_type_specification]
#[verifier::external_body]
pub struct ExIpAddrParseError(IpAddrParseError);

/// What `IpAddrMask::from_str` makes of a text: the address and prefix length
/// of an `address/prefix` text, or `None` where it rejects the text.
pub uninterp spec fn ip_range_of(s: Seq<char>) -> Option<AddressRange>;

/// The 32 bytes that `Key::from_str` decodes from a text (64 hex digits, or
/// base64 of 32 bytes), or `None` where it rejects the text.
pub uninterp spec fn key_of(s: Seq<char>) -> Option<Seq<u8>>;

/// The bytes of the X25519 public key that `PublicKey::from(&StaticSecret)`
/// derives from the private key bytes `secret`.
pub uninterp spec fn x25519_public_key(secret: Seq<u8>) -> Seq<u8>;

/// What standard base64 with padding makes of some bytes.
pub uninterp spec fn base64_of(b: Seq<u8>) -> Seq<char>;

/// Relies on `IpAddrMask::from_str`: it parses `address/prefix` (or a bare
/// address, with the full prefix) and rejects a prefix longer than the
/// address family allows.
#[verifier::external_body]
pub(crate) fn parse_ip_addr_mask(s: &str) -> (r: Result<AddressRange, IpAddrParseError>)
    ensures
        r matches Ok(a) ==> ip_range_of(s@) == Some(a) && a.wf(),
        r is Err ==> ip_range_of(s@) is None,
{
    let mask = IpAddrMask::from_str(s)?;
    let address = match mask.address {
        core::net::IpAddr::V4(a) => IpAddress::V4(Ipv4Address { bits: a.to_bits() }),
        core::net::IpAddr::V6(a) => IpAddress::V6(a.to_bits()),
    };
    Ok(AddressRange { address, cidr: mask.cidr })
}

/// Relies on `Key::from_str` and `Key::as_array`: the key decoded from hex or base64.
#[verifier::external_body]
pub(crate) fn parse_key(s: &str) -> (r: Option<[u8; 32]>)
    ensures
        r matches Some(b) ==> key_of(s@) == Some(b@),
        r is None ==> key_of(s@) is None,
{
    Key::from_str(s).ok().map(|k| k.as_array())
}

/// Relies on `StaticSecret::random` and `StaticSecret::to_bytes`: 32 bytes of
/// a fresh private key from the system's random source.
#[verifier::external_body]
pub(crate) fn random_secret_bytes() -> (r: [u8; 32]) {
    StaticSecret::random().to_bytes()
}

/// Relies on `StaticSecret::from([u8; 32])`, `PublicKey::from(&StaticSecret)`
/// and `PublicKey::to_bytes`: the public half of the private key whose bytes
/// are `secret`.
#[verifier::external_body]
pub(crate) fn public_key_for(secret: &[u8; 32]) -> (r: [u8; 32])
    ensures
        r@ == x25519_public_key(secret@),
{
    PublicKey::from(&StaticSecret::from(*secret)).to_bytes()
}

/// Relies on `Engine::encode` of `BASE64_STANDARD`: standard base64 with
/// padding, four ASCII characters for each started group of three bytes.
#[verifier::external_body]
pub(crate) fn encode_base64(bytes: &[u8; 32]) -> (r: String)
    ensures
        r@ == base64_of(bytes@),
        r@.len() == 44,
{
    BASE64_STANDARD.encode(bytes)
}

/// Relies on `WGApi::<Kernel>::new`: a handle on the kernel interface `ifname`.
#[verifier::external_body]
pub(crate) fn kernel_api(ifname: String) -> (r: Result<WGApi<Kernel>, WireguardInterfaceError>) {
    WGApi::<Kernel>::new(ifname)
}

/// Relies on `WGApi::<Userspace>::new`: a handle on the userspace interface `ifname`.
#[verifier::external_body]
pub(crate) fn userspace_api(ifname: String) -> (r: Result<
    WGApi<Userspace>,
    WireguardInterfaceError,
>) {
    WGApi::<Userspace>::new(ifname)
}

/// Relies on `create_interface` of the kernel backend: creates the interface.
#[verifier::external_body]
pub(crate) fn kernel_create(api: &mut WGApi<Kernel>) -> (r: Result<(), WireguardInterfaceError>) {
    api.create_interface()
}

/// Relies on `create_interface` of the userspace backend: creates the interface.
#[verifier::external_body]
pub(crate) fn userspace_create(api: &mut WGApi<Userspace>) -> (r: Result<
    (),
    WireguardInterfaceError,
>) {
    api.create_interface()
}

/// Relies on `IpAddrMask::new` and `configure_interface` of the kernel backend: sets the private
/// key, the one address with its prefix and the listen port, with no peers.
#[verifier::external_body]
pub(crate) fn kernel_configure(
    api: &WGApi<Kernel>,
    name: String,
    prvkey: String,
    range: AddressRange,
    port: u16,
) -> (r: Result<(), WireguardInterfaceError>) {
    let ip = match range.address {
        IpAddress::V4(a) => core::net::IpAddr::V4(core::net::Ipv4Addr::from_bits(a.bits)),
        IpAddress::V6(b) => core::net::IpAddr::V6(core::net::Ipv6Addr::from_bits(b)),
    };
    let address = IpAddrMask::new(ip, range.cidr);
    let config = InterfaceConfiguration {
        name,
        prvkey,
        addresses: vec![address],
        port,
        peers: vec![],
        mtu: None,
        fwmark: None,
    };
    api.configure_interface(&config)
}

/// Relies on `IpAddrMask::new` and `configure_interface` of the userspace backend: sets the private
/// key, the one address with its prefix and the listen port, with no peers.
#[verifier::external_body]
pub(crate) fn userspace_configure(
    api: &WGApi<Userspace>,
    name: String,
    prvkey: String,
    range: AddressRange,
    port: u16,
) -> (r: Result<(), WireguardInterfaceError>) {
    let ip = match range.address {
        IpAddress::V4(a) => core::net::IpAddr::V4(core::net::Ipv4Addr::from_bits(a.bits)),
        IpAddress::V6(b) => core::net::IpAddr::V6(core::net::Ipv6Addr::from_bits(b)),
    };
    let address = IpAddrMask::new(ip, range.cidr);
    let config = InterfaceConfiguration {
        name,
        prvkey,
        addresses: vec![address],
        port,
        peers: vec![],
        mtu: None,
        fwmark: None,
    };
    api.configure_interface(&config)
}

/// Relies on `Key::new`, `Peer::new`, `IpAddrMask::host` and `configure_peer` of the
/// kernel backend: registers the key with the single allowed address `bits/32`.
#[verifier::external_body]
pub(crate) fn kernel_add_peer(api: &WGApi<Kernel>, key: [u8; 32], bits: u32) -> (r: Result<
    (),
    WireguardInterfaceError,
>) {
    let mut peer = WgPeer::new(Key::new(key));
    let ip = core::net::IpAddr::V4(core::net::Ipv4Addr::from_bits(bits));
    peer.allowed_ips.push(IpAddrMask::host(ip));
    api.configure_peer(&peer)
}

/// Relies on `Key::new`, `Peer::new`, `IpAddrMask::host` and `configure_peer` of the
/// userspace backend: registers the key with the single allowed address `bits/32`.
#[verifier::external_body]
pub(crate) fn userspace_add_peer(api: &WGApi<Userspace>, key: [u8; 32], bits: u32) -> (r: Result<
    (),
    WireguardInterfaceError,
>) {
    let mut peer = WgPeer::new(Key::new(key));
    let ip = core::net::IpAddr::V4(core::net::Ipv4Addr::from_bits(bits));
    peer.allowed_ips.push(IpAddrMask::host(ip));
    api.configure_peer(&peer)
}

/// Relies on `remove_interface` of the kernel backend: removes the interface.
#[verifier::external_body]
pub(crate) fn kernel_remove(api: &WGApi<Kernel>) -> (r: Result<(), WireguardInterfaceError>) {
    api.remove_interface()
}

/// Relies on `remove_interface` of the userspace backend: removes the interface.
#[verifier::external_body]
pub(crate) fn userspace_remove(api: &WGApi<Userspace>) -> (r: Result<
    (),
    WireguardInterfaceError,
>) {
    api.remove_interface()
}

} // verus!
