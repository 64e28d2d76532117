use p2p_relay::address::{AddressRange, IpAddress, Ipv4Address, PeerAddress};
use p2p_relay::config::{default_listen_port, PeerConfig};
use p2p_relay::error::RelayError;
use p2p_relay::proxy::{relay_outcome, route, Route, BAD_REQUEST};
use p2p_relay::server::{
    backend_for, interface_name, private_key_bytes, stored_private_key, Backend, Peer, Platform,
    Server, TunnelApi,
};

fn v4(range: &str) -> (Ipv4Address, u8) {
    let parsed = AddressRange::parse(range).unwrap();
    match parsed.address {
        IpAddress::V4(addr) => (addr, parsed.cidr),
        IpAddress::V6(_) => panic!("expected an IPv4 range"),
    }
}

fn server_at(address: IpAddress, cidr: u8) -> Server {
    Server {
        public_key: [9u8; 32],
        address,
        cidr,
        port: 51820,
        wgapi: TunnelApi::open(Backend::Kernel, "wgtest".to_string()).unwrap(),
    }
}

fn peer_config(label: &str, key: &str, port: u16) -> PeerConfig {
    PeerConfig { label: label.to_string(), public_key: key.to_string(), port }
}

fn peer(a: u8, b: u8, c: u8, d: u8, port: u16) -> Peer {
    Peer {
        label: "app".to_string(),
        address: PeerAddress::new(Ipv4Address::new(a, b, c, d), 24),
        port,
    }
}

#[test]
fn test_next_address() {
    let (addr, cidr) = v4("10.8.0.1/30");
    let first_addr = PeerAddress::new(addr, cidr);
    let next_addr = first_addr.next_address();
    assert!(next_addr.is_some());
    let next_addr = next_addr.unwrap();
    assert_eq!("10.8.0.2", &next_addr.ip_address.to_string());
    let last_addr = next_addr.next_address();
    assert!(last_addr.is_some());
    let last_addr = last_addr.unwrap();
    assert_eq!("10.8.0.3", &last_addr.ip_address.to_string());
    assert_eq!(last_addr.next_address(), None);
}

#[test]
fn allocation_from_network_address_counts_hosts() {
    let (addr, cidr) = v4("192.168.4.0/29");
    let mut current = PeerAddress::new(addr, cidr);
    let mut handed_out = Vec::new();
    while let Some(next) = current.next_address() {
        assert!(next.ip_address.to_bits() > current.ip_address.to_bits());
        handed_out.push(next.ip_address.to_string());
        current = next;
    }
    assert_eq!(handed_out.len(), 7);
    assert_eq!(handed_out[0], "192.168.4.1");
    assert_eq!(handed_out[6], "192.168.4.7");
}

#[test]
fn allocation_in_small_blocks() {
    let (addr, _) = v4("10.0.0.0/32");
    assert_eq!(PeerAddress::new(addr, 32).next_address(), None);
    let single = PeerAddress::new(addr, 31).next_address().unwrap();
    assert_eq!(single.ip_address.to_string(), "10.0.0.1");
    assert_eq!(single.next_address(), None);
}

#[test]
fn allocation_never_wraps_past_the_last_address() {
    let last = PeerAddress::new(Ipv4Address::from_bits(u32::MAX), 0);
    assert_eq!(last.next_address(), None);
    let first = PeerAddress::new(Ipv4Address::from_bits(0), 0).next_address().unwrap();
    assert_eq!(first.ip_address.to_string(), "0.0.0.1");
}

#[test]
fn peer_addresses_compare_by_ip_and_mask() {
    let a = PeerAddress::new(Ipv4Address::new(10, 8, 0, 2), 24);
    let b = PeerAddress::new(Ipv4Address::new(10, 8, 0, 2), 24);
    let c = PeerAddress::new(Ipv4Address::new(10, 8, 0, 2), 16);
    assert_eq!(a, b);
    assert_ne!(a, c);
    assert_eq!(a.mask_bits, 0xff);
}

#[test]
fn dotted_quad_text() {
    assert_eq!(Ipv4Address::new(255, 0, 100, 9).to_string(), "255.0.100.9");
    assert_eq!(Ipv4Address::new(10, 8, 0, 1).to_bits(), 0x0a08_0001);
    assert_eq!(Ipv4Address::from_bits(0xc0a8_0101).to_string(), "192.168.1.1");
}

#[test]
fn parse_address_ranges() {
    let r = AddressRange::parse("10.8.0.0/24").unwrap();
    assert_eq!(r.address, IpAddress::V4(Ipv4Address::new(10, 8, 0, 0)));
    assert_eq!(r.cidr, 24);
    let bare = AddressRange::parse("10.11.12.13").unwrap();
    assert_eq!(bare.cidr, 32);
    let v6 = AddressRange::parse("fd00::1/64").unwrap();
    assert_eq!(v6.address, IpAddress::V6(0xfd00_0000_0000_0000_0000_0000_0000_0001));
    assert_eq!(v6.cidr, 64);
    assert_eq!(AddressRange::parse("10.8.0.0/33"), Err(RelayError::InvalidAddressRange));
    assert_eq!(AddressRange::parse("10.8.0.256/24"), Err(RelayError::InvalidAddressRange));
    assert_eq!(AddressRange::parse("tunnel"), Err(RelayError::InvalidAddressRange));
}

#[test]
fn populate_requires_ipv4_endpoint() {
    let mut server = server_at(IpAddress::V6(1), 64);
    let peers = vec![peer_config("a", "AAECAwQFBgcICQoLDA0OD/Dh0sO0pZaHeGlaSzwtHg8=", 8080)];
    assert_eq!(server.create_peers(&peers).unwrap_err(), RelayError::Ipv4required);
}

#[test]
fn populate_beyond_capacity_is_out_of_addresses() {
    let (addr, _) = v4("10.8.0.0/32");
    let mut server = server_at(IpAddress::V4(addr), 32);
    let peers = vec![peer_config("a", "AAECAwQFBgcICQoLDA0OD/Dh0sO0pZaHeGlaSzwtHg8=", 8080)];
    assert_eq!(server.create_peers(&peers).unwrap_err(), RelayError::OutOfAddresses);
}

#[test]
fn populate_with_no_peers_is_empty() {
    let (addr, _) = v4("10.8.0.0/32");
    let mut server = server_at(IpAddress::V4(addr), 32);
    assert!(server.create_peers(&Vec::new()).unwrap().is_empty());
}

#[test]
fn populate_rejects_malformed_key() {
    let (addr, cidr) = v4("10.8.0.0/24");
    let mut server = server_at(IpAddress::V4(addr), cidr);
    let peers = vec![peer_config("a", "not a key", 8080)];
    assert_eq!(server.create_peers(&peers).unwrap_err(), RelayError::InvalidKey);
}

#[test]
fn empty_registry_gives_no_content() {
    assert!(matches!(route(&Vec::new(), "/foo", Some("/foo?x=1")), Route::NoContent));
    assert!(matches!(route(&Vec::new(), "/", None), Route::NoContent));
}

#[test]
fn forwards_to_first_peer_with_query() {
    let peers = vec![peer(10, 8, 0, 2, 8080), peer(10, 8, 0, 3, 9090)];
    match route(&peers, "/foo", Some("/foo?x=1")) {
        Route::Forward(uri) => assert_eq!(uri, "http://10.8.0.2:8080/foo?x=1"),
        Route::NoContent => panic!("expected a forward"),
    }
    match route(&peers, "/bar", None) {
        Route::Forward(uri) => assert_eq!(uri, "http://10.8.0.2:8080/bar"),
        Route::NoContent => panic!("expected a forward"),
    }
}

#[test]
fn transport_failure_is_bad_request_and_isolated() {
    let failed: Result<&str, &str> = Err("connection refused");
    assert_eq!(relay_outcome(failed), Err(400));
    assert_eq!(BAD_REQUEST, 400);
    let peers = vec![peer(10, 8, 0, 9, 65535)];
    match route(&peers, "/health", None) {
        Route::Forward(uri) => assert_eq!(uri, "http://10.8.0.9:65535/health"),
        Route::NoContent => panic!("expected a forward"),
    }
    let healthy: Result<&str, &str> = Ok("upstream body");
    assert_eq!(relay_outcome(healthy), Ok("upstream body"));
}

#[test]
fn platform_choices() {
    assert_eq!(interface_name(Platform::Linux), "wg0");
    assert_eq!(interface_name(Platform::FreeBsd), "wg0");
    assert_eq!(interface_name(Platform::MacOs), "utun3");
    assert_eq!(backend_for(Platform::MacOs), Backend::Userspace);
    assert_eq!(backend_for(Platform::Linux), Backend::Kernel);
}

#[test]
fn error_messages_and_defaults() {
    assert_eq!(RelayError::Ipv4required.message(), "Only IP v4 addresses are supported");
    assert_eq!(
        RelayError::OutOfAddresses.message(),
        "No more available addresses in address range"
    );
    assert_eq!(default_listen_port(), 51820);
}

#[test]
fn stored_private_keys_are_decoded() {
    let from_base64 = stored_private_key("AAECAwQFBgcICQoLDA0OD/Dh0sO0pZaHeGlaSzwtHg8=").unwrap();
    assert_eq!(from_base64[0], 0);
    assert_eq!(from_base64[15], 15);
    assert_eq!(from_base64[16], 0xf0);
    assert_eq!(from_base64[31], 0x0f);
    let hex = "000102030405060708090a0b0c0d0e0ff0e1d2c3b4a5968778695a4b3c2d1e0f";
    assert_eq!(stored_private_key(hex), Some(from_base64));
    assert_eq!(stored_private_key("AAEC"), None);
    assert_eq!(stored_private_key(""), None);
}

#[test]
fn stored_private_key_is_kept_and_fresh_keys_differ() {
    let stored = [7u8; 32];
    assert_eq!(private_key_bytes(Some(stored)), stored);
    assert_ne!(private_key_bytes(None), private_key_bytes(None));
}
