//! The tunnel endpoint: creating and configuring the WireGuard interface,
//! registering the configured peers at addresses of the tunnel's block, and
//! removing the interface again.
use crate::address::{successor, host_mask, AddressRange, IpAddress, PeerAddress};
use crate::config::{PeerConfig, ServerConfig};
use crate::error::RelayError;
use crate::wireguard::{
    base64_of, encode_base64, ip_range_of, kernel_add_peer, kernel_api, kernel_configure,
    kernel_create, kernel_remove, key_of, parse_ip_addr_mask, parse_key, public_key_for,
    random_secret_bytes, userspace_add_peer, userspace_api, userspace_configure, userspace_create,
    userspace_remove, x25519_public_key,
};
use defguard_wireguard_rs::{Kernel, Userspace, WGApi};
use vstd::prelude::*;

verus! {

/// The operating system family the relay runs on.
#[derive(Clone, Copy, Debug, PartialEq, Eq, Structural)]
pub enum Platform {
    Linux,
    FreeBsd,
    MacOs,
    Other,
}

/// Which WireGuard implementation drives the interface.
#[derive(Clone, Copy, Debug, PartialEq, Eq, Structural)]
pub enum Backend {
    Kernel,
    Userspace,
}

pub open spec fn interface_name_spec(platform: Platform) -> Seq<char> {
    match platform {
        Platform::Linux | Platform::FreeBsd => "wg0"@,
        _ => "utun3"@,
    }
}

pub open spec fn backend_spec(platform: Platform) -> Backend {
    match platform {
        Platform::MacOs => Backend::Userspace,
        _ => Backend::Kernel,
    }
}

/// The name of the tunnel interface: `wg0` where interfaces may be named
/// freely, a `utun` device elsewhere.
pub fn interface_name(platform: Platform) -> (r: String)
    ensures
        r@ == interface_name_spec(platform),
{
    match platform {
        Platform::Linux | Platform::FreeBsd => String::from_str("wg0"),
        _ => String::from_str("utun3"),
    }
}

/// The backend for a platform: the userspace implementation on macOS, the
/// kernel module elsewhere.
pub fn backend_for(platform: Platform) -> (r: Backend)
    ensures
        r == backend_spec(platform),
{
    match platform {
        Platform::MacOs => Backend::Userspace,
        _ => Backend::Kernel,
    }
}

/// A call made on the tunnel interface, with what it was handed and whether
/// it succeeded.
pub enum TunnelOp {
    Create { ok: bool },
    Configure { name: Seq<char>, prvkey: Seq<char>, range: AddressRange, port: u16, ok: bool },
    AddPeer { key: Seq<u8>, bits: u32, ok: bool },
    Remove { ok: bool },
}

pub open spec fn op_ok(op: TunnelOp) -> bool {
    match op {
        TunnelOp::Create { ok } => ok,
        TunnelOp::Configure { ok, .. } => ok,
        TunnelOp::AddPeer { ok, .. } => ok,
        TunnelOp::Remove { ok } => ok,
    }
}

/// The stages of the interface. Each moves only forward; a failed creation
/// or configuration ends in `Failed`, from which nothing is retried.
#[derive(Clone, Copy, Debug, PartialEq, Eq, Structural)]
pub enum Lifecycle {
    Uninitialized,
    InterfaceCreated,
    Configured,
    Disposed,
    Failed,
}

/// The stage that the calls in `log` have brought the interface to.
pub open spec fn stage(log: Seq<TunnelOp>) -> Lifecycle
    decreases log.len(),
{
    if log.len() == 0 {
        Lifecycle::Uninitialized
    } else {
        match log.last() {
            TunnelOp::Create { ok } => if ok {
                Lifecycle::InterfaceCreated
            } else {
                Lifecycle::Failed
            },
            TunnelOp::Configure { ok, .. } => if ok {
                Lifecycle::Configured
            } else {
                Lifecycle::Failed
            },
            TunnelOp::AddPeer { .. } => stage(log.drop_last()),
            TunnelOp::Remove { .. } => Lifecycle::Disposed,
        }
    }
}

/// The handle of one backend.
pub enum TunnelHandle {
    Kernel(WGApi<Kernel>),
    Userspace(WGApi<Userspace>),
}

/// A handle on the tunnel interface, with the calls made on it so far.
pub struct TunnelApi {
    handle: TunnelHandle,
    name: Ghost<Seq<char>>,
    log: Ghost<Seq<TunnelOp>>,
}

impl TunnelApi {
    /// The calls made on the interface, in order.
    pub closed spec fn log(&self) -> Seq<TunnelOp> {
        self.log@
    }

    /// The name of the interface that the handle was opened on.
    pub closed spec fn name(&self) -> Seq<char> {
        self.name@
    }

    pub closed spec fn backend(&self) -> Backend {
        match self.handle {
            TunnelHandle::Kernel(_) => Backend::Kernel,
            TunnelHandle::Userspace(_) => Backend::Userspace,
        }
    }

    pub open spec fn stage(&self) -> Lifecycle {
        stage(self.log())
    }

    /// A handle on the interface `ifname` in the given backend, before any call.
    pub fn open(backend: Backend, ifname: String) -> (r: Result<TunnelApi, RelayError>)
        ensures
            r matches Ok(api) ==> api.backend() == backend && api.name() == ifname@ && api.log()
                == Seq::<TunnelOp>::empty(),
            r matches Err(e) ==> e == RelayError::Interface,
    {
        let ghost name = ifname@;
        let handle = match backend {
            Backend::Kernel => match kernel_api(ifname) {
                Ok(api) => TunnelHandle::Kernel(api),
                Err(_) => return Err(RelayError::Interface),
            },
            Backend::Userspace => match userspace_api(ifname) {
                Ok(api) => TunnelHandle::Userspace(api),
                Err(_) => return Err(RelayError::Interface),
            },
        };
        Ok(TunnelApi { handle, name: Ghost(name), log: Ghost(Seq::empty()) })
    }

    /// Creates the interface.
    pub fn create_interface(&mut self) -> (r: Result<(), RelayError>)
        requires
            old(self).stage() == Lifecycle::Uninitialized,
        ensures
            final(self).backend() == old(self).backend(),
            final(self).name() == old(self).name(),
            final(self).log() == old(self).log().push(TunnelOp::Create { ok: r is Ok }),
            r matches Err(e) ==> e == RelayError::Interface,
    {
        let r = match &mut self.handle {
            TunnelHandle::Kernel(api) => kernel_create(api),
            TunnelHandle::Userspace(api) => userspace_create(api),
        };
        self.log = Ghost(self.log().push(TunnelOp::Create { ok: r is Ok }));
        match r {
            Ok(()) => Ok(()),
            Err(_) => Err(RelayError::Interface),
        }
    }

    /// Gives the interface its name, private key (base64), address with
    /// prefix and listen port, with no peers yet.
    pub fn configure(&mut self, name: String, prvkey: String, range: AddressRange, port: u16) -> (r:
        Result<(), RelayError>)
        requires
            old(self).stage() == Lifecycle::InterfaceCreated,
        ensures
            final(self).backend() == old(self).backend(),
            final(self).name() == old(self).name(),
            final(self).log() == old(self).log().push(
                TunnelOp::Configure { name: name@, prvkey: prvkey@, range, port, ok: r is Ok },
            ),
            r matches Err(e) ==> e == RelayError::Interface,
    {
        let ghost op_name = name@;
        let ghost op_key = prvkey@;
        let r = match &self.handle {
            TunnelHandle::Kernel(api) => kernel_configure(api, name, prvkey, range, port),
            TunnelHandle::Userspace(api) => userspace_configure(api, name, prvkey, range, port),
        };
        self.log = Ghost(
            self.log().push(
                TunnelOp::Configure { name: op_name, prvkey: op_key, range, port, ok: r is Ok },
            ),
        );
        match r {
            Ok(()) => Ok(()),
            Err(_) => Err(RelayError::Interface),
        }
    }

    /// Registers a peer's key with the single allowed address `bits/32`.
    pub fn add_peer(&mut self, key: [u8; 32], bits: u32) -> (r: Result<(), RelayError>)
        requires
            old(self).stage() == Lifecycle::Configured,
        ensures
            final(self).backend() == old(self).backend(),
            final(self).name() == old(self).name(),
            final(self).log() == old(self).log().push(
                TunnelOp::AddPeer { key: key@, bits, ok: r is Ok },
            ),
            final(self).stage() == Lifecycle::Configured,
            r matches Err(e) ==> e == RelayError::Interface,
    {
        let r = match &self.handle {
            TunnelHandle::Kernel(api) => kernel_add_peer(api, key, bits),
            TunnelHandle::Userspace(api) => userspace_add_peer(api, key, bits),
        };
        let ghost before = self.log();
        self.log = Ghost(self.log().push(TunnelOp::AddPeer { key: key@, bits, ok: r is Ok }));
        proof {
            assert(self.log().drop_last() =~= before);
        }
        match r {
            Ok(()) => Ok(()),
            Err(_) => Err(RelayError::Interface),
        }
    }

    /// Removes the interface.
    pub fn remove(&mut self) -> (r: Result<(), RelayError>)
        requires
            old(self).stage() == Lifecycle::Configured,
        ensures
            final(self).backend() == old(self).backend(),
            final(self).name() == old(self).name(),
            final(self).log() == old(self).log().push(TunnelOp::Remove { ok: r is Ok }),
            final(self).stage() == Lifecycle::Disposed,
            r matches Err(e) ==> e == RelayError::Interface,
    {
        let r = match &self.handle {
            TunnelHandle::Kernel(api) => kernel_remove(api),
            TunnelHandle::Userspace(api) => userspace_remove(api),
        };
        self.log = Ghost(self.log().push(TunnelOp::Remove { ok: r is Ok }));
        match r {
            Ok(()) => Ok(()),
            Err(_) => Err(RelayError::Interface),
        }
    }
}

/// The private key of the endpoint: the stored one where there is one, a
/// fresh random key otherwise.
pub fn private_key_bytes(stored_key: Option<[u8; 32]>) -> (r: [u8; 32])
    ensures
        stored_key matches Some(k) ==> r == k,
{
    match stored_key {
        Some(k) => k,
        None => random_secret_bytes(),
    }
}

/// Reads a stored private key: 64 hex digits, or base64 of 32 bytes.
pub fn stored_private_key(text: &str) -> (r: Option<[u8; 32]>)
    ensures
        r matches Some(k) ==> key_of(text@) == Some(k@),
        r is None ==> key_of(text@) is None,
{
    parse_key(text)
}

/// A registered peer: its label, its address in the tunnel's block, and the
/// port on which its application listens.
#[derive(Clone, Debug)]
pub struct Peer {
    pub label: String,
    pub address: PeerAddress,
    pub port: u16,
}

/// The call `op` registered peer `j` of `config`, counted from `start`: its
/// decoded key, at the `j + 1`-th address after `start`.
pub open spec fn registers(op: TunnelOp, start: PeerAddress, config: Seq<PeerConfig>, j: int) -> bool {
    &&& op matches TunnelOp::AddPeer { key, bits, .. }
    &&& key_of(config[j].public_key@) == Some(op->key)
    &&& successor(start, (j + 1) as nat) matches Some(a)
    &&& a.ip_address.bits == op->bits
}

/// From index `from` on, `log` holds exactly `n` calls, registering peers
/// `0 .. n` of `config` in order, and all but possibly the last succeeded.
pub open spec fn registered_in_order(
    log: Seq<TunnelOp>,
    from: int,
    start: PeerAddress,
    config: Seq<PeerConfig>,
    n: int,
) -> bool {
    &&& 0 <= from
    &&& 0 <= n
    &&& log.len() == from + n
    &&& forall|k: int|
        #![trigger log[k]]
        from <= k < from + n ==> registers(log[k], start, config, k - from)
    &&& forall|k: int| #![trigger log[k]] from <= k < from + n - 1 ==> op_ok(log[k])
}

/// The calls that set up the interface: its creation, then its
/// configuration with the platform's interface name, the private key `secret`
/// in base64, the block `range` and the listen `port`; `configured` tells
/// whether the configuration succeeded.
pub open spec fn setup_calls(
    platform: Platform,
    secret: Seq<u8>,
    range: AddressRange,
    port: u16,
    configured: bool,
) -> Seq<TunnelOp> {
    seq![
        TunnelOp::Create { ok: true },
        TunnelOp::Configure {
            name: interface_name_spec(platform),
            prvkey: base64_of(secret),
            range,
            port,
            ok: configured,
        },
    ]
}

/// The local tunnel endpoint.
pub struct Server {
    /// The bytes of the endpoint's public key.
    pub public_key: [u8; 32],
    pub address: IpAddress,
    pub cidr: u8,
    pub port: u16,
    /// The tunnel interface, with the calls made on it.
    pub wgapi: TunnelApi,
}

impl Server {
    /// The endpoint's own address fits its prefix length.
    pub open spec fn wf(&self) -> bool {
        (AddressRange { address: self.address, cidr: self.cidr }).wf()
    }

    pub open spec fn backend(&self) -> Backend {
        self.wgapi.backend()
    }

    /// Where peer allocation starts: the endpoint's own IPv4 address in its
    /// block, or `None` for an IPv6 endpoint.
    pub open spec fn allocation_start(&self) -> Option<PeerAddress> {
        match self.address {
            IpAddress::V4(a) => Some(PeerAddress { ip_address: a, mask_bits: host_mask(self.cidr) }),
            IpAddress::V6(_) => None,
        }
    }

    /// Creates the tunnel interface for `platform` and configures it with a
    /// private key (`stored_key`, or a fresh random key where there is none),
    /// the block's address and prefix, and the listen port of `config`.
    /// The interface is created once, then configured once; the first failure
    /// ends the call, and the opened handle, if any, comes back with the error.
    pub fn create(config: &ServerConfig, platform: Platform, stored_key: Option<[u8; 32]>) -> (r:
        Result<Server, (RelayError, Option<TunnelApi>)>)
        ensures
            r matches Ok(s) ==> {
                &&& s.wf()
                &&& s.port == config.listen_port
                &&& ip_range_of(config.ip_range@) == Some(
                    AddressRange { address: s.address, cidr: s.cidr },
                )
                &&& s.backend() == backend_spec(platform)
                &&& s.wgapi.name() == interface_name_spec(platform)
                &&& s.wgapi.stage() == Lifecycle::Configured
                &&& exists|secret: Seq<u8>|
                    {
                        &&& stored_key matches Some(k) ==> secret == k@
                        &&& s.public_key@ == #[trigger] x25519_public_key(secret)
                        &&& s.wgapi.log() == setup_calls(
                            platform,
                            secret,
                            AddressRange { address: s.address, cidr: s.cidr },
                            config.listen_port,
                            true,
                        )
                    }
            },
            r matches Err((e, None)) ==> e == RelayError::Interface,
            r matches Err((e, Some(api))) ==> {
                &&& api.name() == interface_name_spec(platform)
                &&& api.backend() == backend_spec(platform)
                &&& {
                    ||| e == RelayError::Interface && api.log() == seq![TunnelOp::Create { ok: false }]
                    ||| e == RelayError::InvalidAddressRange && ip_range_of(config.ip_range@) is None
                        && api.log() == seq![TunnelOp::Create { ok: true }]
                    ||| e == RelayError::Interface && (ip_range_of(config.ip_range@) matches Some(range)
                        && exists|secret: Seq<u8>|
                        {
                            &&& stored_key matches Some(k) ==> secret == k@
                            &&& api.log() == #[trigger] setup_calls(
                                platform,
                                secret,
                                range,
                                config.listen_port,
                                false,
                            )
                        })
                }
            },
            ip_range_of(config.ip_range@) is None ==> r is Err,
    {
        let ifname = interface_name(platform);
        let mut wgapi = match TunnelApi::open(backend_for(platform), ifname.clone()) {
            Ok(api) => api,
            Err(e) => return Err((e, None)),
        };
        match wgapi.create_interface() {
            Ok(()) => {},
            Err(e) => return Err((e, Some(wgapi))),
        }
        let secret = private_key_bytes(stored_key);
        let prvkey = encode_base64(&secret);
        let range = match parse_ip_addr_mask(config.ip_range.as_str()) {
            Ok(a) => a,
            Err(_) => return Err((RelayError::InvalidAddressRange, Some(wgapi))),
        };
        let public_key = public_key_for(&secret);
        proof {
            assert(stage(wgapi.log()) == Lifecycle::InterfaceCreated);
        }
        let configured = wgapi.configure(ifname, prvkey, range, config.listen_port);
        proof {
            assert(wgapi.log() =~= setup_calls(
                platform,
                secret@,
                range,
                config.listen_port,
                configured is Ok,
            ));
        }
        match configured {
            Ok(()) => {},
            Err(e) => return Err((e, Some(wgapi))),
        }
        let s = Server {
            public_key,
            address: range.address,
            cidr: range.cidr,
            port: config.listen_port,
            wgapi,
        };
        proof {
            assert(s.public_key@ == x25519_public_key(secret@));
        }
        Ok(s)
    }

    /// Registers each configured peer, in order, at the next address of the
    /// block, starting after the endpoint's own address. Stops at the first
    /// failure; peers registered before it stay on the interface.
    pub fn create_peers(&mut self, config: &Vec<PeerConfig>) -> (r: Result<Vec<Peer>, RelayError>)
        requires
            old(self).wf(),
            old(self).wgapi.stage() == Lifecycle::Configured,
        ensures
            final(self).public_key == old(self).public_key,
            final(self).address == old(self).address,
            final(self).cidr == old(self).cidr,
            final(self).port == old(self).port,
            final(self).backend() == old(self).backend(),
            final(self).wgapi.stage() == Lifecycle::Configured,
            final(self).wgapi.log().len() >= old(self).wgapi.log().len(),
            final(self).wgapi.log().subrange(0, old(self).wgapi.log().len() as int)
                == old(self).wgapi.log(),
            old(self).address is V6 ==> r == Err::<Vec<Peer>, RelayError>(RelayError::Ipv4required)
                && final(self).wgapi.log() == old(self).wgapi.log(),
            old(self).allocation_start() matches Some(start) ==> {
                let before = old(self).wgapi.log().len() as int;
                let log = final(self).wgapi.log();
                let n = log.len() - before;
                let last_ok = n == 0 || op_ok(log[log.len() - 1]);
                &&& registered_in_order(log, before, start, config@, n)
                &&& n <= config.len()
                &&& n <= start.capacity()
                &&& match r {
                    Ok(peers) => {
                        &&& n == config.len()
                        &&& last_ok
                        &&& peers.len() == config.len()
                        &&& forall|i: int|
                            0 <= i < peers.len() ==> {
                                &&& peers[i].label@ == config[i].label@
                                &&& peers[i].port == config[i].port
                                &&& successor(start, (i + 1) as nat) == Some(peers[i].address)
                            }
                    },
                    Err(RelayError::Interface) => n > 0 && !last_ok,
                    Err(RelayError::InvalidKey) => {
                        &&& last_ok
                        &&& n < config.len()
                        &&& n < start.capacity()
                        &&& key_of(config[n].public_key@) is None
                    },
                    Err(RelayError::OutOfAddresses) => {
                        &&& last_ok
                        &&& n == start.capacity()
                        &&& n < config.len()
                    },
                    Err(_) => false,
                }
            },
    {
        proof {
            assert(self.wgapi.log().subrange(0, self.wgapi.log().len() as int) =~= self.wgapi.log());
        }
        let mut peer_address = match self.address {
            IpAddress::V4(addr) => PeerAddress::new(addr, self.cidr),
            IpAddress::V6(_) => return Err(RelayError::Ipv4required),
        };
        let ghost start = peer_address;
        let ghost before = self.wgapi.log().len() as int;
        let ghost old_log = self.wgapi.log();
        let mut peers: Vec<Peer> = Vec::new();
        let mut i: usize = 0;
        while i < config.len()
            invariant
                self.wf(),
                self.address == old(self).address,
                self.cidr == old(self).cidr,
                self.port == old(self).port,
                self.public_key == old(self).public_key,
                self.backend() == old(self).backend(),
                self.wgapi.stage() == Lifecycle::Configured,
                self.allocation_start() == Some(start),
                start.wf(),
                before == old(self).wgapi.log().len(),
                old_log == old(self).wgapi.log(),
                self.wgapi.log().subrange(0, before) == old_log,
                registered_in_order(self.wgapi.log(), before, start, config@, i as int),
                forall|k: int| #![trigger self.wgapi.log()[k]]
                    before <= k < before + i ==> op_ok(self.wgapi.log()[k]),
                i <= config.len(),
                i <= start.capacity(),
                peers.len() == i,
                successor(start, i as nat) == Some(peer_address),
                forall|j: int|
                    0 <= j < i ==> {
                        &&& peers[j].label@ == config[j].label@
                        &&& peers[j].port == config[j].port
                        &&& successor(start, (j + 1) as nat) == Some(peers[j].address)
                    },
            decreases config.len() - i,
        {
            proof {
                crate::address::lemma_allocation_run(start, (i + 1) as nat);
            }
            match peer_address.next_address() {
                Some(next) => {
                    peer_address = next;
                    let key = match parse_key(config[i].public_key.as_str()) {
                        Some(k) => k,
                        None => return Err(RelayError::InvalidKey),
                    };
                    let ghost prev = self.wgapi.log();
                    let added = self.wgapi.add_peer(key, peer_address.ip_address.bits);
                    proof {
                        let log = self.wgapi.log();
                        assert(log.subrange(0, before) =~= prev.subrange(0, before));
                        assert forall|k: int| #![trigger log[k]]
                            before <= k < before + i + 1 implies registers(log[k], start, config@, k - before) by {
                            if k < before + i {
                                assert(log[k] == prev[k]);
                            }
                        }
                        assert forall|k: int| #![trigger log[k]]
                            before <= k < before + i implies op_ok(log[k]) by {
                            assert(log[k] == prev[k]);
                        }
                    }
                    match added {
                        Ok(()) => {},
                        Err(e) => return Err(e),
                    }
                    peers.push(
                        Peer { label: config[i].label.clone(), address: peer_address, port: config[i].port },
                    );
                    i = i + 1;
                },
                None => {
                    return Err(RelayError::OutOfAddresses);
                },
            }
        }
        Ok(peers)
    }

    /// Removes the tunnel interface.
    pub fn dispose(&mut self) -> (r: Result<(), RelayError>)
        requires
            old(self).wgapi.stage() == Lifecycle::Configured,
        ensures
            final(self).wgapi.log() == old(self).wgapi.log().push(TunnelOp::Remove { ok: r is Ok }),
            final(self).wgapi.stage() == Lifecycle::Disposed,
            r matches Err(e) ==> e == RelayError::Interface,
    {
        self.wgapi.remove()
    }
}

} // verus!
