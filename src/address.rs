//! IPv4 addresses as 32-bit values, their dotted-quad text, and the
//! allocator that hands out host addresses inside a CIDR block.
use vstd::arithmetic::div_mod::lemma_fundamental_div_mod_converse;
use vstd::arithmetic::power2::{lemma2_to64, lemma_pow2_adds, lemma_pow2_pos, pow2};
use vstd::bits::lemma_u32_shr_is_div;
use crate::error::RelayError;
use crate::wireguard::{ip_range_of, parse_ip_addr_mask};
use vstd::prelude::*;

verus! {

/// The decimal digit `d` (`d < 10`) as a character.
pub open spec fn digit_char(d: nat) -> char {
    if d == 0 {
        '0'
    } else if d == 1 {
        '1'
    } else if d == 2 {
        '2'
    } else if d == 3 {
        '3'
    } else if d == 4 {
        '4'
    } else if d == 5 {
        '5'
    } else if d == 6 {
        '6'
    } else if d == 7 {
        '7'
    } else if d == 8 {
        '8'
    } else {
        '9'
    }
}

/// The decimal text of `n`, without leading zeros.
pub open spec fn decimal(n: nat) -> Seq<char>
    decreases n,
{
    if n < 10 {
        seq![digit_char(n)]
    } else {
        decimal(n / 10) + seq![digit_char(n % 10)]
    }
}

/// The text of `bits` as four dot-separated decimal octets, most significant first.
pub open spec fn dotted_quad(bits: u32) -> Seq<char> {
    decimal((bits >> 24u32) as nat) + seq!['.'] + decimal(((bits >> 16u32) & 0xffu32) as nat)
        + seq!['.'] + decimal(((bits >> 8u32) & 0xffu32) as nat) + seq!['.'] + decimal(
        (bits & 0xffu32) as nat,
    )
}

fn digit_str(d: u32) -> (r: &'static str)
    requires
        d < 10,
    ensures
        r@ == seq![digit_char(d as nat)],
{
    proof {
        reveal_strlit("0");
        reveal_strlit("1");
        reveal_strlit("2");
        reveal_strlit("3");
        reveal_strlit("4");
        reveal_strlit("5");
        reveal_strlit("6");
        reveal_strlit("7");
        reveal_strlit("8");
        reveal_strlit("9");
    }
    if d == 0 {
        "0"
    } else if d == 1 {
        "1"
    } else if d == 2 {
        "2"
    } else if d == 3 {
        "3"
    } else if d == 4 {
        "4"
    } else if d == 5 {
        "5"
    } else if d == 6 {
        "6"
    } else if d == 7 {
        "7"
    } else if d == 8 {
        "8"
    } else {
        "9"
    }
}

/// Appends the decimal text of `n` to `s`.
pub fn push_decimal(s: &mut String, n: u32)
    ensures
        final(s)@ == old(s)@ + decimal(n as nat),
    decreases n,
{
    if n >= 10 {
        push_decimal(s, n / 10);
    }
    s.append(digit_str(n % 10));
    proof {
        assert(final(s)@ =~= old(s)@ + decimal(n as nat));
    }
}

/// An IPv4 address, held as its 32-bit value.
#[derive(Clone, Copy, Debug, PartialEq, Eq, Structural)]
pub struct Ipv4Address {
    pub bits: u32,
}

impl Ipv4Address {
    /// The address `a.b.c.d`.
    pub fn new(a: u8, b: u8, c: u8, d: u8) -> (r: Ipv4Address)
        ensures
            r.bits as int == a as int * 0x100_0000 + b as int * 0x1_0000 + c as int * 0x100
                + d as int,
    {
        let bits: u32 = (a as u32) << 24u32 | (b as u32) << 16u32 | (c as u32) << 8u32 | d as u32;
        assert(((a as u32) << 24u32 | (b as u32) << 16u32 | (c as u32) << 8u32 | d as u32) == a
            as u32 * 0x100_0000 + b as u32 * 0x1_0000 + c as u32 * 0x100 + d as u32)
            by (bit_vector);
        Ipv4Address { bits }
    }

    /// The address whose 32-bit value is `bits`.
    pub fn from_bits(bits: u32) -> (r: Ipv4Address)
        ensures
            r.bits == bits,
    {
        Ipv4Address { bits }
    }

    /// The 32-bit value of the address.
    pub fn to_bits(&self) -> (r: u32)
        ensures
            r == self.bits,
    {
        self.bits
    }

    /// The dotted-quad text of the address, such as `10.8.0.2`.
    pub fn to_string(&self) -> (r: String)
        ensures
            r@ == dotted_quad(self.bits),
    {
        let mut s = String::new();
        self.push_dotted(&mut s);
        proof {
            assert(s@ =~= dotted_quad(self.bits));
        }
        s
    }

    /// Appends the dotted-quad text of the address to `s`.
    pub fn push_dotted(&self, s: &mut String)
        ensures
            final(s)@ == old(s)@ + dotted_quad(self.bits),
    {
        let dot = ".";
        proof {
            reveal_strlit(".");
        }
        push_decimal(s, self.bits >> 24u32);
        s.append(dot);
        push_decimal(s, (self.bits >> 16u32) & 0xffu32);
        s.append(dot);
        push_decimal(s, (self.bits >> 8u32) & 0xffu32);
        s.append(dot);
        push_decimal(s, self.bits & 0xffu32);
        proof {
            assert(final(s)@ =~= old(s)@ + dotted_quad(self.bits));
        }
    }
}

/// The host bits of a block with prefix length `cidr` (`cidr <= 32`): the
/// complement of the network mask.
pub open spec fn host_mask(cidr: u8) -> u32 {
    if cidr >= 32 {
        0
    } else {
        0xffff_ffffu32 >> (cidr as u32)
    }
}

/// `m` has the shape of a host mask: some number of low bits set, no others.
pub open spec fn is_host_mask(m: u32) -> bool {
    (m as u64) & (((m as u64) + 1) as u64) == 0
}

proof fn lemma_host_mask_shape(cidr: u8)
    requires
        cidr <= 32,
    ensures
        is_host_mask(host_mask(cidr)),
{
    if cidr < 32 {
        let c = cidr as u32;
        assert(c < 32 ==> ((0xffff_ffffu32 >> c) as u64) & ((((0xffff_ffffu32 >> c) as u64) + 1) as u64)
            == 0) by (bit_vector);
    } else {
        assert((0u32 as u64) & (((0u32 as u64) + 1) as u64) == 0) by (bit_vector);
    }
}

/// Inside the host bits, adding one to an address whose host part is not yet
/// full neither wraps nor touches the network part.
proof fn lemma_step_inside(x: u32, m: u32)
    by (bit_vector)
    requires
        (m as u64) & (((m as u64) + 1) as u64) == 0,
        x & m < m,
    ensures
        x < 0xffff_ffff,
        ((x + 1) as u32) & m == (x & m) + 1,
        ((x + 1) as u32) & !m == x & !m,
{
}

proof fn lemma_and_bounded(x: u32, m: u32)
    by (bit_vector)
    ensures
        x & m <= m,
{
}

/// Adding one to an address whose host part is full clears the host part.
proof fn lemma_step_past_end(x: u32, m: u32)
    by (bit_vector)
    requires
        (m as u64) & (((m as u64) + 1) as u64) == 0,
        x & m == m,
        x < 0xffff_ffff,
    ensures
        ((x + 1) as u32) & m == 0,
{
}

/// An address handed out from a block: the host address and the block's host
/// bits. Two values are equal when both parts are.
#[derive(Clone, Copy, Debug, PartialEq, Eq, Structural)]
pub struct PeerAddress {
    pub ip_address: Ipv4Address,
    /// The block's host bits: the complement of its network mask.
    pub mask_bits: u32,
}

impl PeerAddress {
    /// The same block, at the address `bits`.
    pub open spec fn at(self, bits: u32) -> PeerAddress {
        PeerAddress { ip_address: Ipv4Address { bits }, mask_bits: self.mask_bits }
    }

    pub open spec fn wf(self) -> bool {
        is_host_mask(self.mask_bits)
    }

    /// The host part of the address.
    pub open spec fn host_part(self) -> u32 {
        self.ip_address.bits & self.mask_bits
    }

    /// The network part of the address.
    pub open spec fn network_part(self) -> u32 {
        self.ip_address.bits & !self.mask_bits
    }

    /// How many more addresses the allocator hands out after this one.
    pub open spec fn capacity(self) -> nat {
        (self.mask_bits - self.host_part()) as nat
    }

    /// The address that follows this one in its block, if it is usable: the
    /// integer successor, provided it does not wrap and its host part is not zero.
    pub open spec fn next_spec(self) -> Option<PeerAddress> {
        if self.ip_address.bits < 0xffff_ffff && ((self.ip_address.bits + 1) as u32
            & self.mask_bits) > 0 {
            Some(self.at((self.ip_address.bits + 1) as u32))
        } else {
            None
        }
    }

    pub proof fn lemma_at(self, bits: u32)
        ensures
            self.at(bits).ip_address.bits == bits,
            self.at(bits).mask_bits == self.mask_bits,
            self.at(self.ip_address.bits) == self,
    {
    }

    /// The address `ip_address` in a block of prefix length `cidr`.
    pub fn new(ip_address: Ipv4Address, cidr: u8) -> (r: PeerAddress)
        requires
            cidr <= 32,
        ensures
            r.ip_address == ip_address,
            r.mask_bits == host_mask(cidr),
            r.wf(),
    {
        proof {
            lemma_host_mask_shape(cidr);
        }
        let mask_bits: u32 = if cidr >= 32 {
            0
        } else {
            0xffff_ffffu32 >> (cidr as u32)
        };
        PeerAddress { ip_address, mask_bits }
    }

    /// The next usable address of the block, or `None` once the block is exhausted.
    pub fn next_address(&self) -> (r: Option<PeerAddress>)
        ensures
            r == self.next_spec(),
    {
        if self.ip_address.bits == 0xffff_ffffu32 {
            return None;
        }
        let next_bits: u32 = self.ip_address.bits + 1;
        if (next_bits & self.mask_bits) > 0 {
            Some(PeerAddress { ip_address: Ipv4Address { bits: next_bits }, mask_bits: self.mask_bits })
        } else {
            None
        }
    }
}

/// The address that `k` calls of `next_address` reach from `start`, or `None`
/// when one of them found the block exhausted.
pub open spec fn successor(start: PeerAddress, k: nat) -> Option<PeerAddress>
    decreases k,
{
    if k == 0 {
        Some(start)
    } else {
        match successor(start, (k - 1) as nat) {
            Some(a) => a.next_spec(),
            None => None,
        }
    }
}

proof fn lemma_successor_inside(start: PeerAddress, k: nat)
    requires
        start.wf(),
        k <= start.capacity(),
    ensures
        start.ip_address.bits + k <= 0xffff_ffff,
        successor(start, k) == Some(start.at((start.ip_address.bits + k) as u32)),
        start.at((start.ip_address.bits + k) as u32).host_part() == start.host_part() + k,
        start.at((start.ip_address.bits + k) as u32).network_part() == start.network_part(),
    decreases k,
{
    start.lemma_at(start.ip_address.bits);
    lemma_and_bounded(start.ip_address.bits, start.mask_bits);
    if k > 0 {
        lemma_successor_inside(start, (k - 1) as nat);
        let x = (start.ip_address.bits + k - 1) as u32;
        let m = start.mask_bits;
        start.lemma_at(x);
        lemma_step_inside(x, m);
        start.lemma_at((x + 1) as u32);
        assert(start.at(x).at((x + 1) as u32) == start.at((x + 1) as u32));
    }
}

/// Starting from `start`, the allocator hands out exactly `start.capacity()`
/// addresses: the `k`-th is the integer `start + k`, inside the same network,
/// so the run is strictly increasing and free of repeats; every later call
/// finds the block exhausted.
pub proof fn lemma_allocation_run(start: PeerAddress, k: nat)
    requires
        start.wf(),
    ensures
        1 <= k <= start.capacity() ==> (successor(start, k) matches Some(a) && a.ip_address.bits
            == start.ip_address.bits + k && a.mask_bits == start.mask_bits
            && a.network_part() == start.network_part() && a.host_part() > 0),
        k > start.capacity() ==> successor(start, k) is None,
    decreases k,
{
    if k <= start.capacity() {
        lemma_successor_inside(start, k);
        start.lemma_at((start.ip_address.bits + k) as u32);
    } else if k == start.capacity() + 1 {
        let c = start.capacity();
        lemma_and_bounded(start.ip_address.bits, start.mask_bits);
        lemma_successor_inside(start, c);
        let x = (start.ip_address.bits + c) as u32;
        start.lemma_at(x);
        if x < 0xffff_ffff {
            lemma_step_past_end(x, start.mask_bits);
        }
    } else {
        lemma_allocation_run(start, (k - 1) as nat);
    }
}

/// A block of prefix length `cidr` has `2^(32 - cidr) - 1` host bits set.
pub proof fn lemma_host_mask_size(cidr: u8)
    requires
        cidr <= 32,
    ensures
        host_mask(cidr) == pow2((32 - cidr) as nat) - 1,
{
    lemma2_to64();
    if cidr < 32 {
        let c = cidr as nat;
        lemma_u32_shr_is_div(0xffff_ffffu32, cidr as u32);
        lemma_pow2_adds((32 - c) as nat, c);
        lemma_pow2_pos(c);
        lemma_pow2_pos((32 - c) as nat);
        assert(0xffff_ffffint == (pow2((32 - c) as nat) - 1) * pow2(c) + (pow2(c) - 1))
            by (nonlinear_arith)
            requires
                pow2((32 - c) as nat) * pow2(c) == 0x1_0000_0000int,
        ;
        lemma_fundamental_div_mod_converse(
            0xffff_ffffint,
            pow2(c) as int,
            pow2((32 - c) as nat) - 1,
            pow2(c) - 1,
        );
    }
}

/// From the network address of a block of prefix length `cidr`, the allocator
/// hands out `2^(32 - cidr) - 1` addresses before the block is exhausted.
pub proof fn lemma_block_capacity(network: Ipv4Address, cidr: u8)
    requires
        cidr <= 32,
        network.bits & host_mask(cidr) == 0,
    ensures
        (PeerAddress { ip_address: network, mask_bits: host_mask(cidr) }).capacity() == pow2(
            (32 - cidr) as nat,
        ) - 1,
        successor(
            PeerAddress { ip_address: network, mask_bits: host_mask(cidr) },
            (pow2((32 - cidr) as nat) - 1) as nat,
        ) is Some,
        successor(
            PeerAddress { ip_address: network, mask_bits: host_mask(cidr) },
            pow2((32 - cidr) as nat),
        ) is None,
{
    let start = PeerAddress { ip_address: network, mask_bits: host_mask(cidr) };
    lemma_host_mask_size(cidr);
    lemma_host_mask_shape(cidr);
    lemma_pow2_pos((32 - cidr) as nat);
    lemma_allocation_run(start, (pow2((32 - cidr) as nat) - 1) as nat);
    lemma_allocation_run(start, pow2((32 - cidr) as nat));
}

/// An IPv4 or IPv6 address.
#[derive(Clone, Copy, Debug, PartialEq, Eq, Structural)]
pub enum IpAddress {
    V4(Ipv4Address),
    V6(u128),
}

/// An address with a prefix length, as in `10.8.0.1/30`.
#[derive(Clone, Copy, Debug, PartialEq, Eq, Structural)]
pub struct AddressRange {
    pub address: IpAddress,
    pub cidr: u8,
}

impl AddressRange {
    /// The prefix length fits the address family.
    pub open spec fn wf(self) -> bool {
        match self.address {
            IpAddress::V4(_) => self.cidr <= 32,
            IpAddress::V6(_) => self.cidr <= 128,
        }
    }

    /// Reads `address/prefix` (a bare address takes the full prefix).
    pub fn parse(s: &str) -> (r: Result<AddressRange, RelayError>)
        ensures
            r matches Ok(a) ==> ip_range_of(s@) == Some(a) && a.wf(),
            r matches Err(e) ==> ip_range_of(s@) is None && e == RelayError::InvalidAddressRange,
    {
        match parse_ip_addr_mask(s) {
            Ok(a) => Ok(a),
            Err(_) => Err(RelayError::InvalidAddressRange),
        }
    }
}

} // verus!
