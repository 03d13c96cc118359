//! Network addresses as the node judges them: which of them may enter the
//! routing table, and which peer an address names.
//!
//! A `Multiaddr` is a sequence of components. The node reads three kinds of
//! them: IPv4 hosts, IPv6 hosts and peer identities. Everything else is
//! carried but never looked at.

use libp2p::multiaddr::Protocol;
use libp2p::Multiaddr;
use libp2p::PeerId;
use vstd::prelude::*;

verus! {

/// `libp2p::Multiaddr`, carried through the library as an opaque value.
#[verifier::external_type_specification]
#[verifier::external_body]
pub struct ExMultiaddr(Multiaddr);

/// `libp2p::PeerId`, carried through the library as an opaque value.
#[verifier::external_type_specification]
#[verifier::external_body]
pub struct ExPeerId(PeerId);

/// One component of an address, reduced to what the node reads.
pub enum AddressPart {
    /// An IPv4 host, by its four octets in network order.
    Ip4([u8; 4]),
    /// An IPv6 host, as one 128-bit number, most significant byte first.
    Ip6(u128),
    /// A peer identity.
    P2p(PeerId),
    /// Any other component (transport, port, name, ...).
    Other,
}

/// The components of an address, first to last, as `Multiaddr::iter` yields
/// them.
pub uninterp spec fn address_parts(addr: Multiaddr) -> Seq<AddressPart>;

/// The address that `Multiaddr`'s `FromStr` makes of a text, if the text is a
/// well-formed address.
pub uninterp spec fn parsed_address(text: Seq<char>) -> Option<Multiaddr>;

/// 127.0.0.0/8.
pub open spec fn ip4_is_loopback(octets: Seq<u8>) -> bool {
    octets[0] == 127
}

/// 10.0.0.0/8, 172.16.0.0/12 and 192.168.0.0/16.
pub open spec fn ip4_is_private(octets: Seq<u8>) -> bool {
    ||| octets[0] == 10
    ||| (octets[0] == 172 && 16 <= octets[1] <= 31)
    ||| (octets[0] == 192 && octets[1] == 168)
}

/// An IPv4 address as one number, first octet most significant.
pub open spec fn ip4_number(octets: Seq<u8>) -> int {
    octets[0] * 0x100_0000 + octets[1] * 0x1_0000 + octets[2] * 0x100 + octets[3]
}

/// The single address `::1`.
pub open spec fn ip6_is_loopback(bits: u128) -> bool {
    bits == 1
}

impl AddressPart {
    /// A component that cannot be reached from the public network: an IPv4
    /// loopback or private-range host, or the IPv6 loopback host.
    pub open spec fn is_non_global(self) -> bool {
        match self {
            AddressPart::Ip4(octets) => ip4_is_loopback(octets@) || ip4_is_private(octets@),
            AddressPart::Ip6(bits) => ip6_is_loopback(bits),
            _ => false,
        }
    }

    pub fn non_global(&self) -> (r: bool)
        ensures
            r == self.is_non_global(),
    {
        match self {
            AddressPart::Ip4(octets) => {
                let a: u8 = octets[0];
                let b: u8 = octets[1];
                a == 127 || a == 10 || (a == 172 && 16 <= b && b <= 31) || (a == 192 && b == 168)
            },
            AddressPart::Ip6(bits) => *bits == 1,
            _ => false,
        }
    }
}

/// Some component of the sequence is non-global.
pub open spec fn some_non_global(parts: Seq<AddressPart>) -> bool {
    exists|i: int| 0 <= i < parts.len() && (#[trigger] parts[i]).is_non_global()
}

/// The peer that a sequence of components names: its last component, if that
/// is a peer identity.
pub open spec fn named_peer(parts: Seq<AddressPart>) -> Option<PeerId> {
    if parts.len() > 0 && parts.last() is P2p {
        Some(parts.last()->P2p_0)
    } else {
        None
    }
}

/// An address is non-global as soon as one of its components is.
pub open spec fn non_global_address(addr: Multiaddr) -> bool {
    some_non_global(address_parts(addr))
}

/// The peer that an address names.
pub open spec fn peer_of(addr: Multiaddr) -> Option<PeerId> {
    named_peer(address_parts(addr))
}

/// The addresses of `addrs` that are globally routable, in their order.
pub open spec fn global_addresses(addrs: Seq<Multiaddr>) -> Seq<Multiaddr> {
    addrs.filter(|a: Multiaddr| !non_global_address(a))
}

/// Reads the components of an address with `Multiaddr::iter`.
///
/// Trusted: the result is the address's component sequence, each `Protocol`
/// turned into the matching `AddressPart` (IPv4 as its octets, IPv6 as its
/// 128-bit value, a peer identity as it is, anything else as `Other`).
#[verifier::external_body]
fn read_parts(addr: &Multiaddr) -> (parts: Vec<AddressPart>)
    ensures
        parts@ == address_parts(*addr),
{
    let mut parts = Vec::new();
    for protocol in addr.iter() {
        parts.push(
            match protocol {
                Protocol::Ip4(ip) => AddressPart::Ip4(ip.octets()),
                Protocol::Ip6(ip) => AddressPart::Ip6(u128::from(ip)),
                Protocol::P2p(peer) => AddressPart::P2p(peer),
                _ => AddressPart::Other,
            },
        );
    }
    parts
}

/// Parses an address with `Multiaddr`'s `FromStr`.
///
/// Trusted: the outcome depends on the text alone; `None` stands for every
/// parse error.
#[verifier::external_body]
pub(crate) fn parse_address(text: &str) -> (addr: Option<Multiaddr>)
    ensures
        addr == parsed_address(text@),
{
    text.parse::<Multiaddr>().ok()
}

/// `Clone` of `Multiaddr`.
///
/// Trusted: the copy equals the original.
pub assume_specification[ <Multiaddr as Clone>::clone ](addr: &Multiaddr) -> (copy: Multiaddr)
    ensures
        copy == *addr,
;

/// Whether one of the components is an IPv4 loopback or private-range host
/// or the IPv6 loopback host.
pub fn any_non_global(parts: &Vec<AddressPart>) -> (r: bool)
    ensures
        r == some_non_global(parts@),
{
    let mut i: usize = 0;
    while i < parts.len()
        invariant
            i <= parts.len(),
            forall|j: int| 0 <= j < i ==> !(#[trigger] parts@[j]).is_non_global(),
        decreases parts.len() - i,
    {
        if parts[i].non_global() {
            return true;
        }
        i += 1;
    }
    false
}

/// The peer identity that ends the components, if there is one.
pub fn last_peer(parts: &Vec<AddressPart>) -> (peer: Option<PeerId>)
    ensures
        peer == named_peer(parts@),
{
    if parts.len() == 0 {
        return None;
    }
    match &parts[parts.len() - 1] {
        AddressPart::P2p(id) => Some(*id),
        _ => None,
    }
}

/// Whether the address holds an IPv4 loopback or private-range component, or
/// the IPv6 loopback component.
pub fn is_non_global(addr: &Multiaddr) -> (r: bool)
    ensures
        r == non_global_address(*addr),
{
    let parts = read_parts(addr);
    any_non_global(&parts)
}

/// The peer identity that ends the address, if there is one.
pub fn terminal_peer(addr: &Multiaddr) -> (peer: Option<PeerId>)
    ensures
        peer == peer_of(*addr),
{
    let parts = read_parts(addr);
    last_peer(&parts)
}

/// Keeps the globally routable addresses, in the order they came.
pub fn retain_global(addrs: &Vec<Multiaddr>) -> (kept: Vec<Multiaddr>)
    ensures
        kept@ == global_addresses(addrs@),
{
    let mut kept: Vec<Multiaddr> = Vec::new();
    let mut i: usize = 0;
    proof {
        assert(addrs@.take(0) =~= Seq::<Multiaddr>::empty());
    }
    while i < addrs.len()
        invariant
            i <= addrs.len(),
            kept@ == global_addresses(addrs@.take(i as int)),
        decreases addrs.len() - i,
    {
        let non_global = is_non_global(&addrs[i]);
        proof {
            let pred = |a: Multiaddr| !non_global_address(a);
            let head = addrs@.take(i as int);
            assert(addrs@.take(i + 1) =~= head + seq![addrs@[i as int]]);
            Seq::filter_distributes_over_add(head, seq![addrs@[i as int]], pred);
            reveal_with_fuel(Seq::filter, 2);
            assert(seq![addrs@[i as int]].drop_last() =~= Seq::<Multiaddr>::empty());
        }
        if !non_global {
            kept.push(addrs[i].clone());
        }
        i += 1;
    }
    proof {
        assert(addrs@.take(addrs.len() as int) =~= addrs@);
    }
    kept
}

/// The IPv4 ranges as intervals of numbers: loopback is 127.0.0.0 to
/// 127.255.255.255; private is 10.0.0.0 to 10.255.255.255, 172.16.0.0 to
/// 172.31.255.255 or 192.168.0.0 to 192.168.255.255.
pub proof fn lemma_ip4_ranges(octets: Seq<u8>)
    requires
        octets.len() == 4,
    ensures
        ip4_is_loopback(octets) <==> 0x7f00_0000 <= ip4_number(octets) <= 0x7fff_ffff,
        ip4_is_private(octets) <==> {
            ||| 0x0a00_0000 <= ip4_number(octets) <= 0x0aff_ffff
            ||| 0xac10_0000 <= ip4_number(octets) <= 0xac1f_ffff
            ||| 0xc0a8_0000 <= ip4_number(octets) <= 0xc0a8_ffff
        },
{
}

} // verus!
