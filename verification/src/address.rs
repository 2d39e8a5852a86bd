//! Multiaddresses: what the node listens on, and which addresses it dials.

use vstd::prelude::*;

verus! {

/// A multiaddress of libp2p, carried through the library as it is.
#[verifier::external_type_specification]
#[verifier::external_body]
pub struct ExMultiaddr(libp2p::Multiaddr);

/// The components of a multiaddress, in order, each taken as its binary
/// encoding: the protocol code as an unsigned varint, then its payload.
pub uninterp spec fn multiaddr_components(addr: libp2p::Multiaddr) -> Seq<Seq<u8>>;

/// A component encodes the `p2p` protocol (code 421, varint `a5 03`),
/// i.e. a peer id.
pub open spec fn is_peer_id_component(c: Seq<u8>) -> bool {
    c.len() >= 2 && c[0] == 0xa5u8 && c[1] == 0x03u8
}

/// The components left once a trailing peer id is removed.
pub open spec fn stripped_components(cs: Seq<Seq<u8>>) -> Seq<Seq<u8>> {
    if cs.len() > 0 && is_peer_id_component(cs.last()) {
        cs.drop_last()
    } else {
        cs
    }
}

/// Once stripped, an address no longer ends with a peer id, unless it ended
/// with two of them.
pub proof fn stripped_address_ends_without_peer_id(cs: Seq<Seq<u8>>)
    requires
        cs.len() < 2 || !is_peer_id_component(cs[cs.len() - 2]),
    ensures
        !(stripped_components(cs).len() > 0 && is_peer_id_component(
            stripped_components(cs).last(),
        )),
{
}

/// Stripping keeps the address's components in order and removes at most the
/// last one: what it removes is a peer id.
pub proof fn stripping_removes_only_a_trailing_peer_id(cs: Seq<Seq<u8>>)
    ensures
        stripped_components(cs) == cs || (cs.len() > 0 && is_peer_id_component(cs.last())
            && stripped_components(cs).push(cs.last()) == cs),
{
}

/// Tells whether the last component of `addr` is a `p2p` one
/// (`Multiaddr::iter`, then `Protocol::P2p` told apart from the other variants).
#[verifier::external_body]
fn ends_with_peer_id(addr: &libp2p::Multiaddr) -> (b: bool)
    ensures
        b == (multiaddr_components(*addr).len() > 0 && is_peer_id_component(
            multiaddr_components(*addr).last(),
        )),
{
    matches!(addr.iter().last(), Some(libp2p::multiaddr::Protocol::P2p(_)))
}

/// `Multiaddr::pop`: removes the last component, if there is one; the popped
/// protocol is dropped.
#[verifier::external_body]
fn pop_component(addr: &mut libp2p::Multiaddr)
    ensures
        multiaddr_components(*old(addr)).len() == 0 ==> multiaddr_components(*final(addr))
            == multiaddr_components(*old(addr)),
        multiaddr_components(*old(addr)).len() > 0 ==> multiaddr_components(*final(addr))
            == multiaddr_components(*old(addr)).drop_last(),
{
    let _ = addr.pop();
}

/// Strips a trailing peer id (`/p2p/..`) from a multiaddress: libp2p dials an
/// address without the peer id. Any other address is left as it is.
pub fn strip_peer_id(addr: &mut libp2p::Multiaddr)
    ensures
        multiaddr_components(*final(addr)) == stripped_components(multiaddr_components(*old(addr))),
{
    if ends_with_peer_id(addr) {
        pop_component(addr);
    }
}

/// The components of the multiaddress a text denotes, if it denotes one.
pub uninterp spec fn parsed_multiaddr(text: Seq<char>) -> Option<Seq<Seq<u8>>>;

/// `Multiaddr::from_str`: the multiaddress the text denotes, if it denotes
/// one. A text that is not empty must start with `/`; the empty text denotes
/// the empty address.
#[verifier::external_body]
fn parse_multiaddr(text: &str) -> (r: Option<libp2p::Multiaddr>)
    ensures
        r is Some <==> parsed_multiaddr(text@) is Some,
        r matches Some(m) ==> parsed_multiaddr(text@) == Some(multiaddr_components(m)),
        text@.len() > 0 && text@[0] != '/' ==> r is None,
        text@.len() == 0 ==> r is Some,
        r matches Some(m) ==> (text@.len() == 0 ==> multiaddr_components(m) == Seq::<
            Seq<u8>,
        >::empty()),
{
    match text.parse::<libp2p::Multiaddr>() {
        Ok(m) => Some(m),
        Err(_) => None,
    }
}

/// Adds the node that `text` denotes to `nodes`, when the text denotes a
/// multiaddress; otherwise leaves `nodes` as it is and says so.
pub fn add_node_from_text(nodes: &mut Vec<libp2p::Multiaddr>, text: &str) -> (added: bool)
    ensures
        added <==> parsed_multiaddr(text@) is Some,
        added ==> final(nodes).len() == old(nodes).len() + 1 && parsed_multiaddr(text@) == Some(
            multiaddr_components(final(nodes)[old(nodes).len() as int]),
        ),
        !added ==> final(nodes)@ == old(nodes)@,
        forall|i: int| 0 <= i < old(nodes).len() ==> #[trigger] final(nodes)[i] == old(nodes)[i],
{
    match parse_multiaddr(text) {
        Some(addr) => {
            nodes.push(addr);
            true
        },
        None => false,
    }
}

/// An IP address, as its octets.
#[derive(Clone, Copy, Debug)]
pub enum IpAddress {
    V4([u8; 4]),
    V6([u8; 16]),
}

/// The encoding of an `ip4` component (code 4): the code, then the octets.
pub open spec fn ip4_component(octets: Seq<u8>) -> Seq<u8> {
    seq![4u8] + octets
}

/// The encoding of an `ip6` component (code 41): the code, then the octets
/// (the eight segments, each big-endian).
pub open spec fn ip6_component(octets: Seq<u8>) -> Seq<u8> {
    seq![41u8] + octets
}

/// The encoding of the component for an IP address.
pub open spec fn ip_component(ip: IpAddress) -> Seq<u8> {
    match ip {
        IpAddress::V4(octets) => ip4_component(octets@),
        IpAddress::V6(octets) => ip6_component(octets@),
    }
}

/// The encoding of a `tcp` component (code 6): the code, then the port,
/// big-endian.
pub open spec fn tcp_component(port: u16) -> Seq<u8> {
    seq![6u8, (port / 256) as u8, (port % 256) as u8]
}

/// `Multiaddr::from(Protocol::Ip4(..))`: the address `/ip4/<octets>`.
#[verifier::external_body]
fn multiaddr_from_ip4(octets: [u8; 4]) -> (addr: libp2p::Multiaddr)
    ensures
        multiaddr_components(addr) == seq![ip4_component(octets@)],
{
    libp2p::Multiaddr::from(libp2p::multiaddr::Protocol::Ip4(octets.into()))
}

/// `Multiaddr::from(Protocol::Ip6(..))`: the address `/ip6/<octets>`.
#[verifier::external_body]
fn multiaddr_from_ip6(octets: [u8; 16]) -> (addr: libp2p::Multiaddr)
    ensures
        multiaddr_components(addr) == seq![ip6_component(octets@)],
{
    libp2p::Multiaddr::from(libp2p::multiaddr::Protocol::Ip6(octets.into()))
}

/// `Multiaddr::push(Protocol::Tcp(port))`: appends a `tcp` component.
#[verifier::external_body]
fn push_tcp(addr: &mut libp2p::Multiaddr, port: u16)
    ensures
        multiaddr_components(*final(addr)) == multiaddr_components(*old(addr)).push(
            tcp_component(port),
        ),
{
    addr.push(libp2p::multiaddr::Protocol::Tcp(port))
}

/// `Multiaddr::clone`: the same components.
#[verifier::external_body]
fn clone_multiaddr(addr: &libp2p::Multiaddr) -> (copy: libp2p::Multiaddr)
    ensures
        multiaddr_components(copy) == multiaddr_components(*addr),
{
    addr.clone()
}

/// A copy of a list of multiaddresses.
pub fn clone_multiaddrs(addrs: &Vec<libp2p::Multiaddr>) -> (copy: Vec<libp2p::Multiaddr>)
    ensures
        copy.len() == addrs.len(),
        forall|i: int|
            0 <= i < addrs.len() ==> multiaddr_components(#[trigger] copy[i])
                == multiaddr_components(addrs[i]),
{
    let mut copy: Vec<libp2p::Multiaddr> = Vec::new();
    for i in 0..addrs.len()
        invariant
            copy.len() == i,
            forall|j: int|
                0 <= j < i ==> multiaddr_components(#[trigger] copy[j])
                    == multiaddr_components(addrs[j]),
    {
        copy.push(clone_multiaddr(&addrs[i]));
    }
    copy
}

/// The address `/ip4/<ip>/tcp/<port>` (or `/ip6/..`) to listen on.
pub fn tcp_listen_multiaddr(ip: &IpAddress, port: u16) -> (addr: libp2p::Multiaddr)
    ensures
        multiaddr_components(addr) == seq![ip_component(*ip), tcp_component(port)],
{
    let mut addr = match ip {
        IpAddress::V4(octets) => multiaddr_from_ip4(*octets),
        IpAddress::V6(octets) => multiaddr_from_ip6(*octets),
    };
    push_tcp(&mut addr, port);
    addr
}

/// The addresses to dial for a list of configured nodes: each one with a
/// trailing peer id stripped, in the same order.
pub fn dial_addresses(nodes: &Vec<libp2p::Multiaddr>) -> (dial: Vec<libp2p::Multiaddr>)
    ensures
        dial.len() == nodes.len(),
        forall|i: int|
            0 <= i < nodes.len() ==> multiaddr_components(#[trigger] dial[i])
                == stripped_components(multiaddr_components(nodes[i])),
{
    let mut dial: Vec<libp2p::Multiaddr> = Vec::new();
    for i in 0..nodes.len()
        invariant
            dial.len() == i,
            forall|j: int|
                0 <= j < i ==> multiaddr_components(#[trigger] dial[j])
                    == stripped_components(multiaddr_components(nodes[j])),
    {
        let mut addr = clone_multiaddr(&nodes[i]);
        strip_peer_id(&mut addr);
        dial.push(addr);
    }
    dial
}

} // verus!
