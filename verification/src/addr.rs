//! Socket addresses as plain values, and their little-endian wire layout.

use vstd::prelude::*;

verus! {

/// An IPv4 address, octet by octet, most significant first.
#[derive(Clone, Copy, Debug, PartialEq, Eq, Structural)]
pub struct Ipv4(pub u8, pub u8, pub u8, pub u8);

/// An IPv4 socket address.
#[derive(Clone, Copy, Debug, PartialEq, Eq, Structural)]
pub struct AddrV4 {
    pub ip: Ipv4,
    pub port: u16,
}

/// An IPv6 socket address as it travels on the wire (address and port only).
#[derive(Clone, Copy, Debug)]
pub struct AddrV6 {
    pub ip: [u8; 16],
    pub port: u16,
}

/// The address a datagram came from or goes to.
#[derive(Clone, Copy, Debug)]
pub enum PeerAddr {
    V4(AddrV4),
    V6(AddrV6),
}

/// The two bytes of `p`, least significant first.
pub open spec fn u16_le(p: u16) -> Seq<u8> {
    seq![(p % 256) as u8, (p / 256) as u8]
}

/// The `u16` whose little-endian bytes are `lo`, `hi`.
pub open spec fn u16_of_le(lo: u8, hi: u8) -> u16 {
    (lo + 256 * hi) as u16
}

/// The bytes of an IPv4 socket address: the four octets, then the port.
pub open spec fn addr_v4_bytes(a: AddrV4) -> Seq<u8> {
    seq![a.ip.0, a.ip.1, a.ip.2, a.ip.3] + u16_le(a.port)
}

/// The IPv4 socket address whose bytes start at `at` in `s`.
pub open spec fn addr_v4_at(s: Seq<u8>, at: int) -> AddrV4 {
    AddrV4 {
        ip: Ipv4(s[at], s[at + 1], s[at + 2], s[at + 3]),
        port: u16_of_le(s[at + 4], s[at + 5]),
    }
}

/// The bytes of an IPv6 socket address: the sixteen octets, then the port.
pub open spec fn addr_v6_bytes(a: AddrV6) -> Seq<u8> {
    a.ip@ + u16_le(a.port)
}

pub proof fn lemma_u16_le_roundtrip(p: u16)
    ensures
        u16_le(p).len() == 2,
        u16_of_le(u16_le(p)[0], u16_le(p)[1]) == p,
{
    assert(p % 256 + 256 * (p / 256) == p);
}

/// Appends the little-endian bytes of `p` to `out`.
pub fn push_u16_le(out: &mut Vec<u8>, p: u16)
    ensures
        final(out)@ == old(out)@ + u16_le(p),
{
    out.push((p % 256) as u8);
    out.push((p / 256) as u8);
}

/// Reads the little-endian `u16` at `at`.
pub fn read_u16_le(bytes: &[u8], at: usize) -> (p: u16)
    requires
        at + 2 <= bytes@.len(),
    ensures
        p == u16_of_le(bytes@[at as int], bytes@[at + 1]),
{
    let lo = bytes[at] as u16;
    let hi = bytes[at + 1] as u16;
    lo + 256 * hi
}

/// Appends the bytes of an IPv4 socket address to `out`.
pub fn push_addr_v4(out: &mut Vec<u8>, a: AddrV4)
    ensures
        final(out)@ == old(out)@ + addr_v4_bytes(a),
{
    out.push(a.ip.0);
    out.push(a.ip.1);
    out.push(a.ip.2);
    out.push(a.ip.3);
    push_u16_le(out, a.port);
}

/// Reads the IPv4 socket address at `at`.
pub fn read_addr_v4(bytes: &[u8], at: usize) -> (a: AddrV4)
    requires
        at + 6 <= bytes@.len(),
    ensures
        a == addr_v4_at(bytes@, at as int),
{
    AddrV4 {
        ip: Ipv4(bytes[at], bytes[at + 1], bytes[at + 2], bytes[at + 3]),
        port: read_u16_le(bytes, at + 4),
    }
}

pub proof fn lemma_addr_v4_roundtrip(a: AddrV4, prefix: Seq<u8>, rest: Seq<u8>)
    ensures
        addr_v4_at(prefix + addr_v4_bytes(a) + rest, prefix.len() as int) == a,
{
    lemma_u16_le_roundtrip(a.port);
    let s = prefix + addr_v4_bytes(a) + rest;
    let k = prefix.len() as int;
    assert(s[k] == a.ip.0);
    assert(s[k + 1] == a.ip.1);
    assert(s[k + 2] == a.ip.2);
    assert(s[k + 3] == a.ip.3);
    assert(s[k + 4] == u16_le(a.port)[0]);
    assert(s[k + 5] == u16_le(a.port)[1]);
}

} // verus!
