//! The datagrams exchanged by the sniffer, the helper and the breaker.
//!
//! Each message is laid out as Borsh lays out the corresponding Rust enum:
//! one byte for the variant's index, then the variant's fields, integers
//! little-endian. Decoding reads a message from the front of a datagram and
//! ignores whatever follows it.

use vstd::prelude::*;
use crate::addr::{
    addr_v4_at, addr_v4_bytes, addr_v6_bytes, lemma_addr_v4_roundtrip, lemma_u16_le_roundtrip, push_addr_v4,
    push_u16_le, read_addr_v4, read_u16_le, u16_le, u16_of_le, AddrV4, AddrV6, PeerAddr,
};

verus! {

/// What a client asks the sniffing server.
#[derive(Clone, Copy, Debug, PartialEq, Eq, Structural)]
pub enum Request {
    /// Cone test: the server and its helper answer with `Pong` from other ports and addresses.
    Ping,
    /// Mapping test: the server answers with the address it saw the request come from.
    AddressCheck,
}

/// What the sniffing server answers.
#[derive(Clone, Copy, Debug, PartialEq, Eq, Structural)]
pub enum Response {
    /// Answer to `Ping`.
    Pong,
    /// Answer to `AddressCheck`: the public address of the asking socket.
    CheckPong { addr: AddrV4 },
}

/// What two peers exchange while punching a hole.
#[derive(Clone, Copy, Debug, PartialEq, Eq, Structural)]
pub enum Message {
    BreakPing,
    BreakPong,
}

/// The helper's request to its assistant: answer `addr` with a `Pong`.
#[derive(Clone, Copy, Debug)]
pub struct Seeker {
    pub addr: PeerAddr,
}

pub open spec fn request_bytes(r: Request) -> Seq<u8> {
    match r {
        Request::Ping => seq![0u8],
        Request::AddressCheck => seq![1u8],
    }
}

pub open spec fn parse_request(s: Seq<u8>) -> Option<Request> {
    if s.len() >= 1 && s[0] == 0 {
        Some(Request::Ping)
    } else if s.len() >= 1 && s[0] == 1 {
        Some(Request::AddressCheck)
    } else {
        None
    }
}

pub open spec fn response_bytes(r: Response) -> Seq<u8> {
    match r {
        Response::Pong => seq![0u8],
        Response::CheckPong { addr } => seq![1u8] + addr_v4_bytes(addr),
    }
}

pub open spec fn parse_response(s: Seq<u8>) -> Option<Response> {
    if s.len() >= 1 && s[0] == 0 {
        Some(Response::Pong)
    } else if s.len() >= 7 && s[0] == 1 {
        Some(Response::CheckPong { addr: addr_v4_at(s, 1) })
    } else {
        None
    }
}

pub open spec fn message_bytes(m: Message) -> Seq<u8> {
    match m {
        Message::BreakPing => seq![0u8],
        Message::BreakPong => seq![1u8],
    }
}

pub open spec fn parse_message(s: Seq<u8>) -> Option<Message> {
    if s.len() >= 1 && s[0] == 0 {
        Some(Message::BreakPing)
    } else if s.len() >= 1 && s[0] == 1 {
        Some(Message::BreakPong)
    } else {
        None
    }
}

pub open spec fn peer_bytes(p: PeerAddr) -> Seq<u8> {
    match p {
        PeerAddr::V4(a) => seq![0u8] + addr_v4_bytes(a),
        PeerAddr::V6(a) => seq![1u8] + addr_v6_bytes(a),
    }
}

/// `s` starts with an encoded socket address.
pub open spec fn peer_decodable(s: Seq<u8>) -> bool {
    ||| s.len() >= 7 && s[0] == 0
    ||| s.len() >= 19 && s[0] == 1
}

/// `s` starts with the encoding of `p`.
pub open spec fn peer_decodes_to(s: Seq<u8>, p: PeerAddr) -> bool {
    match p {
        PeerAddr::V4(a) => s.len() >= 7 && s[0] == 0 && a == addr_v4_at(s, 1),
        PeerAddr::V6(a) => {
            &&& s.len() >= 19
            &&& s[0] == 1
            &&& a.ip@ == s.subrange(1, 17)
            &&& a.port == u16_of_le(s[17], s[18])
        },
    }
}

pub open spec fn seeker_bytes(k: Seeker) -> Seq<u8> {
    peer_bytes(k.addr)
}

impl Request {
    pub fn to_bytes(&self) -> (out: Vec<u8>)
        ensures
            out@ == request_bytes(*self),
    {
        let mut out: Vec<u8> = Vec::new();
        match self {
            Request::Ping => out.push(0u8),
            Request::AddressCheck => out.push(1u8),
        }
        proof {
            assert(out@ =~= request_bytes(*self));
        }
        out
    }

    pub fn from_bytes(bytes: &[u8]) -> (r: Option<Request>)
        ensures
            r == parse_request(bytes@),
    {
        if bytes.len() >= 1 && bytes[0] == 0 {
            Some(Request::Ping)
        } else if bytes.len() >= 1 && bytes[0] == 1 {
            Some(Request::AddressCheck)
        } else {
            None
        }
    }
}

impl Response {
    pub fn to_bytes(&self) -> (out: Vec<u8>)
        ensures
            out@ == response_bytes(*self),
    {
        let mut out: Vec<u8> = Vec::new();
        match self {
            Response::Pong => {
                out.push(0u8);
            },
            Response::CheckPong { addr } => {
                out.push(1u8);
                push_addr_v4(&mut out, *addr);
            },
        }
        proof {
            assert(out@ =~= response_bytes(*self));
        }
        out
    }

    pub fn from_bytes(bytes: &[u8]) -> (r: Option<Response>)
        ensures
            r == parse_response(bytes@),
    {
        if bytes.len() >= 1 && bytes[0] == 0 {
            Some(Response::Pong)
        } else if bytes.len() >= 7 && bytes[0] == 1 {
            Some(Response::CheckPong { addr: read_addr_v4(bytes, 1) })
        } else {
            None
        }
    }
}

impl Message {
    pub fn to_bytes(&self) -> (out: Vec<u8>)
        ensures
            out@ == message_bytes(*self),
    {
        let mut out: Vec<u8> = Vec::new();
        match self {
            Message::BreakPing => out.push(0u8),
            Message::BreakPong => out.push(1u8),
        }
        proof {
            assert(out@ =~= message_bytes(*self));
        }
        out
    }

    pub fn from_bytes(bytes: &[u8]) -> (r: Option<Message>)
        ensures
            r == parse_message(bytes@),
    {
        if bytes.len() >= 1 && bytes[0] == 0 {
            Some(Message::BreakPing)
        } else if bytes.len() >= 1 && bytes[0] == 1 {
            Some(Message::BreakPong)
        } else {
            None
        }
    }
}

/// Appends the encoding of a socket address to `out`.
pub fn push_peer(out: &mut Vec<u8>, p: PeerAddr)
    ensures
        final(out)@ == old(out)@ + peer_bytes(p),
{
    match p {
        PeerAddr::V4(a) => {
            out.push(0u8);
            push_addr_v4(out, a);
            proof {
                assert(final(out)@ =~= old(out)@ + peer_bytes(p));
            }
        },
        PeerAddr::V6(a) => {
            out.push(1u8);
            let ghost mid = out@;
            let mut i: usize = 0;
            while i < 16
                invariant
                    0 <= i <= 16,
                    out@ == mid + a.ip@.subrange(0, i as int),
                decreases 16 - i,
            {
                out.push(a.ip[i]);
                proof {
                    assert(a.ip@.subrange(0, i + 1) =~= a.ip@.subrange(0, i as int).push(a.ip@[i as int]));
                }
                i = i + 1;
            }
            push_u16_le(out, a.port);
            proof {
                assert(a.ip@.subrange(0, 16) =~= a.ip@);
                assert(final(out)@ =~= old(out)@ + peer_bytes(p));
            }
        },
    }
}

/// Reads a socket address from the front of `bytes`.
pub fn read_peer(bytes: &[u8]) -> (r: Option<PeerAddr>)
    ensures
        r is Some <==> peer_decodable(bytes@),
        r matches Some(p) ==> peer_decodes_to(bytes@, p),
{
    if bytes.len() >= 7 && bytes[0] == 0 {
        Some(PeerAddr::V4(read_addr_v4(bytes, 1)))
    } else if bytes.len() >= 19 && bytes[0] == 1 {
        let ip: [u8; 16] = [
            bytes[1], bytes[2], bytes[3], bytes[4], bytes[5], bytes[6], bytes[7], bytes[8],
            bytes[9], bytes[10], bytes[11], bytes[12], bytes[13], bytes[14], bytes[15], bytes[16],
        ];
        let port = read_u16_le(bytes, 17);
        proof {
            assert(ip@ =~= bytes@.subrange(1, 17));
        }
        Some(PeerAddr::V6(AddrV6 { ip, port }))
    } else {
        None
    }
}

impl Seeker {
    pub fn to_bytes(&self) -> (out: Vec<u8>)
        ensures
            out@ == seeker_bytes(*self),
    {
        let mut out: Vec<u8> = Vec::new();
        push_peer(&mut out, self.addr);
        proof {
            assert(out@ =~= seeker_bytes(*self));
        }
        out
    }

    pub fn from_bytes(bytes: &[u8]) -> (r: Option<Seeker>)
        ensures
            r is Some <==> peer_decodable(bytes@),
            r matches Some(k) ==> peer_decodes_to(bytes@, k.addr),
    {
        match read_peer(bytes) {
            Some(addr) => Some(Seeker { addr }),
            None => None,
        }
    }
}

/// Decoding a request gives back the request that was encoded, whatever follows it.
pub proof fn request_roundtrip(r: Request, rest: Seq<u8>)
    ensures
        parse_request(request_bytes(r) + rest) == Some(r),
{
}

/// Decoding a response gives back the response that was encoded, whatever follows it.
pub proof fn response_roundtrip(r: Response, rest: Seq<u8>)
    ensures
        parse_response(response_bytes(r) + rest) == Some(r),
{
    match r {
        Response::Pong => {},
        Response::CheckPong { addr } => {
            lemma_addr_v4_roundtrip(addr, seq![1u8], rest);
            assert(response_bytes(r) + rest =~= seq![1u8] + addr_v4_bytes(addr) + rest);
        },
    }
}

/// Decoding a hole-punching message gives back the message that was encoded.
pub proof fn message_roundtrip(m: Message, rest: Seq<u8>)
    ensures
        parse_message(message_bytes(m) + rest) == Some(m),
{
}

/// Decoding a socket address gives back the address that was encoded.
pub proof fn peer_roundtrip(p: PeerAddr, rest: Seq<u8>)
    ensures
        peer_decodable(peer_bytes(p) + rest),
        peer_decodes_to(peer_bytes(p) + rest, p),
{
    let s = peer_bytes(p) + rest;
    match p {
        PeerAddr::V4(a) => {
            lemma_addr_v4_roundtrip(a, seq![0u8], rest);
            assert(s =~= seq![0u8] + addr_v4_bytes(a) + rest);
        },
        PeerAddr::V6(a) => {
            lemma_u16_le_roundtrip(a.port);
            assert(a.ip@.len() == 16);
            assert(s.subrange(1, 17) =~= a.ip@);
            assert(s[17] == u16_le(a.port)[0]);
            assert(s[18] == u16_le(a.port)[1]);
        },
    }
}

/// Two encodings that decode to the same address hold the same address.
pub proof fn peer_decoding_is_unique(s: Seq<u8>, p: PeerAddr, q: PeerAddr)
    requires
        peer_decodes_to(s, p),
        peer_decodes_to(s, q),
    ensures
        p == q,
{
    match (p, q) {
        (PeerAddr::V6(a), PeerAddr::V6(b)) => {
            assert(a.ip@ =~= b.ip@);
            vstd::array::axiom_array_ext_equal(a.ip, b.ip);
            assert(a.ip == b.ip);
        },
        _ => {},
    }
}

} // verus!
