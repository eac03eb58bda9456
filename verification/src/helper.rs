//! The sniffing server ("sniffer helper").
//!
//! Its main socket answers `Ping` three ways: with a `Pong` from a second
//! local port, with a `Pong` from its assistant (another host, asked through a
//! `Seeker` datagram), and with a `Pong` from the main socket itself. It
//! answers `AddressCheck` with the IPv4 address the request came from.

use vstd::prelude::*;
use crate::addr::PeerAddr;
use crate::wire::{
    parse_request, peer_decodable, peer_decodes_to, response_bytes, seeker_bytes, Request,
    Response, Seeker,
};

verus! {

/// The port of the main socket.
pub const MAIN_PORT: u16 = 6666;

/// The port of the socket that answers pings from a second local port.
pub const TRANSMIT_PORT: u16 = 7777;

/// The port the assistant listens on for `Seeker` datagrams.
pub const ASSISTANT_PORT: u16 = 9527;

/// The local socket a datagram leaves from.
#[derive(Clone, Copy, Debug, PartialEq, Eq, Structural)]
pub enum Via {
    /// The main socket (`MAIN_PORT`).
    Main,
    /// The second socket (`TRANSMIT_PORT`).
    Transmit,
}

/// Where a datagram goes.
#[derive(Clone, Copy, Debug)]
pub enum Dest {
    /// The client that sent the request.
    Peer(PeerAddr),
    /// The assistant host, at `ASSISTANT_PORT`.
    Assistant,
}

/// One datagram to send.
#[derive(Debug)]
pub struct Outgoing {
    pub via: Via,
    pub to: Dest,
    pub payload: Vec<u8>,
}

impl Outgoing {
    pub open spec fn view(&self) -> (Via, Dest, Seq<u8>) {
        (self.via, self.to, self.payload@)
    }
}

/// The main socket's answer to a datagram.
#[derive(Debug)]
pub enum HelperAction {
    /// Not a request: nothing is sent.
    Ignore,
    /// Send these datagrams.
    Send(Vec<Outgoing>),
    /// An `AddressCheck` from an IPv6 sender, which the server cannot answer: it stops.
    Fatal,
}

/// The datagrams that answer `Ping` from `src`.
pub open spec fn ping_answers(src: PeerAddr) -> Seq<(Via, Dest, Seq<u8>)> {
    seq![
        (Via::Transmit, Dest::Peer(src), response_bytes(Response::Pong)),
        (Via::Main, Dest::Assistant, seeker_bytes(Seeker { addr: src })),
        (Via::Main, Dest::Peer(src), response_bytes(Response::Pong)),
    ]
}

/// The main socket's answer to the datagram `payload` from `src`: `None`
/// for `Fatal`, otherwise the datagrams to send.
pub open spec fn helper_answer(src: PeerAddr, payload: Seq<u8>) -> Option<Seq<(Via, Dest, Seq<u8>)>> {
    match parse_request(payload) {
        None => Some(Seq::empty()),
        Some(Request::Ping) => Some(ping_answers(src)),
        Some(Request::AddressCheck) => match src {
            PeerAddr::V4(a) => Some(
                seq![(Via::Main, Dest::Peer(src), response_bytes(Response::CheckPong { addr: a }))],
            ),
            PeerAddr::V6(_) => None,
        },
    }
}

fn outgoing(via: Via, to: Dest, payload: Vec<u8>) -> (o: Outgoing)
    ensures
        o.view() == (via, to, payload@),
{
    Outgoing { via, to, payload }
}

/// The main socket's answer to the datagram `payload` from `src`.
pub fn on_request(src: PeerAddr, payload: &[u8]) -> (act: HelperAction)
    ensures
        match act {
            HelperAction::Ignore => parse_request(payload@) is None,
            HelperAction::Send(out) => parse_request(payload@) is Some && helper_answer(src, payload@)
                == Some(out@.map_values(|o: Outgoing| o.view())),
            HelperAction::Fatal => helper_answer(src, payload@) is None,
        },
        act matches HelperAction::Send(out) ==> forall|i: int|
            0 <= i < out.len() ==> (#[trigger] out@[i].to matches Dest::Peer(p) ==> p == src),
        parse_request(payload@) == Some(Request::Ping) ==> (act matches HelperAction::Send(out) && out.len() == 3
            && out@[0].view() == (Via::Transmit, Dest::Peer(src), response_bytes(Response::Pong))
            && out@[1].view() == (Via::Main, Dest::Assistant, seeker_bytes(Seeker { addr: src }))
            && out@[2].view() == (Via::Main, Dest::Peer(src), response_bytes(Response::Pong))),
{
    match Request::from_bytes(payload) {
        None => HelperAction::Ignore,
        Some(Request::Ping) => {
            let mut out: Vec<Outgoing> = Vec::new();
            out.push(outgoing(Via::Transmit, Dest::Peer(src), Response::Pong.to_bytes()));
            out.push(outgoing(Via::Main, Dest::Assistant, Seeker { addr: src }.to_bytes()));
            out.push(outgoing(Via::Main, Dest::Peer(src), Response::Pong.to_bytes()));
            proof {
                assert(out@.map_values(|o: Outgoing| o.view()) =~= ping_answers(src));
            }
            HelperAction::Send(out)
        },
        Some(Request::AddressCheck) => match src {
            PeerAddr::V4(a) => {
                let mut out: Vec<Outgoing> = Vec::new();
                out.push(outgoing(Via::Main, Dest::Peer(src), Response::CheckPong { addr: a }.to_bytes()));
                proof {
                    assert(out@.map_values(|o: Outgoing| o.view()) =~= seq![
                        (Via::Main, Dest::Peer(src), response_bytes(Response::CheckPong { addr: a })),
                    ]);
                }
                HelperAction::Send(out)
            },
            PeerAddr::V6(_) => HelperAction::Fatal,
        },
    }
}

/// The assistant's answer to a datagram: a `Pong` for the address a
/// `Seeker` names, sent from the assistant's own socket; nothing for
/// anything else.
pub fn on_seeker(payload: &[u8]) -> (r: Option<(PeerAddr, Vec<u8>)>)
    ensures
        r is Some <==> peer_decodable(payload@),
        r matches Some((to, pong)) ==> peer_decodes_to(payload@, to) && pong@ == response_bytes(
            Response::Pong,
        ),
{
    match Seeker::from_bytes(payload) {
        None => None,
        Some(seeker) => Some((seeker.addr, Response::Pong.to_bytes())),
    }
}

/// A `Ping` is answered three times: from the second socket, through the
/// assistant, and from the main socket, each time to the pinging client.
pub proof fn ping_is_answered_three_ways(src: PeerAddr, rest: Seq<u8>)
    ensures
        helper_answer(src, seq![0u8] + rest) == Some(ping_answers(src)),
        ping_answers(src).len() == 3,
{
}

/// An `AddressCheck` from an IPv4 client is answered with the client's own address.
pub proof fn address_check_reports_sender(src: crate::addr::AddrV4, rest: Seq<u8>)
    ensures
        helper_answer(PeerAddr::V4(src), seq![1u8] + rest) == Some(
            seq![
                (
                    Via::Main,
                    Dest::Peer(PeerAddr::V4(src)),
                    response_bytes(Response::CheckPong { addr: src }),
                ),
            ],
        ),
{
}

/// Every datagram that answers a `Ping` from `src` and goes to a client goes
/// to `src` itself, from the second socket and from the main socket, each
/// a `Pong`; the third goes to the assistant and names `src`.
pub proof fn ping_answers_go_back_to_the_sender(src: PeerAddr, rest: Seq<u8>)
    ensures
        helper_answer(src, seq![0u8] + rest) matches Some(out) && {
            &&& out.len() == 3
            &&& forall|i: int| 0 <= i < out.len() ==> (#[trigger] out[i].1 matches Dest::Peer(p) ==> p == src)
            &&& out[0] == (Via::Transmit, Dest::Peer(src), response_bytes(Response::Pong))
            &&& out[1] == (Via::Main, Dest::Assistant, seeker_bytes(Seeker { addr: src }))
            &&& out[2] == (Via::Main, Dest::Peer(src), response_bytes(Response::Pong))
        },
{
}

} // verus!
