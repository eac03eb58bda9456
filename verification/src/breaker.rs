//! Hole punching between two peers behind NATs.
//!
//! Each peer first learns its public address from the sniffing server
//! (`AddressCheck`), learns the other peer's address, and then keeps sending
//! `BreakPing`s at it while answering what comes back. The functions here are
//! the decisions a peer takes on each datagram, and the port sweep used when
//! the other peer's NAT changes ports.

use vstd::prelude::*;
use crate::addr::AddrV4;
use crate::wire::{message_bytes, parse_message, parse_response, response_bytes, response_roundtrip, Message, Response};

verus! {

/// The local port of the first hole-punching socket.
pub const PUNCH_PORT: u16 = 6666;

/// The local port of the second socket, used when both peers run on one host.
pub const SECOND_PUNCH_PORT: u16 = 8888;

/// How many `BreakPing`s a peer sends before it starts listening.
pub const BREAK_PING_BURST: u32 = 10;

/// Milliseconds between two pings of the initial burst or of the port sweep.
pub const PING_INTERVAL_MILLIS: u64 = 1;

/// Seconds a peer waits after answering a message.
pub const REPLY_PAUSE_SECS: u64 = 1;

/// The file the other peer's public address is read from.
pub const PEER_ADDRESS_FILE: &'static str = "/root/break_addr";

/// What a peer does with a datagram while waiting for its public address.
#[derive(Clone, Copy, Debug, PartialEq, Eq, Structural)]
pub enum AddressWait {
    /// The server reported this public address: hand it to the other peer and stop waiting.
    Forward(AddrV4),
    /// Something else: keep waiting.
    KeepWaiting,
    /// The datagram is not a response: the waiting task fails.
    Fail,
}

/// What a punching peer does with a datagram from the hole.
#[derive(Clone, Copy, Debug, PartialEq, Eq, Structural)]
pub enum PunchReply {
    /// Send this message to the other peer's address.
    Send(Message),
    /// The datagram is not a message: the punching task fails.
    Fail,
}

/// What a listening peer does with a datagram.
#[derive(Clone, Copy, Debug, PartialEq, Eq, Structural)]
pub enum ListenReply {
    /// Send this message back to the sender.
    ReplyToSender(Message),
    /// Nothing to send.
    Nothing,
    /// The datagram is not a message: the listening task fails.
    Fail,
}

pub open spec fn spec_address_wait(payload: Seq<u8>) -> AddressWait {
    match parse_response(payload) {
        None => AddressWait::Fail,
        Some(Response::CheckPong { addr }) => AddressWait::Forward(addr),
        Some(Response::Pong) => AddressWait::KeepWaiting,
    }
}

pub open spec fn spec_punch_reply(payload: Seq<u8>) -> PunchReply {
    match parse_message(payload) {
        None => PunchReply::Fail,
        Some(Message::BreakPong) => PunchReply::Send(Message::BreakPing),
        Some(Message::BreakPing) => PunchReply::Send(Message::BreakPong),
    }
}

pub open spec fn spec_listen_reply(payload: Seq<u8>) -> ListenReply {
    match parse_message(payload) {
        None => ListenReply::Fail,
        Some(Message::BreakPong) => ListenReply::Nothing,
        Some(Message::BreakPing) => ListenReply::ReplyToSender(Message::BreakPong),
    }
}

/// A datagram received while waiting for the server's `CheckPong`.
pub fn address_wait(payload: &[u8]) -> (w: AddressWait)
    ensures
        w == spec_address_wait(payload@),
{
    match Response::from_bytes(payload) {
        None => AddressWait::Fail,
        Some(Response::CheckPong { addr }) => AddressWait::Forward(addr),
        Some(Response::Pong) => AddressWait::KeepWaiting,
    }
}

/// A datagram received by a peer punching towards a known address: a pong
/// is answered with a new ping, a ping with a pong.
pub fn punch_reply(payload: &[u8]) -> (r: PunchReply)
    ensures
        r == spec_punch_reply(payload@),
{
    match Message::from_bytes(payload) {
        None => PunchReply::Fail,
        Some(Message::BreakPong) => PunchReply::Send(Message::BreakPing),
        Some(Message::BreakPing) => PunchReply::Send(Message::BreakPong),
    }
}

/// A datagram received by a peer that pings from another task: pings are
/// answered with a pong to whoever sent them, pongs only noted.
pub fn listen_reply(payload: &[u8]) -> (r: ListenReply)
    ensures
        r == spec_listen_reply(payload@),
{
    match Message::from_bytes(payload) {
        None => ListenReply::Fail,
        Some(Message::BreakPong) => ListenReply::Nothing,
        Some(Message::BreakPing) => ListenReply::ReplyToSender(Message::BreakPong),
    }
}

/// The text of the peer address file, without its line breaks.
pub fn strip_newlines(text: &[u8]) -> (out: Vec<u8>)
    ensures
        out@ == text@.filter(|b: u8| b != 10u8),
{
    let mut out: Vec<u8> = Vec::new();
    let mut i: usize = 0;
    while i < text.len()
        invariant
            0 <= i <= text@.len(),
            out@ == text@.subrange(0, i as int).filter(|b: u8| b != 10u8),
        decreases text@.len() - i,
    {
        proof {
            let s = text@.subrange(0, i + 1);
            assert(s.drop_last() =~= text@.subrange(0, i as int));
            reveal_with_fuel(Seq::<_>::filter, 1);
        }
        if text[i] != 10u8 {
            out.push(text[i]);
        }
        i = i + 1;
    }
    proof {
        assert(text@.subrange(0, text@.len() as int) =~= text@);
    }
    out
}

/// The port sweep: the port pinged next, and whether the sweep is going up.
#[derive(Clone, Copy, Debug, PartialEq, Eq, Structural)]
pub struct PortSweep {
    pub port: u16,
    pub ascending: bool,
}

/// The length of one full sweep up and back down.
pub open spec fn sweep_period() -> int {
    131068
}

/// The port pinged at step `n` of a sweep started at port 1: the ports go up
/// from 1 to 65535, back down to 1, and so on.
pub open spec fn swept_port(n: nat) -> int {
    let m = (n as int) % sweep_period();
    if m <= 65534 {
        1 + m
    } else {
        sweep_period() + 1 - m
    }
}

/// The direction of the sweep at step `n`.
pub open spec fn sweeping_up(n: nat) -> bool {
    (n as int) % sweep_period() < 65534
}

/// The sweep after `n` steps from its start.
pub open spec fn sweep_after(n: nat) -> PortSweep
    decreases n,
{
    if n == 0 {
        PortSweep { port: 1, ascending: true }
    } else {
        sweep_after((n - 1) as nat).spec_next()
    }
}

impl PortSweep {
    /// Ports stay within 1..=65535 and the sweep turns at both ends.
    pub open spec fn wf(self) -> bool {
        &&& 1 <= self.port
        &&& self.port == 65535 ==> !self.ascending
        &&& self.port == 1 ==> self.ascending
    }

    pub open spec fn spec_next(self) -> PortSweep {
        let port = if self.ascending { self.port + 1 } else { self.port - 1 };
        let ascending = if port == 1 { true } else if port == 65535 { false } else { self.ascending };
        PortSweep { port: port as u16, ascending }
    }

    /// The sweep starts at port 1, going up.
    pub fn start() -> (s: PortSweep)
        ensures
            s == sweep_after(0),
            s.wf(),
    {
        PortSweep { port: 1, ascending: true }
    }

    /// The sweep after the current port has been pinged.
    pub fn next(&self) -> (s: PortSweep)
        requires
            self.wf(),
        ensures
            s == self.spec_next(),
            s.wf(),
    {
        let mut port = self.port;
        let mut ascending = self.ascending;
        if ascending {
            port = port + 1;
        } else {
            port = port - 1;
        }
        if port == 1 {
            ascending = true;
        }
        if port == 65535 {
            ascending = false;
        }
        PortSweep { port, ascending }
    }
}

/// Each step keeps the sweep within its bounds.
pub proof fn sweep_stays_in_range(s: PortSweep)
    requires
        s.wf(),
    ensures
        s.spec_next().wf(),
{
}

/// The port pinged at step `n` is `swept_port(n)`: the sweep bounces between
/// 1 and 65535, never reaching port 0 and never overflowing.
pub proof fn sweep_follows_triangle(n: nat)
    ensures
        sweep_after(n).port == swept_port(n),
        sweep_after(n).ascending == sweeping_up(n),
        sweep_after(n).wf(),
    decreases n,
{
    if n > 0 {
        let k = (n - 1) as nat;
        sweep_follows_triangle(k);
        let m = (k as int) % sweep_period();
        let m2 = (n as int) % sweep_period();
        assert(m2 == if m + 1 == sweep_period() { 0 } else { m + 1 }) by {
            vstd::arithmetic::div_mod::lemma_add_mod_noop(k as int, 1, sweep_period());
            vstd::arithmetic::div_mod::lemma_small_mod(1nat, sweep_period() as nat);
            vstd::arithmetic::div_mod::lemma_mod_bound(k as int, sweep_period());
            if m + 1 < sweep_period() {
                vstd::arithmetic::div_mod::lemma_small_mod((m + 1) as nat, sweep_period() as nat);
            } else {
                vstd::arithmetic::div_mod::lemma_mod_self_0(sweep_period());
            }
        }
    }
}

/// Every port from 1 to 65535 is pinged during the first 65535 steps.
pub proof fn sweep_reaches_every_port(port: u16)
    requires
        1 <= port,
    ensures
        sweep_after((port - 1) as nat).port == port,
{
    let n = (port - 1) as nat;
    sweep_follows_triangle(n);
    vstd::arithmetic::div_mod::lemma_small_mod(n, sweep_period() as nat);
}

/// While waiting for its public address, a peer forwards exactly the address
/// the server's `CheckPong` reports, keeps waiting on a `Pong`, and fails on
/// anything that is not a response.
pub proof fn address_wait_forwards_the_reported_address(addr: AddrV4, rest: Seq<u8>)
    ensures
        spec_address_wait(response_bytes(Response::CheckPong { addr }) + rest) == AddressWait::Forward(addr),
        spec_address_wait(response_bytes(Response::Pong) + rest) == AddressWait::KeepWaiting,
        rest.len() == 0 || rest[0] > 1 ==> spec_address_wait(rest) == AddressWait::Fail,
{
    response_roundtrip(Response::CheckPong { addr }, rest);
    response_roundtrip(Response::Pong, rest);
}

/// A punching peer answers a ping with a pong and a pong with a new ping; a
/// listening peer answers a ping with a pong to its sender and answers no
/// pong; both fail on anything that is not a message.
pub proof fn pings_are_answered_with_pongs(rest: Seq<u8>)
    ensures
        spec_punch_reply(message_bytes(Message::BreakPing) + rest) == PunchReply::Send(Message::BreakPong),
        spec_punch_reply(message_bytes(Message::BreakPong) + rest) == PunchReply::Send(Message::BreakPing),
        spec_listen_reply(message_bytes(Message::BreakPing) + rest) == ListenReply::ReplyToSender(
            Message::BreakPong,
        ),
        spec_listen_reply(message_bytes(Message::BreakPong) + rest) == ListenReply::Nothing,
        rest.len() == 0 || rest[0] > 1 ==> spec_punch_reply(rest) == PunchReply::Fail && spec_listen_reply(rest)
            == ListenReply::Fail,
{
    assert((message_bytes(Message::BreakPing) + rest)[0] == 0);
    assert((message_bytes(Message::BreakPong) + rest)[0] == 1);
}

} // verus!
