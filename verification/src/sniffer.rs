//! The NAT type sniffer's verdict.
//!
//! Two judges run side by side. The mapping judge sends `AddressCheck` from
//! one socket to both sniffing servers and collects the public addresses they
//! report; the cone judge sends `Ping` to the primary server and looks at
//! where the `Pong`s come from. Each judge hands every datagram it receives
//! to its step function below, which says whether the judge goes on
//! listening; the cone judge's step also updates the verdict.
//!
//! The mapping judge ends as soon as the second address has been reported,
//! before any comparison is made (reading the reports it looks for a third
//! one, which is not there), so it never changes the verdict.

use vstd::prelude::*;
use crate::addr::{AddrV4, Ipv4, PeerAddr};
use crate::wire::{parse_response, response_bytes, response_roundtrip, Response};

verus! {

/// The kind of NAT the local host sits behind.
#[derive(Clone, Copy, Debug, PartialEq, Eq, Structural)]
pub enum NatType {
    /// Full cone: any host may send to the mapped address.
    FullCone,
    /// Restricted cone: only hosts we sent to may send back.
    RestrictedCone,
    /// Port restricted cone: only the host and port we sent to may send back.
    PortRestrictedCone,
    /// Symmetric.
    Symmetric,
    /// IPv6.
    IPV6,
    /// Not determined (yet).
    Unknown,
}

/// Whether a judge keeps listening after a datagram.
#[derive(Clone, Copy, Debug, PartialEq, Eq, Structural)]
pub enum Flow {
    Continue,
    Stop,
}

/// The port every sniffing server listens on.
pub const SERVER_PORT: u16 = 6666;

/// The local port of the mapping judge's socket.
pub const MAPPING_JUDGE_PORT: u16 = 6666;

/// The local port of the cone judge's socket.
pub const CONE_JUDGE_PORT: u16 = 8888;

/// Seconds a judge waits for a datagram before it gives up.
pub const JUDGE_TIMEOUT_SECS: u64 = 2;

pub open spec fn spec_primary_server() -> AddrV4 {
    AddrV4 { ip: Ipv4(141, 164, 51, 24), port: 6666 }
}

pub open spec fn spec_secondary_server() -> AddrV4 {
    AddrV4 { ip: Ipv4(158, 247, 233, 22), port: 6666 }
}

/// The primary sniffing server: both judges talk to it.
pub fn primary_server() -> (a: AddrV4)
    ensures
        a == spec_primary_server(),
{
    AddrV4 { ip: Ipv4(141, 164, 51, 24), port: SERVER_PORT }
}

/// The secondary sniffing server: only the mapping judge talks to it.
pub fn secondary_server() -> (a: AddrV4)
    ensures
        a == spec_secondary_server(),
{
    AddrV4 { ip: Ipv4(158, 247, 233, 22), port: SERVER_PORT }
}

/// The datagram came from one of the two sniffing servers.
pub open spec fn from_mapping_server(src: PeerAddr) -> bool {
    match src {
        PeerAddr::V4(a) => a == spec_primary_server() || a == spec_secondary_server(),
        PeerAddr::V6(_) => false,
    }
}

/// One datagram seen by the mapping judge.
///
/// `seen` holds the addresses reported by the `CheckPong`s received so far.
/// Datagrams from other senders are ignored; an undecodable one from a
/// server ends the judge. A decodable one adds its address to `seen` if it is
/// a `CheckPong`; the judge ends once `seen` holds exactly two addresses.
pub open spec fn mapping_step(seen: Seq<AddrV4>, src: PeerAddr, payload: Seq<u8>) -> (Seq<AddrV4>, Flow) {
    if !from_mapping_server(src) {
        (seen, Flow::Continue)
    } else {
        match parse_response(payload) {
            None => (seen, Flow::Stop),
            Some(r) => {
                let seen2 = match r {
                    Response::CheckPong { addr } => seen.push(addr),
                    Response::Pong => seen,
                };
                if seen2.len() == 2 {
                    (seen2, Flow::Stop)
                } else {
                    (seen2, Flow::Continue)
                }
            },
        }
    }
}

/// One datagram seen by the cone judge.
///
/// Only well-formed `Pong`s from IPv4 senders count. A `Pong` from the
/// primary server's own address and port makes an `Unknown` verdict
/// `PortRestrictedCone`; one from the server's address but another port makes
/// the verdict `RestrictedCone`; one from any other address makes it
/// `FullCone` and ends the judge.
pub open spec fn cone_step(verdict: NatType, src: PeerAddr, payload: Seq<u8>) -> (NatType, Flow) {
    if parse_response(payload) != Some(Response::Pong) {
        (verdict, Flow::Continue)
    } else {
        match src {
            PeerAddr::V4(a) => {
                if a.ip == spec_primary_server().ip {
                    if a.port == spec_primary_server().port {
                        (if verdict == NatType::Unknown { NatType::PortRestrictedCone } else { verdict }, Flow::Continue)
                    } else {
                        (NatType::RestrictedCone, Flow::Continue)
                    }
                } else {
                    (NatType::FullCone, Flow::Stop)
                }
            },
            PeerAddr::V6(_) => (verdict, Flow::Continue),
        }
    }
}

/// The mapping judge's reaction to the datagram `payload` from `src`.
pub fn mapping_judge(seen: &mut Vec<AddrV4>, src: PeerAddr, payload: &[u8]) -> (flow: Flow)
    ensures
        (final(seen)@, flow) == mapping_step(old(seen)@, src, payload@),
{
    let from_server = match src {
        PeerAddr::V4(a) => a == primary_server() || a == secondary_server(),
        PeerAddr::V6(_) => false,
    };
    if !from_server {
        return Flow::Continue;
    }
    match Response::from_bytes(payload) {
        None => Flow::Stop,
        Some(r) => {
            match r {
                Response::CheckPong { addr } => seen.push(addr),
                Response::Pong => {},
            }
            if seen.len() == 2 {
                Flow::Stop
            } else {
                Flow::Continue
            }
        },
    }
}

/// The cone judge's reaction to the datagram `payload` from `src`.
pub fn cone_judge(verdict: &mut NatType, src: PeerAddr, payload: &[u8]) -> (flow: Flow)
    ensures
        (*final(verdict), flow) == cone_step(*old(verdict), src, payload@),
        src matches PeerAddr::V4(a) ==> parse_response(payload@) == Some(Response::Pong) ==> {
            &&& a.ip == spec_primary_server().ip && a.port != spec_primary_server().port ==> *final(verdict)
                == NatType::RestrictedCone && flow == Flow::Continue
            &&& a.ip != spec_primary_server().ip ==> *final(verdict) == NatType::FullCone && flow == Flow::Stop
            &&& a == spec_primary_server() ==> flow == Flow::Continue && *final(verdict) == (if *old(verdict)
                == NatType::Unknown {
                NatType::PortRestrictedCone
            } else {
                *old(verdict)
            })
        },
        parse_response(payload@) != Some(Response::Pong) ==> *final(verdict) == *old(verdict) && flow
            == Flow::Continue,
{
    match Response::from_bytes(payload) {
        Some(Response::Pong) => {},
        _ => {
            return Flow::Continue;
        },
    }
    match src {
        PeerAddr::V4(a) => {
            let server = primary_server();
            if a.ip == server.ip {
                if a.port == server.port {
                    if *verdict == NatType::Unknown {
                        *verdict = NatType::PortRestrictedCone;
                    }
                } else {
                    *verdict = NatType::RestrictedCone;
                }
                Flow::Continue
            } else {
                *verdict = NatType::FullCone;
                Flow::Stop
            }
        },
        PeerAddr::V6(_) => Flow::Continue,
    }
}

/// A `Pong` from an address other than the primary server's is proof of a
/// full cone: whatever the verdict was, it becomes `FullCone` and the cone
/// judge stops.
pub proof fn pong_from_elsewhere_is_full_cone(verdict: NatType, from: AddrV4, rest: Seq<u8>)
    requires
        from.ip != spec_primary_server().ip,
    ensures
        cone_step(verdict, PeerAddr::V4(from), response_bytes(Response::Pong) + rest) == (
            NatType::FullCone,
            Flow::Stop,
        ),
{
    assert((response_bytes(Response::Pong) + rest)[0] == 0);
}

/// The cone judge never concludes `Symmetric`.
pub proof fn cone_step_never_concludes_symmetric(verdict: NatType, src: PeerAddr, payload: Seq<u8>)
    ensures
        cone_step(verdict, src, payload).0 == NatType::Symmetric ==> verdict == NatType::Symmetric,
{
}

/// The mapping judge ends at the second reported address, whatever the
/// addresses are.
pub proof fn mapping_judge_ends_at_second_report(seen: Seq<AddrV4>, src: PeerAddr, payload: Seq<u8>)
    requires
        seen.len() == 1,
        from_mapping_server(src),
        parse_response(payload) matches Some(Response::CheckPong { .. }),
    ensures
        mapping_step(seen, src, payload).0.len() == 2,
        mapping_step(seen, src, payload).1 == Flow::Stop,
{
}

/// Datagrams from anyone but the two servers leave the mapping judge untouched.
pub proof fn mapping_judge_ignores_strangers(seen: Seq<AddrV4>, src: PeerAddr, payload: Seq<u8>)
    requires
        !from_mapping_server(src),
    ensures
        mapping_step(seen, src, payload) == (seen, Flow::Continue),
{
}

/// The verdict after the cone judge has handled `events` in order,
/// stopping at the first one that ends it.
pub open spec fn cone_run(verdict: NatType, events: Seq<(PeerAddr, Seq<u8>)>) -> NatType
    decreases events.len(),
{
    if events.len() == 0 {
        verdict
    } else {
        let (verdict2, flow) = cone_step(verdict, events[0].0, events[0].1);
        if flow == Flow::Stop {
            verdict2
        } else {
            cone_run(verdict2, events.drop_first())
        }
    }
}

/// Which judge a datagram reaches.
#[derive(Clone, Copy, Debug, PartialEq, Eq, Structural)]
pub enum Judge {
    Mapping,
    Cone,
}

/// The verdict after both judges, starting from `verdict`, have handled
/// `events` in the order given, each judge ignoring what reaches it once it
/// has ended (`mapping_on`, `cone_on`: whether each is still listening).
pub open spec fn sniff_run(
    seen: Seq<AddrV4>,
    verdict: NatType,
    mapping_on: bool,
    cone_on: bool,
    events: Seq<(Judge, PeerAddr, Seq<u8>)>,
) -> NatType
    decreases events.len(),
{
    if events.len() == 0 {
        verdict
    } else {
        let (judge, src, payload) = events[0];
        let rest = events.drop_first();
        if judge == Judge::Mapping && mapping_on {
            let (seen2, flow) = mapping_step(seen, src, payload);
            sniff_run(seen2, verdict, flow == Flow::Continue, cone_on, rest)
        } else if judge == Judge::Cone && cone_on {
            let (verdict2, flow) = cone_step(verdict, src, payload);
            sniff_run(seen, verdict2, mapping_on, flow == Flow::Continue, rest)
        } else {
            sniff_run(seen, verdict, mapping_on, cone_on, rest)
        }
    }
}

/// The datagrams of `events` that reach the cone judge, in order.
pub open spec fn cone_events(events: Seq<(Judge, PeerAddr, Seq<u8>)>) -> Seq<(PeerAddr, Seq<u8>)>
    decreases events.len(),
{
    if events.len() == 0 {
        Seq::empty()
    } else if events[0].0 == Judge::Cone {
        seq![(events[0].1, events[0].2)] + cone_events(events.drop_first())
    } else {
        cone_events(events.drop_first())
    }
}

proof fn lemma_stopped_cone_keeps_verdict(
    seen: Seq<AddrV4>,
    verdict: NatType,
    mapping_on: bool,
    events: Seq<(Judge, PeerAddr, Seq<u8>)>,
)
    ensures
        sniff_run(seen, verdict, mapping_on, false, events) == verdict,
    decreases events.len(),
{
    if events.len() > 0 {
        let (judge, src, payload) = events[0];
        let (seen2, flow) = mapping_step(seen, src, payload);
        lemma_stopped_cone_keeps_verdict(seen2, verdict, flow == Flow::Continue, events.drop_first());
        lemma_stopped_cone_keeps_verdict(seen, verdict, mapping_on, events.drop_first());
    }
}

/// However the two judges' datagrams interleave, the verdict is the one the
/// cone judge reaches on its own datagrams: the mapping judge never changes it.
pub proof fn verdict_is_the_cone_judges(
    seen: Seq<AddrV4>,
    verdict: NatType,
    mapping_on: bool,
    events: Seq<(Judge, PeerAddr, Seq<u8>)>,
)
    ensures
        sniff_run(seen, verdict, mapping_on, true, events) == cone_run(verdict, cone_events(events)),
    decreases events.len(),
{
    if events.len() > 0 {
        let (judge, src, payload) = events[0];
        let rest = events.drop_first();
        if judge == Judge::Mapping {
            let (seen2, flow) = mapping_step(seen, src, payload);
            verdict_is_the_cone_judges(seen2, verdict, flow == Flow::Continue, rest);
            verdict_is_the_cone_judges(seen, verdict, mapping_on, rest);
        } else {
            let (verdict2, flow) = cone_step(verdict, src, payload);
            let ce = cone_events(events);
            assert(ce[0] == (src, payload));
            assert(ce.drop_first() =~= cone_events(rest));
            if flow == Flow::Continue {
                verdict_is_the_cone_judges(seen, verdict2, mapping_on, rest);
            } else {
                lemma_stopped_cone_keeps_verdict(seen, verdict2, mapping_on, rest);
            }
        }
    }
}

/// Once the cone judge has concluded `FullCone` (and so ended), the verdict
/// stays `FullCone` whatever the mapping judge receives afterwards.
pub proof fn full_cone_is_final(seen: Seq<AddrV4>, mapping_on: bool, events: Seq<(Judge, PeerAddr, Seq<u8>)>)
    ensures
        sniff_run(seen, NatType::FullCone, mapping_on, false, events) == NatType::FullCone,
{
    lemma_stopped_cone_keeps_verdict(seen, NatType::FullCone, mapping_on, events);
}

/// The sniffer never concludes `Symmetric`, however its datagrams interleave.
pub proof fn sniffer_never_concludes_symmetric(
    seen: Seq<AddrV4>,
    verdict: NatType,
    events: Seq<(Judge, PeerAddr, Seq<u8>)>,
)
    requires
        verdict != NatType::Symmetric,
    ensures
        sniff_run(seen, verdict, true, true, events) != NatType::Symmetric,
{
    verdict_is_the_cone_judges(seen, verdict, true, events);
    cone_judge_never_concludes_symmetric(verdict, cone_events(events));
}

/// The cone judge alone never reaches `Symmetric`, whatever it receives.
pub proof fn cone_judge_never_concludes_symmetric(verdict: NatType, events: Seq<(PeerAddr, Seq<u8>)>)
    requires
        verdict != NatType::Symmetric,
    ensures
        cone_run(verdict, events) != NatType::Symmetric,
    decreases events.len(),
{
    if events.len() > 0 {
        let (verdict2, flow) = cone_step(verdict, events[0].0, events[0].1);
        cone_judge_never_concludes_symmetric(verdict2, events.drop_first());
    }
}

/// A `Pong` from the primary server's host on another port than the
/// server's shows a restricted cone: whatever the verdict was (`Unknown`
/// included), it becomes `RestrictedCone` and the cone judge goes on.
pub proof fn pong_from_another_server_port_is_restricted_cone(verdict: NatType, from: AddrV4, rest: Seq<u8>)
    requires
        from.ip == spec_primary_server().ip,
        from.port != spec_primary_server().port,
    ensures
        cone_step(verdict, PeerAddr::V4(from), response_bytes(Response::Pong) + rest) == (
            NatType::RestrictedCone,
            Flow::Continue,
        ),
{
    assert((response_bytes(Response::Pong) + rest)[0] == 0);
}

/// A `Pong` from the primary server's own address and port only settles an
/// open question: it makes `Unknown` `PortRestrictedCone` and leaves any
/// other verdict (a `RestrictedCone` found earlier in particular) as it was.
pub proof fn pong_from_server_port_only_settles_unknown(verdict: NatType, rest: Seq<u8>)
    ensures
        cone_step(NatType::Unknown, PeerAddr::V4(spec_primary_server()), response_bytes(Response::Pong) + rest)
            == (NatType::PortRestrictedCone, Flow::Continue),
        verdict != NatType::Unknown ==> cone_step(
            verdict,
            PeerAddr::V4(spec_primary_server()),
            response_bytes(Response::Pong) + rest,
        ) == (verdict, Flow::Continue),
{
    assert((response_bytes(Response::Pong) + rest)[0] == 0);
}

/// The IPv4 sender of a datagram that is a well-formed `Pong`.
pub open spec fn pong_sender(e: (PeerAddr, Seq<u8>)) -> Option<AddrV4> {
    if parse_response(e.1) == Some(Response::Pong) {
        match e.0 {
            PeerAddr::V4(a) => Some(a),
            PeerAddr::V6(_) => None,
        }
    } else {
        None
    }
}

/// A `Pong` from a host other than the primary server.
pub open spec fn pong_from_elsewhere(e: (PeerAddr, Seq<u8>)) -> bool {
    pong_sender(e) matches Some(a) && a.ip != spec_primary_server().ip
}

/// A `Pong` from the primary server's host, on another port than the server's.
pub open spec fn pong_from_other_server_port(e: (PeerAddr, Seq<u8>)) -> bool {
    pong_sender(e) matches Some(a) && a.ip == spec_primary_server().ip && a.port != spec_primary_server().port
}

/// A `Pong` from the primary server's own address and port.
pub open spec fn pong_from_server_port(e: (PeerAddr, Seq<u8>)) -> bool {
    pong_sender(e) == Some(spec_primary_server())
}

/// The verdict that the `Pong`s among `events` show, whatever their order,
/// starting from `verdict`: a full cone if any came from another host; else
/// a restricted cone if any came from the server's host on another port;
/// else, if nothing was known, a port restricted cone if one came from the
/// server's own port; else `verdict`.
pub open spec fn verdict_shown(verdict: NatType, events: Seq<(PeerAddr, Seq<u8>)>) -> NatType {
    if exists|i: int| 0 <= i < events.len() && #[trigger] pong_from_elsewhere(events[i]) {
        NatType::FullCone
    } else if exists|i: int| 0 <= i < events.len() && #[trigger] pong_from_other_server_port(events[i]) {
        NatType::RestrictedCone
    } else if verdict == NatType::Unknown && exists|i: int|
        0 <= i < events.len() && #[trigger] pong_from_server_port(events[i]) {
        NatType::PortRestrictedCone
    } else {
        verdict
    }
}

/// The cone judge's verdict does not depend on the order in which the
/// `Pong`s arrive, only on where they came from: it is the verdict they show.
pub proof fn cone_verdict_ignores_arrival_order(verdict: NatType, events: Seq<(PeerAddr, Seq<u8>)>)
    ensures
        cone_run(verdict, events) == verdict_shown(verdict, events),
    decreases events.len(),
{
    if events.len() > 0 {
        let e = events[0];
        let rest = events.drop_first();
        let (verdict2, flow) = cone_step(verdict, e.0, e.1);
        assert forall|i: int| 0 <= i < rest.len() implies rest[i] == events[i + 1] by {}
        assert((exists|i: int| 0 <= i < events.len() && #[trigger] pong_from_elsewhere(events[i])) <==> (
        pong_from_elsewhere(e) || exists|i: int| 0 <= i < rest.len() && #[trigger] pong_from_elsewhere(rest[i])))
            by {
            if exists|i: int| 0 <= i < events.len() && #[trigger] pong_from_elsewhere(events[i]) {
                let i = choose|i: int| 0 <= i < events.len() && #[trigger] pong_from_elsewhere(events[i]);
                if i > 0 {
                    assert(pong_from_elsewhere(rest[i - 1]));
                }
            }
            if exists|i: int| 0 <= i < rest.len() && #[trigger] pong_from_elsewhere(rest[i]) {
                let i = choose|i: int| 0 <= i < rest.len() && #[trigger] pong_from_elsewhere(rest[i]);
                assert(pong_from_elsewhere(events[i + 1]));
            }
        }
        assert((exists|i: int| 0 <= i < events.len() && #[trigger] pong_from_other_server_port(events[i])) <==> (
        pong_from_other_server_port(e) || exists|i: int|
            0 <= i < rest.len() && #[trigger] pong_from_other_server_port(rest[i]))) by {
            if exists|i: int| 0 <= i < events.len() && #[trigger] pong_from_other_server_port(events[i]) {
                let i = choose|i: int| 0 <= i < events.len() && #[trigger] pong_from_other_server_port(events[i]);
                if i > 0 {
                    assert(pong_from_other_server_port(rest[i - 1]));
                }
            }
            if exists|i: int| 0 <= i < rest.len() && #[trigger] pong_from_other_server_port(rest[i]) {
                let i = choose|i: int| 0 <= i < rest.len() && #[trigger] pong_from_other_server_port(rest[i]);
                assert(pong_from_other_server_port(events[i + 1]));
            }
        }
        assert((exists|i: int| 0 <= i < events.len() && #[trigger] pong_from_server_port(events[i])) <==> (
        pong_from_server_port(e) || exists|i: int| 0 <= i < rest.len() && #[trigger] pong_from_server_port(rest[i])))
            by {
            if exists|i: int| 0 <= i < events.len() && #[trigger] pong_from_server_port(events[i]) {
                let i = choose|i: int| 0 <= i < events.len() && #[trigger] pong_from_server_port(events[i]);
                if i > 0 {
                    assert(pong_from_server_port(rest[i - 1]));
                }
            }
            if exists|i: int| 0 <= i < rest.len() && #[trigger] pong_from_server_port(rest[i]) {
                let i = choose|i: int| 0 <= i < rest.len() && #[trigger] pong_from_server_port(rest[i]);
                assert(pong_from_server_port(events[i + 1]));
            }
        }
        if flow == Flow::Continue {
            cone_verdict_ignores_arrival_order(verdict2, rest);
        }
    }
}

/// A `CheckPong` from either sniffing server records the address it
/// reports, after those already seen; a `Pong` from a server records nothing.
pub proof fn mapping_judge_records_reported_address(seen: Seq<AddrV4>, src: PeerAddr, addr: AddrV4, rest: Seq<u8>)
    requires
        from_mapping_server(src),
    ensures
        mapping_step(seen, src, response_bytes(Response::CheckPong { addr }) + rest).0 == seen.push(addr),
        mapping_step(seen, src, response_bytes(Response::Pong) + rest).0 == seen,
{
    response_roundtrip(Response::CheckPong { addr }, rest);
    response_roundtrip(Response::Pong, rest);
}

} // verus!
