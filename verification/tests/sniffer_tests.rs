use natbreak::addr::{AddrV4, AddrV6, Ipv4, PeerAddr};
use natbreak::sniffer::{cone_judge, mapping_judge, primary_server, secondary_server, Flow, NatType};
use natbreak::wire::Response;

fn v4(a: u8, b: u8, c: u8, d: u8, port: u16) -> PeerAddr {
    PeerAddr::V4(AddrV4 { ip: Ipv4(a, b, c, d), port })
}

fn check_pong(port: u16) -> Vec<u8> {
    Response::CheckPong { addr: AddrV4 { ip: Ipv4(100, 1, 1, 1), port } }.to_bytes()
}

#[test]
fn servers_are_fixed() {
    assert_eq!(primary_server(), AddrV4 { ip: Ipv4(141, 164, 51, 24), port: 6666 });
    assert_eq!(secondary_server(), AddrV4 { ip: Ipv4(158, 247, 233, 22), port: 6666 });
}

#[test]
fn mapping_judge_ends_at_the_second_report() {
    let mut seen = Vec::new();
    let p = PeerAddr::V4(primary_server());
    let s = PeerAddr::V4(secondary_server());
    assert_eq!(mapping_judge(&mut seen, p, &check_pong(4000)), Flow::Continue);
    assert_eq!(mapping_judge(&mut seen, s, &check_pong(4000)), Flow::Stop);
    assert_eq!(seen.len(), 2);
    let mut seen = Vec::new();
    mapping_judge(&mut seen, p, &check_pong(4000));
    assert_eq!(mapping_judge(&mut seen, s, &check_pong(4001)), Flow::Stop);
}

#[test]
fn equal_reports_do_not_make_the_nat_symmetric() {
    let mut seen = Vec::new();
    let mut verdict = NatType::Unknown;
    let p = PeerAddr::V4(primary_server());
    let s = PeerAddr::V4(secondary_server());
    mapping_judge(&mut seen, p, &check_pong(40000));
    mapping_judge(&mut seen, s, &check_pong(40000));
    assert_eq!(cone_judge(&mut verdict, p, &Response::Pong.to_bytes()), Flow::Continue);
    assert_eq!(verdict, NatType::PortRestrictedCone);
}

#[test]
fn mapping_judge_ignores_strangers_and_stops_on_garbage() {
    let mut seen = Vec::new();
    assert_eq!(mapping_judge(&mut seen, v4(1, 1, 1, 1, 6666), &[7, 7]), Flow::Continue);
    assert!(seen.is_empty());
    let p = PeerAddr::V4(primary_server());
    assert_eq!(mapping_judge(&mut seen, p, &Response::Pong.to_bytes()), Flow::Continue);
    assert_eq!(mapping_judge(&mut seen, p, &[7, 7]), Flow::Stop);
    assert!(seen.is_empty());
}

#[test]
fn cone_judge_verdicts() {
    let pong = Response::Pong.to_bytes();
    let mut verdict = NatType::Unknown;
    assert_eq!(cone_judge(&mut verdict, v4(141, 164, 51, 24, 6666), &pong), Flow::Continue);
    assert_eq!(verdict, NatType::PortRestrictedCone);
    assert_eq!(cone_judge(&mut verdict, v4(141, 164, 51, 24, 7777), &pong), Flow::Continue);
    assert_eq!(verdict, NatType::RestrictedCone);
    assert_eq!(cone_judge(&mut verdict, v4(141, 164, 51, 24, 6666), &pong), Flow::Continue);
    assert_eq!(verdict, NatType::RestrictedCone);
    assert_eq!(cone_judge(&mut verdict, v4(9, 9, 9, 9, 9527), &pong), Flow::Stop);
    assert_eq!(verdict, NatType::FullCone);
}

#[test]
fn cone_judge_ignores_non_pongs_and_ipv6() {
    let mut verdict = NatType::Unknown;
    assert_eq!(cone_judge(&mut verdict, v4(9, 9, 9, 9, 1), &check_pong(1)), Flow::Continue);
    assert_eq!(cone_judge(&mut verdict, v4(9, 9, 9, 9, 1), &[]), Flow::Continue);
    let v6 = PeerAddr::V6(AddrV6 { ip: [0; 16], port: 6666 });
    assert_eq!(cone_judge(&mut verdict, v6, &Response::Pong.to_bytes()), Flow::Continue);
    assert_eq!(verdict, NatType::Unknown);
}

#[test]
fn cone_judge_alone_never_says_symmetric() {
    let pong = Response::Pong.to_bytes();
    let events = [
        (v4(141, 164, 51, 24, 6666), pong.clone()),
        (v4(141, 164, 51, 24, 1), pong.clone()),
        (v4(141, 164, 51, 24, 6666), check_pong(3)),
        (v4(1, 2, 3, 4, 5), vec![9u8]),
    ];
    let mut verdict = NatType::Unknown;
    for (src, payload) in events.iter() {
        cone_judge(&mut verdict, *src, payload);
        assert_ne!(verdict, NatType::Symmetric);
    }
    assert_eq!(verdict, NatType::RestrictedCone);
}
