use natbreak::addr::{AddrV4, AddrV6, Ipv4, PeerAddr};
use natbreak::wire::{read_peer, Message, Request, Response, Seeker};

fn v4(a: u8, b: u8, c: u8, d: u8, port: u16) -> AddrV4 {
    AddrV4 { ip: Ipv4(a, b, c, d), port }
}

#[test]
fn requests_match_borsh_layout() {
    assert_eq!(Request::Ping.to_bytes(), borsh::to_vec(&0u8).unwrap());
    assert_eq!(Request::AddressCheck.to_bytes(), borsh::to_vec(&1u8).unwrap());
}

#[test]
fn check_pong_matches_borsh_layout() {
    let addr = v4(141, 164, 51, 24, 6666);
    // Borsh lays a socket address out as its octets, then its port.
    let expected = borsh::to_vec(&(1u8, [141u8, 164, 51, 24], 6666u16)).unwrap();
    assert_eq!(Response::CheckPong { addr }.to_bytes(), expected);
    assert_eq!(Response::Pong.to_bytes(), vec![0u8]);
}

#[test]
fn messages_match_borsh_layout() {
    assert_eq!(Message::BreakPing.to_bytes(), vec![0u8]);
    assert_eq!(Message::BreakPong.to_bytes(), vec![1u8]);
}

#[test]
fn seeker_matches_borsh_layout() {
    let seeker = Seeker { addr: PeerAddr::V4(v4(10, 1, 2, 3, 40000)) };
    assert_eq!(seeker.to_bytes(), borsh::to_vec(&(0u8, [10u8, 1, 2, 3], 40000u16)).unwrap());

    let ip = [0x20u8, 0x01, 0x0d, 0xb8, 0, 0, 0, 0, 0, 0, 0, 0, 0, 0, 0, 1];
    let seeker = Seeker { addr: PeerAddr::V6(AddrV6 { ip, port: 443 }) };
    assert_eq!(seeker.to_bytes(), borsh::to_vec(&(1u8, ip, 443u16)).unwrap());
}

#[test]
fn decoding_ignores_trailing_bytes() {
    let mut bytes = Response::CheckPong { addr: v4(1, 2, 3, 4, 5) }.to_bytes();
    bytes.extend_from_slice(&[9, 9, 9]);
    assert_eq!(Response::from_bytes(&bytes), Some(Response::CheckPong { addr: v4(1, 2, 3, 4, 5) }));
    assert_eq!(Request::from_bytes(&[1, 0, 0]), Some(Request::AddressCheck));
    assert_eq!(Message::from_bytes(&[0, 7]), Some(Message::BreakPing));
}

#[test]
fn decoding_refuses_unknown_or_short_messages() {
    assert_eq!(Request::from_bytes(&[]), None);
    assert_eq!(Request::from_bytes(&[2]), None);
    assert_eq!(Response::from_bytes(&[1, 2, 3]), None);
    assert_eq!(Response::from_bytes(&[5]), None);
    assert_eq!(Message::from_bytes(&[]), None);
    assert!(read_peer(&[0, 1, 2, 3, 4, 5]).is_none());
    assert!(read_peer(&[2, 1, 2, 3, 4, 5, 6]).is_none());
}

#[test]
fn decoded_response_matches_borsh_decoding() {
    let bytes = borsh::to_vec(&(1u8, [158u8, 247, 233, 22], 50123u16)).unwrap();
    assert_eq!(Response::from_bytes(&bytes), Some(Response::CheckPong { addr: v4(158, 247, 233, 22, 50123) }));
}

#[test]
fn peer_roundtrip_on_both_families() {
    let p = PeerAddr::V4(v4(8, 8, 4, 4, 53));
    let bytes = Seeker { addr: p }.to_bytes();
    match Seeker::from_bytes(&bytes).unwrap().addr {
        PeerAddr::V4(a) => assert_eq!(a, v4(8, 8, 4, 4, 53)),
        _ => panic!("wrong family"),
    }
    let ip = [1u8, 2, 3, 4, 5, 6, 7, 8, 9, 10, 11, 12, 13, 14, 15, 16];
    let mut bytes = Seeker { addr: PeerAddr::V6(AddrV6 { ip, port: 65535 }) }.to_bytes();
    bytes.push(42);
    match Seeker::from_bytes(&bytes).unwrap().addr {
        PeerAddr::V6(a) => {
            assert_eq!(a.ip, ip);
            assert_eq!(a.port, 65535);
        },
        _ => panic!("wrong family"),
    }
}
