use natbreak::addr::{AddrV4, AddrV6, Ipv4, PeerAddr};
use natbreak::helper::{on_request, on_seeker, Dest, HelperAction, Via};
use natbreak::pubkey::Pubkey;
use natbreak::wire::{Request, Response, Seeker};

#[test]
fn ping_is_answered_three_times() {
    let src = PeerAddr::V4(AddrV4 { ip: Ipv4(1, 2, 3, 4), port: 8888 });
    match on_request(src, &Request::Ping.to_bytes()) {
        HelperAction::Send(out) => {
            assert_eq!(out.len(), 3);
            assert_eq!(out[0].via, Via::Transmit);
            assert!(matches!(out[0].to, Dest::Peer(_)));
            assert_eq!(out[0].payload, Response::Pong.to_bytes());
            assert_eq!(out[1].via, Via::Main);
            assert!(matches!(out[1].to, Dest::Assistant));
            assert_eq!(out[1].payload, Seeker { addr: src }.to_bytes());
            assert_eq!(out[2].via, Via::Main);
            assert!(matches!(out[2].to, Dest::Peer(_)));
            assert_eq!(out[2].payload, Response::Pong.to_bytes());
        },
        other => panic!("unexpected {:?}", other),
    }
}

#[test]
fn address_check_reports_the_sender() {
    let a = AddrV4 { ip: Ipv4(1, 2, 3, 4), port: 6666 };
    match on_request(PeerAddr::V4(a), &Request::AddressCheck.to_bytes()) {
        HelperAction::Send(out) => {
            assert_eq!(out.len(), 1);
            assert_eq!(out[0].via, Via::Main);
            assert_eq!(out[0].payload, Response::CheckPong { addr: a }.to_bytes());
        },
        other => panic!("unexpected {:?}", other),
    }
    let v6 = PeerAddr::V6(AddrV6 { ip: [0; 16], port: 1 });
    assert!(matches!(on_request(v6, &Request::AddressCheck.to_bytes()), HelperAction::Fatal));
    assert!(matches!(on_request(v6, &[9]), HelperAction::Ignore));
}

#[test]
fn assistant_pongs_the_seeker() {
    let a = AddrV4 { ip: Ipv4(7, 7, 7, 7), port: 6666 };
    let (to, pong) = on_seeker(&Seeker { addr: PeerAddr::V4(a) }.to_bytes()).unwrap();
    assert!(matches!(to, PeerAddr::V4(b) if b == a));
    assert_eq!(pong, vec![0u8]);
    assert!(on_seeker(&[0, 1]).is_none());
}

#[test]
fn pubkey_takes_exactly_32_bytes() {
    let bytes: Vec<u8> = (0..32).collect();
    assert_eq!(Pubkey::from(&bytes).0.to_vec(), bytes);
    assert_eq!(Pubkey::try_from_slice(&bytes[..31]), None);
    assert_eq!(Pubkey::try_from_slice(&bytes), Some(Pubkey::from(&bytes)));
}
