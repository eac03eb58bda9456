use natbreak::addr::{AddrV4, Ipv4};
use natbreak::breaker::{
    address_wait, listen_reply, punch_reply, strip_newlines, AddressWait, ListenReply, PortSweep, PunchReply,
};
use natbreak::echo::reversed;
use natbreak::wire::{Message, Response};

#[test]
fn address_wait_forwards_the_reported_address() {
    let addr = AddrV4 { ip: Ipv4(5, 6, 7, 8), port: 1234 };
    assert_eq!(address_wait(&Response::CheckPong { addr }.to_bytes()), AddressWait::Forward(addr));
    assert_eq!(address_wait(&Response::Pong.to_bytes()), AddressWait::KeepWaiting);
    assert_eq!(address_wait(&[3]), AddressWait::Fail);
}

#[test]
fn punching_answers_every_message() {
    assert_eq!(punch_reply(&Message::BreakPing.to_bytes()), PunchReply::Send(Message::BreakPong));
    assert_eq!(punch_reply(&Message::BreakPong.to_bytes()), PunchReply::Send(Message::BreakPing));
    assert_eq!(punch_reply(&[]), PunchReply::Fail);
}

#[test]
fn listening_answers_pings_only() {
    assert_eq!(listen_reply(&Message::BreakPing.to_bytes()), ListenReply::ReplyToSender(Message::BreakPong));
    assert_eq!(listen_reply(&Message::BreakPong.to_bytes()), ListenReply::Nothing);
    assert_eq!(listen_reply(&[9]), ListenReply::Fail);
}

#[test]
fn peer_address_file_loses_its_line_breaks() {
    assert_eq!(strip_newlines(b"1.2.3.4:5\n"), b"1.2.3.4:5".to_vec());
    assert_eq!(strip_newlines(b"\n1.2.\n3.4:5\n\n"), b"1.2.3.4:5".to_vec());
    assert_eq!(strip_newlines(b""), Vec::<u8>::new());
}

#[test]
fn sweep_bounces_between_one_and_the_last_port() {
    let mut sweep = PortSweep::start();
    assert_eq!(sweep, PortSweep { port: 1, ascending: true });
    for expected in 1..=65535u32 {
        assert_eq!(sweep.port as u32, expected);
        sweep = sweep.next();
    }
    assert_eq!(sweep, PortSweep { port: 65534, ascending: false });
    for expected in (1..=65534u32).rev() {
        assert_eq!(sweep.port as u32, expected);
        sweep = sweep.next();
    }
    assert_eq!(sweep, PortSweep { port: 2, ascending: true });
}

#[test]
fn reflector_reverses_datagrams() {
    assert_eq!(reversed(b"hello"), b"olleh".to_vec());
    assert_eq!(reversed(&reversed(b"abc")), b"abc".to_vec());
    assert_eq!(reversed(b""), Vec::<u8>::new());
}
