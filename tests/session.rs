use wt_echo::session::{ack, Action, EchoSession, Event, Phase, Reply, READ_BUFFER_SIZE};

fn servicing() -> EchoSession {
    let mut s = EchoSession::new();
    assert_eq!(s.step(&Event::SessionRequested), Action::AcceptSession);
    assert_eq!(s.step(&Event::SessionAccepted), Action::Await);
    assert_eq!(s.phase(), Phase::Servicing);
    s
}

#[test]
fn ack_is_three_ascii_bytes() {
    assert_eq!(ack(), vec![0x41, 0x43, 0x4B]);
    assert_eq!(ack(), b"ACK".to_vec());
}

#[test]
fn read_buffer_holds_64_kib() {
    assert_eq!(READ_BUFFER_SIZE, 65536);
}

#[test]
fn new_session_awaits_request() {
    let s = EchoSession::new();
    assert_eq!(s.phase(), Phase::AwaitingRequest);
    assert!(!s.is_terminated());
}

#[test]
fn hello_datagram_then_close() {
    let mut s = servicing();
    let a = s.step(&Event::Datagram(b"hello".to_vec()));
    assert_eq!(a, Action::Acknowledge(Reply::Datagram));
    assert_eq!(ack(), vec![0x41, 0x43, 0x4B]);
    assert_eq!(s.phase(), Phase::Servicing);
    assert_eq!(s.step(&Event::Failed), Action::Close);
    assert!(s.is_terminated());
}

#[test]
fn bidirectional_text_is_acknowledged_on_same_stream() {
    let mut s = servicing();
    let a = s.step(&Event::BiRead(Some("héllo wörld".as_bytes().to_vec())));
    assert_eq!(a, Action::Acknowledge(Reply::SameStream));
    assert_eq!(s.phase(), Phase::Servicing);
}

#[test]
fn unidirectional_text_is_acknowledged_on_new_stream() {
    let mut s = servicing();
    for _ in 0..3 {
        let a = s.step(&Event::UniRead(Some(b"abc".to_vec())));
        assert_eq!(a, Action::Acknowledge(Reply::NewUniStream));
    }
    assert_eq!(s.phase(), Phase::Servicing);
}

#[test]
fn empty_reads_are_skipped() {
    let mut s = servicing();
    assert_eq!(s.step(&Event::BiRead(None)), Action::Await);
    assert_eq!(s.step(&Event::UniRead(None)), Action::Await);
    assert_eq!(s.phase(), Phase::Servicing);
}

#[test]
fn empty_payload_is_text() {
    let mut s = servicing();
    assert_eq!(
        s.step(&Event::Datagram(Vec::new())),
        Action::Acknowledge(Reply::Datagram)
    );
}

#[test]
fn invalid_text_on_any_channel_ends_session() {
    let bad: Vec<Vec<u8>> = vec![
        vec![0xff, 0xfe],
        vec![0xc0, 0x80],
        vec![0xed, 0xa0, 0x80],
        vec![0xf4, 0x90, 0x80, 0x80],
        vec![b'h', 0xe2, 0x82],
    ];
    for b in bad {
        let events = vec![
            Event::BiRead(Some(b.clone())),
            Event::UniRead(Some(b.clone())),
            Event::Datagram(b.clone()),
        ];
        for e in events {
            let mut s = servicing();
            assert_eq!(s.step(&e), Action::Close);
            assert!(s.is_terminated());
            assert_eq!(s.step(&Event::Datagram(b"ok".to_vec())), Action::Close);
            assert_eq!(s.step(&Event::BiRead(Some(b"ok".to_vec()))), Action::Close);
        }
    }
}

#[test]
fn events_out_of_place_end_session() {
    let mut s = EchoSession::new();
    assert_eq!(s.step(&Event::Datagram(b"early".to_vec())), Action::Close);
    assert!(s.is_terminated());

    let mut s = EchoSession::new();
    assert_eq!(s.step(&Event::SessionRequested), Action::AcceptSession);
    assert_eq!(s.step(&Event::BiRead(Some(b"x".to_vec()))), Action::Close);
    assert!(s.is_terminated());

    let mut s = servicing();
    assert_eq!(s.step(&Event::SessionRequested), Action::Close);
    assert!(s.is_terminated());
}

#[test]
fn failure_while_waiting_ends_session() {
    let mut s = EchoSession::new();
    assert_eq!(s.step(&Event::Failed), Action::Close);
    assert_eq!(s.phase(), Phase::Terminated);
}

#[test]
fn two_sessions_do_not_see_each_other() {
    let mut a = servicing();
    let mut b = servicing();
    assert_eq!(
        a.step(&Event::Datagram(b"from a".to_vec())),
        Action::Acknowledge(Reply::Datagram)
    );
    assert_eq!(b.step(&Event::Datagram(vec![0xff])), Action::Close);
    assert!(b.is_terminated());
    assert_eq!(a.phase(), Phase::Servicing);
    assert_eq!(
        a.step(&Event::UniRead(Some(b"still here".to_vec()))),
        Action::Acknowledge(Reply::NewUniStream)
    );
}
