use matchmaker::relay::{input_frame, Frame, FrameKind, Inbound, Relay, RelayAction, CHUNK_SIZE};

fn frame(kind: FrameKind, bytes: &[u8]) -> Frame {
    Frame { kind, payload: bytes.to_vec() }
}

#[test]
fn relay_forwards_every_message_in_order() {
    let sent = vec![
        frame(FrameKind::Binary, b"one"),
        frame(FrameKind::Text, "dos".as_bytes()),
        frame(FrameKind::Binary, &[]),
        frame(FrameKind::Binary, &[0, 255, 7]),
        frame(FrameKind::Ping, b"p"),
    ];
    let mut relay = Relay::new();
    let mut written = Vec::new();
    for f in sent.clone() {
        match relay.on_inbound(Inbound::Message(f)) {
            RelayAction::Forward(g) => written.push(g),
            RelayAction::Stop => panic!("relay stopped early"),
        }
    }
    assert!(relay.is_open());
    assert_eq!(written.len(), sent.len());
    for (w, s) in written.iter().zip(sent.iter()) {
        assert_eq!(w.kind, s.kind);
        assert_eq!(w.payload, s.payload);
    }
}

#[test]
fn relay_stops_at_end_of_stream() {
    let mut relay = Relay::new();
    assert!(matches!(relay.on_inbound(Inbound::End), RelayAction::Stop));
    assert!(!relay.is_open());
    assert!(matches!(
        relay.on_inbound(Inbound::Message(frame(FrameKind::Binary, b"late"))),
        RelayAction::Stop
    ));
}

#[test]
fn relay_stops_after_failed_write() {
    let mut relay = Relay::new();
    assert!(matches!(
        relay.on_inbound(Inbound::Message(frame(FrameKind::Text, b"x"))),
        RelayAction::Forward(_)
    ));
    relay.on_write_failed();
    assert!(!relay.is_open());
    assert!(matches!(
        relay.on_inbound(Inbound::Message(frame(FrameKind::Text, b"y"))),
        RelayAction::Stop
    ));
}

#[test]
fn input_frame_takes_the_bytes_read() {
    let mut buf = vec![0u8; CHUNK_SIZE];
    buf[0] = b'h';
    buf[1] = b'i';
    let f = input_frame(buf, 2).unwrap();
    assert_eq!(f.kind, FrameKind::Binary);
    assert_eq!(f.payload, b"hi".to_vec());
}

#[test]
fn input_frame_full_chunk() {
    let buf = vec![9u8; CHUNK_SIZE];
    let f = input_frame(buf, CHUNK_SIZE).unwrap();
    assert_eq!(f.payload.len(), 1024);
}

#[test]
fn input_frame_none_at_end_of_input() {
    assert!(input_frame(vec![0u8; CHUNK_SIZE], 0).is_none());
}

#[test]
fn relay_session_forwards_each_message_then_stops() {
    let sent = vec![
        frame(FrameKind::Binary, b"hello"),
        frame(FrameKind::Text, b"ack"),
        frame(FrameKind::Binary, b"hello"),
    ];
    let mut events: Vec<Inbound> = sent.iter().cloned().map(Inbound::Message).collect();
    events.push(Inbound::End);
    let mut relay = Relay::new();
    let mut forwarded = Vec::new();
    let mut stops = 0;
    for ev in events {
        match relay.on_inbound(ev) {
            RelayAction::Forward(f) => forwarded.push(f),
            RelayAction::Stop => stops += 1,
        }
    }
    assert_eq!(stops, 1);
    assert!(!relay.is_open());
    assert_eq!(forwarded.len(), 3);
    for (w, s) in forwarded.iter().zip(sent.iter()) {
        assert_eq!(w.kind, s.kind);
        assert_eq!(w.payload.len(), s.payload.len());
        assert_eq!(w.payload, s.payload);
    }
}
