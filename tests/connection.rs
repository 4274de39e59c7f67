use mjpeg_relay::codec::Frame;
use mjpeg_relay::connection::{start, step, Action, ConnState, Event, Failure};

fn written(a: Action) -> Vec<u8> {
    match a {
        Action::Write(b) => b,
        _ => panic!("expected a write"),
    }
}

#[test]
fn handshake_writes_fixed_preamble() {
    let (s, a) = start();
    assert_eq!(s, ConnState::Handshake);
    assert_eq!(
        written(a),
        b"HTTP/1.1 200 OK\r\nContent-Type: multipart/x-mixed-replace;boundary=MJPEGBOUNDARY\r\n".to_vec()
    );
}

#[test]
fn ten_byte_frame_goes_out_as_multipart_part() {
    let (s, _) = start();
    let (s, a) = step(s, Event::Written);
    assert_eq!(s, ConnState::Streaming);
    assert!(matches!(a, Action::Receive));
    let payload: Vec<u8> = (b'a'..b'k').collect();
    let (s, a) = step(s, Event::Received(Frame::from_jpeg_buf(payload.clone())));
    assert_eq!(s, ConnState::Streaming);
    let mut expected =
        b"\r\n--MJPEGBOUNDARY\r\nContent-Length: 10\r\nX-Timestamp: 0.000000\r\n\r\n".to_vec();
    expected.extend_from_slice(&payload);
    assert_eq!(written(a), expected);
    let (s, a) = step(s, Event::Written);
    assert_eq!(s, ConnState::Streaming);
    assert!(matches!(a, Action::Receive));
}

#[test]
fn failed_handshake_terminates() {
    let (s, a) = step(ConnState::Handshake, Event::WriteFailed);
    assert_eq!(s, ConnState::Terminated);
    assert!(matches!(a, Action::Close));
}

#[test]
fn failed_write_while_streaming_terminates() {
    let (s, a) = step(ConnState::Streaming, Event::WriteFailed);
    assert_eq!(s, ConnState::Terminated);
    assert!(matches!(a, Action::Close));
}

#[test]
fn failed_receive_is_retried() {
    let (s, a) = step(ConnState::Streaming, Event::ReceiveFailed(Failure::ChannelClosed));
    assert_eq!(s, ConnState::Streaming);
    assert!(matches!(a, Action::Retry(Failure::ChannelClosed)));
    let (s, a) = step(s, Event::ReceiveFailed(Failure::LockPoisoned));
    assert_eq!(s, ConnState::Streaming);
    assert!(matches!(a, Action::Retry(Failure::LockPoisoned)));
}

#[test]
fn terminated_connection_stays_closed() {
    let (s, a) = step(ConnState::Terminated, Event::Written);
    assert_eq!(s, ConnState::Terminated);
    assert!(matches!(a, Action::Close));
    let (s, a) = step(s, Event::Received(Frame::from_jpeg_buf(vec![1])));
    assert_eq!(s, ConnState::Terminated);
    assert!(matches!(a, Action::Close));
}

#[test]
fn frame_during_handshake_ends_connection() {
    let (s, a) = step(ConnState::Handshake, Event::Received(Frame::from_jpeg_buf(vec![1])));
    assert_eq!(s, ConnState::Terminated);
    assert!(matches!(a, Action::Close));
}

#[test]
fn frames_are_written_in_receive_order() {
    let mut s = ConnState::Streaming;
    let mut out = Vec::new();
    let mut expected = Vec::new();
    for i in 0u8..4 {
        let f = Frame::from_jpeg_buf(vec![i; 3]);
        expected.extend_from_slice(&f.wire_bytes());
        let (s1, a) = step(s, Event::Received(f));
        out.extend_from_slice(&written(a));
        let (s2, a) = step(s1, Event::Written);
        assert!(matches!(a, Action::Receive));
        s = s2;
    }
    assert_eq!(s, ConnState::Streaming);
    assert_eq!(out, expected);
}
