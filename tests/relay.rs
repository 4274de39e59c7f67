use mjpeg_relay::codec::Frame;
use mjpeg_relay::connection::{receive, Event, Failure};
use mjpeg_relay::relay::{publish_outcome, try_publish_outcome, MJpeg, SendError, TrySendError};

fn take(m: &MJpeg) -> Event {
    let rx = m.receiver().lock().unwrap();
    receive(&rx)
}

fn body_of(e: Event) -> Vec<u8> {
    match e {
        Event::Received(f) => f.body,
        _ => panic!("no frame received"),
    }
}

#[test]
fn second_nonblocking_publish_is_full() {
    let m = MJpeg::new();
    assert_eq!(m.try_update_jpeg(vec![1, 2, 3]), Ok(()));
    assert_eq!(m.try_update_jpeg(vec![4, 5]), Err(TrySendError::Full(vec![4, 5])));
    assert_eq!(body_of(take(&m)), vec![1, 2, 3]);
}

#[test]
fn backlog_follows_publish_and_receive() {
    let m = MJpeg::new();
    assert!(!m.is_full());
    assert_eq!(m.try_update_jpeg(vec![9]), Ok(()));
    assert!(m.is_full());
    assert_eq!(body_of(take(&m)), vec![9]);
    assert!(!m.is_full());
}

#[test]
fn blocking_publishes_arrive_in_order_once() {
    let m = MJpeg::new();
    let mut seen = Vec::new();
    for i in 0u8..5 {
        assert_eq!(m.update_jpeg(vec![i; (i as usize) + 1]), Ok(()));
        seen.push(body_of(take(&m)));
    }
    let expected: Vec<Vec<u8>> = (0u8..5).map(|i| vec![i; (i as usize) + 1]).collect();
    assert_eq!(seen, expected);
    assert!(!m.is_full());
}

#[test]
fn received_frame_carries_encoded_header() {
    let m = MJpeg::new();
    m.update_jpeg(vec![0xAB; 10]).unwrap();
    match take(&m) {
        Event::Received(f) => {
            assert_eq!(f.header, Frame::from_jpeg_buf(vec![0xAB; 10]).header);
            assert_eq!(f.body, vec![0xAB; 10]);
        }
        _ => panic!("no frame received"),
    }
}

#[test]
fn receive_after_sender_dropped_is_closed() {
    let m = MJpeg::new();
    m.update_jpeg(vec![1]).unwrap();
    let shared = m.receiver().clone();
    drop(m);
    let rx = shared.lock().unwrap();
    assert_eq!(body_of(receive(&rx)), vec![1]);
    assert!(matches!(receive(&rx), Event::ReceiveFailed(Failure::ChannelClosed)));
    assert!(matches!(receive(&rx), Event::ReceiveFailed(Failure::ChannelClosed)));
}

#[test]
fn two_viewers_share_frames_without_duplicates() {
    let m = MJpeg::new();
    let mut first = Vec::new();
    let mut second = Vec::new();
    for i in 0u8..6 {
        m.update_jpeg(vec![i]).unwrap();
        let got = body_of(take(&m));
        if i % 3 == 0 {
            first.push(got[0]);
        } else {
            second.push(got[0]);
        }
    }
    assert_eq!(first, vec![0, 3]);
    assert_eq!(second, vec![1, 2, 4, 5]);
    assert!(!m.is_full());
}

#[test]
fn blocking_outcome_hands_payload_back() {
    assert_eq!(publish_outcome(Ok(())), Ok(()));
    let f = Frame::from_jpeg_buf(vec![3, 1, 4]);
    assert_eq!(publish_outcome(Err(f)), Err(SendError(vec![3, 1, 4])));
}

#[test]
fn nonblocking_outcome_keeps_failure_kind() {
    assert_eq!(try_publish_outcome(Ok(())), Ok(()));
    let full = TrySendError::Full(Frame::from_jpeg_buf(vec![1]));
    assert_eq!(try_publish_outcome(Err(full)), Err(TrySendError::Full(vec![1])));
    let gone = TrySendError::Disconnected(Frame::from_jpeg_buf(vec![2, 2]));
    assert_eq!(try_publish_outcome(Err(gone)), Err(TrySendError::Disconnected(vec![2, 2])));
}
