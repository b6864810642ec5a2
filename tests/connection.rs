use doq_client::connection::{QuicClientResponse, StreamState, NO_ERROR_CODE};
use doq_client::framing::{encode_request, read_message_id, FrameError};

#[test]
fn new_state_is_live() {
    let s = StreamState::new();
    assert!(!s.is_shutdown());
    assert_eq!(s.liveness(), Some(()));
}

#[test]
fn shutdown_is_permanent_and_second_call_does_nothing() {
    let mut s = StreamState::new();
    let close = s.shutdown().unwrap();
    assert_eq!(close.code, NO_ERROR_CODE);
    assert_eq!(close.reason, b"Shutdown".to_vec());
    assert!(s.is_shutdown());
    assert_eq!(s.liveness(), None);
    assert_eq!(s.shutdown(), None);
    assert!(s.is_shutdown());
    assert_eq!(s.liveness(), None);
}

#[test]
fn queries_take_streams_zero_four_eight() {
    let mut s = StreamState::new();
    assert_eq!(s.open_query(), Ok(0));
    assert_eq!(s.open_query(), Ok(4));
    assert_eq!(s.open_query(), Ok(8));
}

#[test]
fn responses_keep_their_stream() {
    let mut s = StreamState::new();
    let a = s.open_query().unwrap();
    let b = s.open_query().unwrap();
    // the second query's response arrives first
    let rb = QuicClientResponse::from_stream(b, &[0, 2, 0xbb, 0xbb]).unwrap();
    let ra = QuicClientResponse::from_stream(a, &[0, 2, 0xaa, 0xaa]).unwrap();
    assert_eq!(ra.stream_id(), 0);
    assert_eq!(ra.message(), &vec![0xaa, 0xaa]);
    assert_eq!(rb.stream_id(), 4);
    assert_eq!(rb.into_message(), vec![0xbb, 0xbb]);
}

#[test]
fn response_frame_errors() {
    assert!(matches!(
        QuicClientResponse::from_stream(0, &[0, 9, 1]),
        Err(FrameError::Truncated)
    ));
    assert!(matches!(
        QuicClientResponse::from_stream(0, &[]),
        Err(FrameError::MissingLength)
    ));
}

#[test]
fn query_then_shutdown_then_no_stream() {
    let mut s = StreamState::new();
    assert!(!s.is_shutdown());
    let stream = s.open_query().unwrap();
    let q1 = vec![0x4a, 0x11, 1, 0, 0, 1, 0, 0, 0, 0, 0, 0];
    let framed = encode_request(&q1).unwrap();
    assert_eq!(read_message_id(&framed[2..]), 0);
    let mut reply = vec![0, 12, 0, 0, 0x81, 0x80];
    reply.extend_from_slice(&[0, 1, 0, 0, 0, 0, 0, 0]);
    let r1 = QuicClientResponse::from_stream(stream, &reply).unwrap();
    assert_eq!(read_message_id(r1.message()), 0);
    assert!(s.shutdown().is_some());
    // a second query is refused before any stream is opened
    assert!(s.is_shutdown());
    assert_eq!(s.liveness(), None);
}
