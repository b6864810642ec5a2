use doq_client::framing::{
    clear_message_id, decode_response, encode_request, read_message_id, FrameError,
    MAX_MESSAGE_LEN,
};

#[test]
fn encode_sets_id_to_zero_and_prefixes_length() {
    let query = vec![0xab, 0xcd, 0x01, 0x00, 0x00, 0x01];
    let framed = encode_request(&query).unwrap();
    assert_eq!(framed, vec![0x00, 0x06, 0x00, 0x00, 0x01, 0x00, 0x00, 0x01]);
}

#[test]
fn encode_id_is_zero_whatever_the_caller_gave() {
    for id in [0u16, 1, 0x1234, 0xffff] {
        let mut query = vec![(id >> 8) as u8, id as u8];
        query.extend_from_slice(&[0u8; 10]);
        let framed = encode_request(&query).unwrap();
        assert_eq!(read_message_id(&framed[2..]), 0);
        assert_eq!(&framed[4..], &query[2..]);
    }
}

#[test]
fn encode_length_is_big_endian() {
    let query = vec![7u8; 300];
    let framed = encode_request(&query).unwrap();
    assert_eq!(framed[0], 1);
    assert_eq!(framed[1], 44);
    assert_eq!(framed.len(), 302);
}

#[test]
fn encode_rejects_message_without_id() {
    assert_eq!(encode_request(&[]), Err(FrameError::MissingId));
    assert_eq!(encode_request(&[5]), Err(FrameError::MissingId));
}

#[test]
fn encode_largest_and_too_long() {
    let largest = vec![1u8; MAX_MESSAGE_LEN];
    let framed = encode_request(&largest).unwrap();
    assert_eq!(framed[0], 0xff);
    assert_eq!(framed[1], 0xff);
    assert_eq!(framed.len(), MAX_MESSAGE_LEN + 2);
    let too_long = vec![1u8; MAX_MESSAGE_LEN + 1];
    assert_eq!(encode_request(&too_long), Err(FrameError::TooLong));
}

#[test]
fn decode_reads_one_frame() {
    let stream = vec![0x00, 0x03, 9, 8, 7];
    assert_eq!(decode_response(&stream), Ok(vec![9, 8, 7]));
}

#[test]
fn decode_ignores_bytes_after_the_frame() {
    let stream = vec![0x00, 0x02, 1, 2, 0x00, 0x01, 3];
    assert_eq!(decode_response(&stream), Ok(vec![1, 2]));
}

#[test]
fn decode_errors() {
    assert_eq!(decode_response(&[]), Err(FrameError::MissingLength));
    assert_eq!(decode_response(&[0]), Err(FrameError::MissingLength));
    assert_eq!(decode_response(&[0, 4, 1, 2, 3]), Err(FrameError::Truncated));
    assert_eq!(decode_response(&[0, 0]), Ok(vec![]));
}

#[test]
fn decode_of_encode_gives_query_with_zero_id() {
    let query = vec![0x12, 0x34, 0x81, 0x80, 0, 1, 0, 0];
    let framed = encode_request(&query).unwrap();
    let back = decode_response(&framed).unwrap();
    assert_eq!(back, vec![0, 0, 0x81, 0x80, 0, 1, 0, 0]);
}

#[test]
fn clear_and_read_message_id() {
    let mut m = vec![0xbe, 0xef, 1, 2];
    assert_eq!(read_message_id(&m), 0xbeef);
    clear_message_id(&mut m);
    assert_eq!(m, vec![0, 0, 1, 2]);
    assert_eq!(read_message_id(&m), 0);
}
