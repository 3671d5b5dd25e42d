use sudo::broker_protocol::MAX_MESSAGE_SIZE;
use sudo::framing::{
    check_header_written, check_payload_read, check_payload_written, decode_length,
    encode_length, FrameError, FrameReader,
};

#[test]
fn header_is_little_endian_length() {
    assert_eq!(encode_length(0), [0, 0, 0, 0]);
    assert_eq!(encode_length(0x0102_0304), [4, 3, 2, 1]);
    assert_eq!(encode_length(300), 300u32.to_le_bytes());
}

#[test]
fn header_round_trips_within_the_limit() {
    for len in [0usize, 1, 255, 256, 65536, MAX_MESSAGE_SIZE] {
        assert_eq!(decode_length(&encode_length(len)), Ok(len));
    }
}

#[test]
fn oversized_and_short_headers_are_refused() {
    let too_big = encode_length(MAX_MESSAGE_SIZE + 1);
    assert_eq!(
        decode_length(&too_big),
        Err(FrameError::TooLarge { length: (MAX_MESSAGE_SIZE + 1) as u32 })
    );
    assert_eq!(decode_length(&[1, 2, 3]), Err(FrameError::IncompleteHeader { received: 3 }));
    assert_eq!(decode_length(&[]), Err(FrameError::IncompleteHeader { received: 0 }));
    assert_eq!(decode_length(&[0, 0, 0, 0, 0]), Err(FrameError::IncompleteHeader { received: 5 }));
    assert_eq!(
        FrameError::TooLarge { length: 16777217 }.message(),
        "Message too large: 16777217 bytes"
    );
    assert_eq!(
        FrameError::IncompleteHeader { received: 2 }.message(),
        "Failed to read message length (got 2 bytes)"
    );
}

#[test]
fn reader_gathers_a_payload_in_pieces() {
    let payload: Vec<u8> = (0u8..=200).collect();
    let mut reader = FrameReader::from_header(&encode_length(payload.len())).unwrap();
    assert_eq!(reader.remaining(), payload.len());
    assert!(!reader.is_complete());
    reader.accept(&payload[..10]);
    reader.accept(&payload[10..150]);
    assert_eq!(reader.remaining(), payload.len() - 150);
    reader.accept(&payload[150..]);
    assert!(reader.is_complete());
    assert_eq!(reader.into_message(), payload);

    let empty = FrameReader::from_header(&encode_length(0)).unwrap();
    assert!(empty.is_complete());
    assert_eq!(empty.into_message(), Vec::<u8>::new());
    assert!(FrameReader::from_header(&[1, 0]).is_err());
}

#[test]
fn write_and_read_counts_are_checked() {
    assert_eq!(check_header_written(4), Ok(()));
    assert_eq!(check_header_written(3), Err(FrameError::HeaderNotWritten));
    assert_eq!(check_payload_written(10, 10), Ok(()));
    assert_eq!(check_payload_written(9, 10), Err(FrameError::PayloadNotWritten));
    assert_eq!(check_payload_read(7, 7), Ok(()));
    assert_eq!(
        check_payload_read(6, 7),
        Err(FrameError::IncompletePayload { received: 6, expected: 7 })
    );
    assert_eq!(
        FrameError::IncompletePayload { received: 6, expected: 7 }.message(),
        "Failed to read message (got 6 of 7 bytes)"
    );
    assert_eq!(FrameError::HeaderNotWritten.message(), "Failed to write message length");
}

#[test]
fn framed_payload_reads_back_in_any_split() {
    let payload: Vec<u8> = (0u8..40).collect();
    for first in 0..=payload.len() {
        for second in first..=payload.len() {
            let mut reader = FrameReader::from_header(&encode_length(payload.len())).unwrap();
            for piece in [&payload[..first], &payload[first..second], &payload[second..]] {
                assert!(piece.len() <= reader.remaining());
                reader.accept(piece);
            }
            assert!(reader.is_complete());
            assert_eq!(reader.into_message(), payload);
        }
    }
}
