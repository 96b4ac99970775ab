use clipped_ipc::frame::{
    check_declared, decode_frame, encode_frame, length_prefix, prefix_length, FrameError,
    PrefixReader, PrefixStep,
};
use clipped_ipc::MAX_FRAME_BYTES;

fn sample() -> Vec<u8> {
    br#"{"text":"hello"}"#.to_vec()
}

#[test]
fn a_message_survives_a_round_trip_through_a_frame() {
    let frame = encode_frame(&sample()).expect("it writes");

    let (payload, end) = decode_frame(&frame).expect("it reads back");
    assert_eq!(payload, sample());
    assert_eq!(end, frame.len(), "the frame's bounds should be exact");
}

#[test]
fn two_messages_in_one_buffer_are_read_back_as_two() {
    let mut buffer = encode_frame(&sample()).expect("it writes");
    buffer.extend(encode_frame(br#"{"text":"second"}"#).expect("it writes"));

    let (first, end) = decode_frame(&buffer).expect("the first");
    assert_eq!(first, sample());
    let (second, rest) = decode_frame(&buffer[end..]).expect("the second");
    assert_eq!(second, br#"{"text":"second"}"#.to_vec());
    assert_eq!(end + rest, buffer.len());
}

#[test]
fn a_close_at_a_frame_boundary_is_a_disconnect_and_not_an_error() {
    let error = decode_frame(&[]).expect_err("there is nothing there");
    assert!(error.is_disconnect(), "unexpected error: {}", error.describe());
}

#[test]
fn a_peer_that_died_half_way_through_a_frame_is_a_disconnect() {
    let mut buffer = encode_frame(&sample()).expect("it writes");
    buffer.truncate(buffer.len() - 3);

    let error = decode_frame(&buffer).expect_err("the frame is truncated");
    assert!(error.is_disconnect(), "unexpected error: {}", error.describe());
}

#[test]
fn an_enormous_length_prefix_is_refused_before_anything_is_allocated_or_read() {
    // Only the four prefix bytes are there to be read: the refusal is decided
    // from them alone.
    let prefix = u32::MAX.to_le_bytes();
    match decode_frame(&prefix).expect_err("that is far too large") {
        FrameError::TooLarge { declared } => assert_eq!(declared, u32::MAX),
        other => panic!("unexpected error: {}", other.describe()),
    }

    let mut reader = PrefixReader::new();
    match reader.accept(&prefix) {
        PrefixStep::Complete(declared) => match check_declared(declared) {
            Err(FrameError::TooLarge { declared }) => assert_eq!(declared, u32::MAX),
            other => panic!("unexpected: {other:?}"),
        },
        other => panic!("unexpected: {other:?}"),
    }
}

#[test]
fn a_length_one_byte_over_the_limit_is_refused_too() {
    let prefix = (MAX_FRAME_BYTES + 1).to_le_bytes();
    assert!(matches!(decode_frame(&prefix), Err(FrameError::TooLarge { .. })));
    assert!(matches!(check_declared(MAX_FRAME_BYTES + 1), Err(FrameError::TooLarge { .. })));
    assert!(matches!(check_declared(MAX_FRAME_BYTES), Ok(1_048_576)));
}

#[test]
fn a_frame_that_is_not_json_is_malformed_rather_than_a_disconnect() {
    let payload = b"{not json";
    let mut buffer = (payload.len() as u32).to_le_bytes().to_vec();
    buffer.extend_from_slice(payload);

    let (read, _) = decode_frame(&buffer).expect("the frame itself is whole");
    let error = FrameError::Malformed(
        serde_json::from_slice::<serde_json::Value>(&read).expect_err("that is not a message"),
    );
    assert!(matches!(error, FrameError::Malformed(_)), "{}", error.describe());
    assert!(!error.is_disconnect());
    assert!(error.describe().starts_with("the frame was not a message: "));
}

#[test]
fn an_empty_frame_is_malformed() {
    let buffer = 0_u32.to_le_bytes().to_vec();
    let (payload, end) = decode_frame(&buffer).expect("an empty frame is a whole frame");
    assert!(payload.is_empty());
    assert_eq!(end, 4);
    assert!(serde_json::from_slice::<serde_json::Value>(&payload).is_err());
}

#[test]
fn a_message_larger_than_the_limit_is_refused_by_the_sender() {
    let oversized = vec![b'x'; MAX_FRAME_BYTES as usize + 1];
    match encode_frame(&oversized) {
        Err(FrameError::TooLarge { declared }) => assert_eq!(declared, MAX_FRAME_BYTES + 1),
        other => panic!("unexpected: {other:?}"),
    }
}

#[test]
fn a_prefix_is_little_endian() {
    assert_eq!(length_prefix(0x0102_0304), [4, 3, 2, 1]);
    assert_eq!(prefix_length([4, 3, 2, 1]), 0x0102_0304);
    assert_eq!(prefix_length(length_prefix(1_048_576)), 1_048_576);
    let frame = encode_frame(b"ab").expect("it writes");
    assert_eq!(frame, vec![2, 0, 0, 0, b'a', b'b']);
}

#[test]
fn a_prefix_delivered_a_byte_at_a_time_is_read_whole() {
    let mut reader = PrefixReader::new();
    assert_eq!(reader.wanted(), 4);
    assert_eq!(reader.accept(&[16]), PrefixStep::ReadMore);
    assert_eq!(reader.wanted(), 3);
    assert_eq!(reader.accept(&[0, 0]), PrefixStep::ReadMore);
    assert_eq!(reader.accept(&[0]), PrefixStep::Complete(16));
}

#[test]
fn a_stream_that_ends_inside_a_prefix_is_a_disconnect() {
    let mut reader = PrefixReader::new();
    assert_eq!(reader.accept(&[]), PrefixStep::Disconnected);
    let mut reader = PrefixReader::new();
    assert_eq!(reader.accept(&[1, 2]), PrefixStep::ReadMore);
    assert_eq!(reader.accept(&[]), PrefixStep::Disconnected);
}

#[test]
fn a_peer_that_went_away_is_a_disconnect_and_anything_else_is_kept() {
    let gone = std::io::Error::new(std::io::ErrorKind::BrokenPipe, "the pipe has been ended");
    assert!(FrameError::from_io(gone).is_disconnect());
    let eof = std::io::Error::new(std::io::ErrorKind::UnexpectedEof, "early end");
    assert!(FrameError::from_io(eof).is_disconnect());
    let denied = std::io::Error::new(std::io::ErrorKind::PermissionDenied, "access is denied");
    let kept = FrameError::from_io(denied);
    assert!(matches!(kept, FrameError::Io(_)));
    assert!(kept.describe().starts_with("the connection failed: "));
}

#[test]
fn an_oversized_frame_is_described_with_what_was_announced() {
    assert_eq!(
        FrameError::TooLarge { declared: 4_294_967_295 }.describe(),
        "a frame of 4294967295 bytes was announced and the limit is 1048576"
    );
    assert_eq!(
        FrameError::Disconnected.describe(),
        "the other end of the connection closed"
    );
}
