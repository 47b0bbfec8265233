use forgeclaw::ipc::codec::{
    classify_decode_failure, encode_failure, CappedBytesWriter, FrameCodec, WireDirection,
    LENGTH_PREFIX_BYTES, MAX_FRAME_BYTES,
};
use forgeclaw::ipc::error::{FrameError, IpcError, ProtocolError};

#[test]
fn encode_writes_big_endian_prefix() {
    let mut codec = FrameCodec::new();
    let mut buf = Vec::new();
    codec.encode(b"hello", &mut buf).expect("encode");
    assert_eq!(&buf[..LENGTH_PREFIX_BYTES], &[0, 0, 0, 5]);
    assert_eq!(&buf[LENGTH_PREFIX_BYTES..], b"hello");
}

#[test]
fn encode_rejects_empty_frame() {
    let mut codec = FrameCodec::new();
    let mut buf = Vec::new();
    let err = codec.encode(&[], &mut buf).expect_err("empty frame should error");
    assert!(matches!(err, IpcError::Frame(FrameError::EmptyFrame)));
    assert!(buf.is_empty());
}

#[test]
fn encode_rejects_oversize_payload() {
    let mut codec = FrameCodec::new();
    let mut buf = Vec::new();
    let big = vec![0u8; MAX_FRAME_BYTES + 1];
    let err = codec.encode(&big, &mut buf).expect_err("oversize payload should error");
    assert!(matches!(err, IpcError::Frame(FrameError::Oversize { .. })));
}

#[test]
fn encode_accepts_max_frame_exactly() {
    let mut codec = FrameCodec::new();
    let mut buf = Vec::new();
    codec.encode(&vec![0u8; MAX_FRAME_BYTES], &mut buf).expect("encode at max");
    assert_eq!(buf.len(), LENGTH_PREFIX_BYTES + MAX_FRAME_BYTES);
}

#[test]
fn decode_returns_none_on_empty_buffer() {
    let mut codec = FrameCodec::new();
    let mut buf = Vec::new();
    assert!(codec.decode(&mut buf).expect("decode").is_none());
}

#[test]
fn decode_waits_for_full_header() {
    let mut codec = FrameCodec::new();
    let mut buf = vec![0u8, 0, 0];
    assert!(codec.decode(&mut buf).expect("decode").is_none());
    assert_eq!(buf.len(), 3);
}

#[test]
fn decode_waits_for_full_payload() {
    let mut codec = FrameCodec::new();
    let mut buf = vec![0u8, 0, 0, 5, b'h', b'i'];
    assert!(codec.decode(&mut buf).expect("decode").is_none());
    assert_eq!(buf.len(), 6);
}

#[test]
fn decode_yields_payload_on_full_frame() {
    let mut codec = FrameCodec::new();
    let mut buf = vec![0u8, 0, 0, 5, b'h', b'e', b'l', b'l', b'o'];
    let frame = codec.decode(&mut buf).expect("decode").expect("some");
    assert_eq!(&frame[..], b"hello");
    assert!(buf.is_empty());
}

#[test]
fn decode_handles_multiple_frames_in_buffer() {
    let mut codec = FrameCodec::new();
    let mut buf = Vec::new();
    codec.encode(b"ab", &mut buf).expect("encode");
    codec.encode(b"cde", &mut buf).expect("encode");
    let first = codec.decode(&mut buf).expect("decode").expect("some");
    let second = codec.decode(&mut buf).expect("decode").expect("some");
    assert_eq!(&first[..], b"ab");
    assert_eq!(&second[..], b"cde");
    assert!(buf.is_empty());
}

#[test]
fn decode_rejects_zero_length_frame() {
    let mut codec = FrameCodec::new();
    let mut buf = vec![0u8, 0, 0, 0];
    let err = codec.decode(&mut buf).expect_err("zero-length frame should error");
    assert!(matches!(err, IpcError::Frame(FrameError::EmptyFrame)));
    assert!(buf.is_empty());
}

#[test]
fn decode_rejects_oversize_declared_length() {
    let mut codec = FrameCodec::new();
    let mut buf = vec![0x00u8, 0xC0, 0x00, 0x00];
    let err = codec.decode(&mut buf).expect_err("oversize declared length should error");
    assert!(matches!(err, IpcError::Frame(FrameError::Oversize { .. })));
    assert!(buf.is_empty());
}

#[test]
fn decode_eof_on_truncated_header_errors() {
    let mut codec = FrameCodec::new();
    let mut buf = vec![0u8, 0];
    let err = codec.decode_eof(&mut buf).expect_err("truncated header should error");
    assert!(matches!(err, IpcError::Frame(FrameError::Truncated { expected: 4, got: 2 })));
}

#[test]
fn decode_eof_on_truncated_payload_errors() {
    let mut codec = FrameCodec::new();
    let mut buf = vec![0u8, 0, 0, 10, b'x', b'y', b'z'];
    let err = codec.decode_eof(&mut buf).expect_err("truncated payload should error");
    assert!(matches!(err, IpcError::Frame(FrameError::Truncated { expected: 10, got: 3 })));
}

#[test]
fn decode_eof_on_empty_buffer_is_none() {
    let mut codec = FrameCodec::new();
    let mut buf = Vec::new();
    assert!(codec.decode_eof(&mut buf).expect("decode_eof").is_none());
}

#[test]
fn encode_then_decode_roundtrip_variable_sizes() {
    let mut codec = FrameCodec::new();
    for size in [1usize, 2, 4, 128, 4096, 65536] {
        let payload = vec![0xABu8; size];
        let mut buf = Vec::new();
        codec.encode(&payload, &mut buf).expect("encode");
        let decoded = codec.decode(&mut buf).expect("decode").expect("some");
        assert_eq!(&decoded[..], &payload[..]);
        assert!(buf.is_empty());
    }
}

#[test]
fn decode_rejects_non_utf8() {
    let bytes = &[0xFFu8, 0xFE, 0xFD][..];
    let err = classify_decode_failure(bytes, WireDirection::ContainerToHost, "bad".to_owned());
    assert!(matches!(err, IpcError::Frame(FrameError::InvalidUtf8)));
}

#[test]
fn decode_rejects_malformed_json() {
    let bytes = b"{not json";
    let err = classify_decode_failure(bytes, WireDirection::ContainerToHost, "bad".to_owned());
    assert!(matches!(err, IpcError::Frame(FrameError::MalformedJson(_))));
}

#[test]
fn decode_unknown_type_is_protocol_error() {
    let bytes = br#"{"type":"definitely_not_a_real_message"}"#;
    let err = classify_decode_failure(bytes, WireDirection::ContainerToHost, "bad".to_owned());
    assert!(
        matches!(
            &err,
            IpcError::Protocol(ProtocolError::UnknownMessageType(n))
                if n == "definitely_not_a_real_message"
        ),
        "expected UnknownMessageType, got {err:?}"
    );
}

#[test]
fn decode_known_type_missing_field_is_malformed() {
    let bytes = br#"{"type":"ready"}"#;
    let err = classify_decode_failure(bytes, WireDirection::ContainerToHost, "bad".to_owned());
    assert!(matches!(err, IpcError::Frame(FrameError::MalformedJson(_))));
}

#[test]
fn decode_no_type_field_is_malformed() {
    let bytes = br#"{"adapter":"x"}"#;
    let err = classify_decode_failure(bytes, WireDirection::ContainerToHost, "bad".to_owned());
    assert!(matches!(err, IpcError::Frame(FrameError::MalformedJson(_))));
}

#[test]
fn single_pass_classification_keeps_known_type_payload_malformed() {
    let bytes = br#"{"type":"ready"}"#;
    let err = classify_decode_failure(bytes, WireDirection::ContainerToHost, "bad".to_owned());
    assert!(
        matches!(err, IpcError::Frame(FrameError::MalformedJson(_))),
        "known type with bad payload should be MalformedJson, got {err:?}"
    );
}

#[test]
fn encode_message_rejects_oversize_before_full_buffer_materialization() {
    let mut writer = CappedBytesWriter::new(MAX_FRAME_BYTES);
    let chunk = vec![b'x'; MAX_FRAME_BYTES + 256];
    let refused = writer.write(&chunk).expect_err("oversize write must fail");
    assert_eq!(refused, MAX_FRAME_BYTES + 256);
    let err = encode_failure(writer.overflow_size(), "io".to_owned());
    assert!(
        matches!(err, IpcError::Frame(FrameError::Oversize { max: MAX_FRAME_BYTES, .. })),
        "expected frame oversize, got {err:?}"
    );
    assert!(writer.into_bytes().is_empty());
}

#[test]
fn decode_host_direction_knows_only_host_types() {
    let bytes = br#"{"type":"ready"}"#;
    let err = classify_decode_failure(bytes, WireDirection::HostToContainer, "bad".to_owned());
    assert!(matches!(&err, IpcError::Protocol(ProtocolError::UnknownMessageType(n)) if n == "ready"));
    let bytes = br#"{"type":"shutdown"}"#;
    let err = classify_decode_failure(bytes, WireDirection::HostToContainer, "missing".to_owned());
    assert!(matches!(&err, IpcError::Frame(FrameError::MalformedJson(d)) if d == "missing"));
}

#[test]
fn capped_writer_accumulates_until_cap() {
    let mut writer = CappedBytesWriter::new(5);
    assert_eq!(writer.write(b"abc").expect("fits"), 3);
    assert_eq!(writer.write(b"de").expect("fits exactly"), 2);
    assert_eq!(writer.write(b"f").expect_err("over cap"), 6);
    assert_eq!(writer.overflow_size(), Some(6));
    assert_eq!(writer.into_bytes(), b"abcde".to_vec());
}

#[test]
fn encode_failure_without_overflow_is_serialize_error() {
    let err = encode_failure(None, "key must be a string".to_owned());
    assert!(matches!(&err, IpcError::Serialize(s) if s == "key must be a string"));
    assert!(!err.is_fatal());
}

#[test]
fn decode_frame_roundtrip_leaves_following_bytes() {
    let mut codec = FrameCodec::new();
    let mut buf = Vec::new();
    codec.encode(b"payload", &mut buf).expect("encode");
    buf.extend_from_slice(&[0, 0]);
    let frame = codec.decode(&mut buf).expect("decode").expect("frame");
    assert_eq!(frame, b"payload".to_vec());
    assert_eq!(buf, vec![0, 0]);
}
