use broker_framing::ConnAction;
use broker_framing::ConnEvent;
use broker_framing::ConnState;
use broker_framing::FrameError;
use broker_framing::RequestHeader;
use broker_framing::ResponseHeader;
use broker_framing::build_response;
use broker_framing::conn_step;
use broker_framing::handle_request_bytes;

/// A 12-byte request header: each integer field written big-endian.
fn header_bytes(message_size: i32, api_key: u16, api_version: u16, correlation_id: i32) -> Vec<u8> {
    let mut bytes = Vec::new();
    bytes.extend_from_slice(&message_size.to_be_bytes());
    bytes.extend_from_slice(&api_key.to_be_bytes());
    bytes.extend_from_slice(&api_version.to_be_bytes());
    bytes.extend_from_slice(&correlation_id.to_be_bytes());
    bytes
}

#[test]
fn decode_reads_all_fields_big_endian() {
    let bytes = header_bytes(8, 18, 4, 7);
    let header = RequestHeader::decode(&bytes).unwrap();
    assert_eq!(header.message_size, 8);
    assert_eq!(header.request_api_key, 18);
    assert_eq!(header.request_api_version, 4);
    assert_eq!(header.correlation_id, 7);
    assert!(header.client_id.is_none());
    assert!(header.tag_buffer.is_empty());
}

#[test]
fn decode_correlation_is_big_endian() {
    // The four correlation bytes 00 00 00 0A mean the integer 10.
    let bytes = vec![0, 0, 0, 0, 0, 0, 0, 0, 0x00, 0x00, 0x00, 0x0A];
    let header = RequestHeader::decode(&bytes).unwrap();
    assert_eq!(header.correlation_id, 10);
}

#[test]
fn encode_correlation_is_big_endian() {
    // The integer 10 is written as the four bytes 00 00 00 0A.
    let resp = ResponseHeader { message_size: 0, correlation_id: 10 };
    let out = resp.encode();
    assert_eq!(out, vec![0, 0, 0, 0, 0x00, 0x00, 0x00, 0x0A]);
}

#[test]
fn round_trip_correlation_at_boundaries() {
    for &corr in &[0i32, 1, -1, 10, 7, 0x0102_0304, -0x0102_0304, i32::MIN, i32::MAX] {
        let bytes = header_bytes(8, 18, 4, corr);
        let header = RequestHeader::decode(&bytes).unwrap();
        assert_eq!(header.correlation_id, corr);
        let resp = build_response(&header);
        assert_eq!(resp.correlation_id, corr);
        assert_eq!(resp.message_size, 0);
        let out = resp.encode();
        assert_eq!(&out[4..8], &corr.to_be_bytes());
    }
}

#[test]
fn response_shape_is_fixed() {
    for &corr in &[0i32, -1, 42, i32::MIN, i32::MAX] {
        let bytes = header_bytes(100, 3, 9, corr);
        let out = handle_request_bytes(&bytes).unwrap();
        assert_eq!(out.len(), 8);
        assert_eq!(&out[0..4], &[0, 0, 0, 0]);
        assert_eq!(&out[4..8], &corr.to_be_bytes());
    }
}

#[test]
fn message_size_is_decoded_signed() {
    let bytes = header_bytes(-5, 0, 0, 0);
    let header = RequestHeader::decode(&bytes).unwrap();
    assert_eq!(header.message_size, -5);
}

#[test]
fn short_read_yields_read_failure() {
    for len in 0..12usize {
        let bytes = vec![0xFFu8; len];
        match RequestHeader::decode(&bytes) {
            Err(FrameError::ReadFailure) => {}
            other => panic!("expected ReadFailure on {} bytes, got {:?}", len, other),
        }
        match handle_request_bytes(&bytes) {
            Err(FrameError::ReadFailure) => {}
            other => panic!("expected ReadFailure on {} bytes, got {:?}", len, other),
        }
    }
}

#[test]
fn body_bytes_after_the_prefix_are_ignored() {
    let mut bytes = header_bytes(20, 18, 4, 99);
    bytes.extend_from_slice(&[0xAA; 8]);
    let header = RequestHeader::decode(&bytes).unwrap();
    assert_eq!(header.correlation_id, 99);
    let out = handle_request_bytes(&bytes).unwrap();
    assert_eq!(&out[4..8], &99i32.to_be_bytes());
}

#[test]
fn codec_is_deterministic() {
    let bytes = header_bytes(8, 18, 4, -77);
    let first = RequestHeader::decode(&bytes).unwrap();
    let second = RequestHeader::decode(&bytes).unwrap();
    assert_eq!(first.message_size, second.message_size);
    assert_eq!(first.request_api_key, second.request_api_key);
    assert_eq!(first.request_api_version, second.request_api_version);
    assert_eq!(first.correlation_id, second.correlation_id);
    assert_eq!(first.client_id, second.client_id);
    assert_eq!(first.tag_buffer, second.tag_buffer);
    let out1 = handle_request_bytes(&bytes).unwrap();
    let out2 = handle_request_bytes(&bytes).unwrap();
    assert_eq!(out1, out2);
}

#[test]
fn end_to_end_scenario() {
    // message_size=8, api_key=18, api_version=4, correlation_id=7
    let wire = vec![0x00, 0x00, 0x00, 0x08, 0x00, 0x12, 0x00, 0x04, 0x00, 0x00, 0x00, 0x07];
    let (next, action) = conn_step(ConnState::AwaitingRequest, ConnEvent::HeaderBytes(wire));
    assert_eq!(next, ConnState::AwaitingRequest);
    match action {
        ConnAction::Respond(out) => {
            assert_eq!(out, vec![0x00, 0x00, 0x00, 0x00, 0x00, 0x00, 0x00, 0x07]);
        }
        ConnAction::Abandon => panic!("expected a response"),
    }
}

#[test]
fn connection_abandoned_on_short_read() {
    // Only 6 bytes arrive before the peer closes: no response is written and
    // the connection is closed.
    let partial = vec![0x00, 0x00, 0x00, 0x08, 0x00, 0x12];
    let (next, action) = conn_step(ConnState::AwaitingRequest, ConnEvent::HeaderBytes(partial));
    assert_eq!(next, ConnState::Closed);
    assert!(matches!(action, ConnAction::Abandon));
}

#[test]
fn connection_abandoned_on_read_failure() {
    let (next, action) = conn_step(ConnState::AwaitingRequest, ConnEvent::ReadFailed);
    assert_eq!(next, ConnState::Closed);
    assert!(matches!(action, ConnAction::Abandon));
}

#[test]
fn connection_abandoned_on_write_failure() {
    let (next, action) = conn_step(ConnState::AwaitingRequest, ConnEvent::WriteFailed);
    assert_eq!(next, ConnState::Closed);
    assert!(matches!(action, ConnAction::Abandon));
}

#[test]
fn closed_connection_stays_closed() {
    let bytes = header_bytes(8, 18, 4, 7);
    let (next, action) = conn_step(ConnState::Closed, ConnEvent::HeaderBytes(bytes));
    assert_eq!(next, ConnState::Closed);
    assert!(matches!(action, ConnAction::Abandon));
}

#[test]
fn error_variants_are_distinct() {
    assert_ne!(FrameError::ReadFailure, FrameError::WriteFailure);
    let none = RequestHeader::decode(&Vec::new());
    assert!(matches!(none, Err(FrameError::ReadFailure)));
}
