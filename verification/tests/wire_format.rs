use gabriel2::wire::{payload_fits, read_varint};
use gabriel2::frame::{encode_frame, encode_frame_header, frame_body_len, header_len};
use gabriel2::protocol::{
    request_deserialize_command, request_from_fields, request_serialize,
    response_deserialize, response_from_fields, response_payload_deserialize,
    response_payload_from_parts, response_payload_serialize, response_serialize,
    RequestCommand, ResponseCommand, ResponsePayload, WireError,
};

fn le_header(len: usize) -> Vec<u8> {
    len.to_le_bytes().to_vec()
}

#[test]
fn request_without_message_is_three_bytes() {
    let bytes = request_serialize(5, RequestCommand::Send, None).unwrap();
    assert_eq!(bytes, vec![5, 0, 0]);
}

#[test]
fn request_with_large_id_uses_varint_marker() {
    let message = [9u8, 9u8];
    let bytes = request_serialize(300, RequestCommand::Ask, Some(&message[..])).unwrap();
    assert_eq!(bytes, vec![251, 44, 1, 1, 2, 9, 9]);
    let bytes = request_serialize(70000, RequestCommand::Stop, None).unwrap();
    assert_eq!(bytes, vec![252, 0x70, 0x11, 0x01, 0x00, 3, 0]);
    let bytes = request_serialize(u64::MAX, RequestCommand::State, None).unwrap();
    assert_eq!(bytes, vec![253, 255, 255, 255, 255, 255, 255, 255, 255, 2, 0]);
}

#[test]
fn request_round_trip_for_every_command() {
    let message: Vec<u8> = (0..=255u8).collect();
    for (i, command) in [
        RequestCommand::Send,
        RequestCommand::Ask,
        RequestCommand::State,
        RequestCommand::Stop,
    ]
    .into_iter()
    .enumerate()
    {
        let id = 1_000_000_000_000u64 + i as u64;
        let bytes = request_serialize(id, command, Some(&message[..])).unwrap();
        let request = request_deserialize_command(&bytes).unwrap();
        assert_eq!(request.id, id);
        assert_eq!(request.command, command);
        assert_eq!(request.payload, message);
    }
}

#[test]
fn request_decoding_ignores_trailing_bytes() {
    let mut bytes = request_serialize(7, RequestCommand::Ask, Some(&[1u8, 2u8][..])).unwrap();
    bytes.extend_from_slice(&[42, 43]);
    let request = request_deserialize_command(&bytes).unwrap();
    assert_eq!(request.id, 7);
    assert_eq!(request.command, RequestCommand::Ask);
    assert_eq!(request.payload, vec![1, 2]);
}

#[test]
fn request_decoding_errors() {
    assert_eq!(request_deserialize_command(&[]).unwrap_err(), WireError::Decode);
    assert_eq!(
        request_deserialize_command(&[1, 7, 0]).unwrap_err(),
        WireError::UnexpectedVariant(7)
    );
    assert_eq!(request_deserialize_command(&[1, 0, 5, 1]).unwrap_err(), WireError::Decode);
    assert_eq!(request_deserialize_command(&[254, 0]).unwrap_err(), WireError::Decode);
}

#[test]
fn request_from_fields_checks_the_command() {
    assert_eq!(request_from_fields(None).unwrap_err(), WireError::Decode);
    assert_eq!(
        request_from_fields(Some((1, 4, vec![]))).unwrap_err(),
        WireError::UnexpectedVariant(4)
    );
    let request = request_from_fields(Some((9, 3, vec![8]))).unwrap();
    assert_eq!(request.id, 9);
    assert_eq!(request.command, RequestCommand::Stop);
    assert_eq!(request.payload, vec![8]);
}

#[test]
fn response_bytes() {
    let bytes = response_serialize(1, ResponseCommand::Ask, ResponsePayload::Success(vec![1, 2])).unwrap();
    assert_eq!(bytes, vec![1, 0, 3, 0, 1, 2]);
    let bytes = response_serialize(2, ResponseCommand::Ask, ResponsePayload::Failure(vec![])).unwrap();
    assert_eq!(bytes, vec![2, 0, 1, 1]);
    assert_eq!(response_payload_serialize(ResponsePayload::Failure(vec![5])).unwrap(), vec![1, 5]);
}

#[test]
fn response_round_trip() {
    for payload in [ResponsePayload::Success(vec![3, 4, 5]), ResponsePayload::Failure(vec![6])] {
        let expected_success = matches!(payload, ResponsePayload::Success(_));
        let expected_bytes = match &payload {
            ResponsePayload::Success(b) | ResponsePayload::Failure(b) => b.clone(),
        };
        let bytes = response_serialize(77_000, ResponseCommand::Ask, payload).unwrap();
        let (id, command, decoded) = response_deserialize(&bytes).unwrap();
        assert_eq!(id, 77_000);
        assert_eq!(command, ResponseCommand::Ask);
        match decoded {
            ResponsePayload::Success(b) => {
                assert!(expected_success);
                assert_eq!(b, expected_bytes);
            }
            ResponsePayload::Failure(b) => {
                assert!(!expected_success);
                assert_eq!(b, expected_bytes);
            }
        }
    }
}

#[test]
fn response_decoding_errors() {
    assert_eq!(response_deserialize(&[]).unwrap_err(), WireError::Decode);
    assert_eq!(response_deserialize(&[1, 1, 1, 0]).unwrap_err(), WireError::UnexpectedVariant(1));
    assert_eq!(response_deserialize(&[1, 0, 1, 2]).unwrap_err(), WireError::UnexpectedVariant(2));
    assert_eq!(response_deserialize(&[1, 0, 0]).unwrap_err(), WireError::Decode);
    assert_eq!(response_payload_deserialize(&[]).unwrap_err(), WireError::Decode);
    assert_eq!(response_from_fields(None).unwrap_err(), WireError::Decode);
    assert_eq!(
        response_from_fields(Some((3, 5, vec![0]))).unwrap_err(),
        WireError::UnexpectedVariant(5)
    );
}

#[test]
fn response_payload_from_parts_takes_what_follows_the_index() {
    match response_payload_from_parts(Some((1, 1)), &[1, 8, 9]).unwrap() {
        ResponsePayload::Failure(b) => assert_eq!(b, vec![8, 9]),
        ResponsePayload::Success(_) => panic!("expected a failure payload"),
    }
    assert_eq!(
        response_payload_from_parts(Some((3, 1)), &[3]).unwrap_err(),
        WireError::UnexpectedVariant(3)
    );
    assert_eq!(response_payload_from_parts(None, &[0]).unwrap_err(), WireError::Decode);
}

#[test]
fn frame_is_length_then_body() {
    assert_eq!(header_len(), std::mem::size_of::<usize>());
    let frame = encode_frame(&[7, 8, 9]);
    let mut expected = le_header(3);
    expected.extend_from_slice(&[7, 8, 9]);
    assert_eq!(frame, expected);
    assert_eq!(frame_body_len(&frame[..header_len()]), 3);
}

#[test]
fn frame_header_round_trip() {
    for len in [0usize, 1, 255, 256, 65_535, 1 << 20, usize::MAX] {
        let header = encode_frame_header(len);
        assert_eq!(header, le_header(len));
        assert_eq!(frame_body_len(&header), len);
    }
}

#[test]
fn empty_frame_is_a_bare_header() {
    let frame = encode_frame(&[]);
    assert_eq!(frame, vec![0u8; header_len()]);
}

#[test]
fn oversized_payload_announcement_is_refused() {
    let mut bytes = vec![1u8, 0u8, 253u8];
    bytes.extend_from_slice(&[255u8; 8]);
    assert!(!payload_fits(&bytes));
    assert_eq!(request_deserialize_command(&bytes).unwrap_err(), WireError::Decode);
    assert_eq!(response_deserialize(&bytes).unwrap_err(), WireError::Decode);
    assert!(!payload_fits(&[1, 0, 3, 1, 2]));
    assert!(payload_fits(&[1, 0, 2, 1, 2]));
    assert!(payload_fits(&[1]));
}

#[test]
fn read_varint_reads_every_width() {
    assert_eq!(read_varint(&[250], 0), Some((250, 1)));
    assert_eq!(read_varint(&[9, 251, 44, 1], 1), Some((300, 4)));
    assert_eq!(read_varint(&[252, 0x70, 0x11, 0x01, 0x00], 0), Some((70000, 5)));
    assert_eq!(read_varint(&[253, 1, 0, 0, 0, 0, 0, 0, 1], 0), Some((0x0100_0000_0000_0001, 9)));
    assert_eq!(read_varint(&[254, 0, 0], 0), None);
    assert_eq!(read_varint(&[251, 1], 0), None);
    assert_eq!(read_varint(&[], 0), None);
}

#[test]
fn unknown_command_is_refused_before_the_payload() {
    assert_eq!(request_deserialize_command(&[1, 7]).unwrap_err(), WireError::UnexpectedVariant(7));
    assert_eq!(request_deserialize_command(&[1, 7, 5]).unwrap_err(), WireError::UnexpectedVariant(7));
    assert_eq!(request_deserialize_command(&[1, 251, 0, 1]).unwrap_err(), WireError::UnexpectedVariant(256));
    assert_eq!(response_deserialize(&[1, 1]).unwrap_err(), WireError::UnexpectedVariant(1));
    assert_eq!(response_deserialize(&[1, 2, 9]).unwrap_err(), WireError::UnexpectedVariant(2));
}

#[test]
fn command_index_with_u64_marker_is_malformed() {
    assert_eq!(request_deserialize_command(&[1, 253, 1, 0, 0, 0, 0, 0, 0, 0, 0]).unwrap_err(), WireError::Decode);
    assert_eq!(request_deserialize_command(&[1]).unwrap_err(), WireError::Decode);
    assert_eq!(response_deserialize(&[1, 0]).unwrap_err(), WireError::Decode);
}
