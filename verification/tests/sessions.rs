use gabriel2::client::{request_frame, ClientState, ClientStep};
use gabriel2::frame::{frame_body_len, header_len};
use gabriel2::protocol::{
    request_serialize, response_serialize, RequestCommand, ResponseCommand, ResponsePayload,
    WireError,
};
use gabriel2::server::{ask_reply_frame, server_on_frame, ServerAction};

fn body_of(frame: &[u8]) -> &[u8] {
    let n = header_len();
    let len = frame_body_len(&frame[..n]);
    assert_eq!(frame.len(), n + len);
    &frame[n..]
}

#[test]
fn client_ids_count_up_from_one() {
    let mut client: ClientState<&str> = ClientState::new();
    assert_eq!(client.counter(), 0);
    let ids: Vec<u64> = (0..5).map(|_| client.next_id()).collect();
    assert_eq!(ids, vec![1, 2, 3, 4, 5]);
    assert_eq!(client.counter(), 5);
    assert_eq!(client.pending_len(), 0);
}

#[test]
fn client_request_frame_holds_the_request() {
    let mut client: ClientState<()> = ClientState::new();
    let id = client.next_id();
    let frame = request_frame(id, RequestCommand::Ask, &[4, 5]).unwrap();
    let body = body_of(&frame);
    assert_eq!(body, &request_serialize(id, RequestCommand::Ask, Some(&[4u8, 5u8][..])).unwrap()[..]);
}

#[test]
fn ask_round_trip_through_server_and_client() {
    let mut client: ClientState<&str> = ClientState::new();
    let id = client.next_id();
    let frame = request_frame(id, RequestCommand::Ask, &[10, 11]).unwrap();
    client.register(id, "waiting");
    assert!(client.is_pending(id));

    let (asked, message) = match server_on_frame(body_of(&frame)) {
        ServerAction::Ask { id, payload } => (id, payload),
        other => panic!("unexpected action {:?}", other),
    };
    assert_eq!(asked, id);
    assert_eq!(message, vec![10, 11]);

    let reply = ask_reply_frame(asked, ResponsePayload::Success(vec![99])).unwrap();
    match client.on_frame(body_of(&reply)) {
        ClientStep::Answer { promise, payload } => {
            assert_eq!(promise, "waiting");
            match payload {
                ResponsePayload::Success(b) => assert_eq!(b, vec![99]),
                ResponsePayload::Failure(_) => panic!("expected a success payload"),
            }
        }
        _ => panic!("expected an answer"),
    }
    assert!(!client.is_pending(id));
}

#[test]
fn answer_leaves_other_asks_waiting() {
    let mut client: ClientState<u32> = ClientState::new();
    let a = client.next_id();
    let b = client.next_id();
    client.register(a, 100);
    client.register(b, 200);
    let reply = response_serialize(b, ResponseCommand::Ask, ResponsePayload::Failure(vec![1])).unwrap();
    match client.on_frame(&reply) {
        ClientStep::Answer { promise, payload } => {
            assert_eq!(promise, 200);
            assert!(matches!(payload, ResponsePayload::Failure(ref v) if *v == vec![1u8]));
        }
        _ => panic!("expected an answer"),
    }
    assert!(client.is_pending(a));
    assert!(!client.is_pending(b));
    assert_eq!(client.pending_len(), 1);
}

#[test]
fn client_steps_that_change_nothing() {
    let mut client: ClientState<u8> = ClientState::new();
    client.register(1, 5);
    assert!(matches!(client.on_frame(&[]), ClientStep::Closed));
    assert!(matches!(client.on_frame(&[1, 0]), ClientStep::Malformed(WireError::Decode)));
    let reply = response_serialize(42, ResponseCommand::Ask, ResponsePayload::Success(vec![])).unwrap();
    assert!(matches!(client.on_frame(&reply), ClientStep::UnknownRequest(42)));
    assert!(client.is_pending(1));
    assert_eq!(client.pending_len(), 1);
}

#[test]
fn stop_forgets_waiting_asks() {
    let mut client: ClientState<u8> = ClientState::new();
    client.register(1, 5);
    client.register(2, 6);
    client.clear();
    assert_eq!(client.pending_len(), 0);
    let reply = response_serialize(1, ResponseCommand::Ask, ResponsePayload::Success(vec![])).unwrap();
    assert!(matches!(client.on_frame(&reply), ClientStep::UnknownRequest(1)));
}

#[test]
fn register_twice_keeps_the_later() {
    let mut client: ClientState<u8> = ClientState::new();
    client.register(3, 1);
    client.register(3, 2);
    assert_eq!(client.pending_len(), 1);
    let reply = response_serialize(3, ResponseCommand::Ask, ResponsePayload::Success(vec![])).unwrap();
    assert!(matches!(client.on_frame(&reply), ClientStep::Answer { promise: 2, .. }));
}

#[test]
fn server_decisions() {
    assert!(matches!(server_on_frame(&[]), ServerAction::Close));
    assert!(matches!(server_on_frame(&[1, 9, 0]), ServerAction::Close));
    let send = request_serialize(1, RequestCommand::Send, Some(&[3u8][..])).unwrap();
    assert!(matches!(server_on_frame(&send), ServerAction::Send { ref payload } if *payload == vec![3u8]));
    let state = request_serialize(2, RequestCommand::State, None).unwrap();
    assert!(matches!(server_on_frame(&state), ServerAction::Ignore));
    let stop = request_serialize(3, RequestCommand::Stop, None).unwrap();
    assert!(matches!(server_on_frame(&stop), ServerAction::Ignore));
    let ask = request_serialize(4, RequestCommand::Ask, Some(&[][..])).unwrap();
    assert!(matches!(server_on_frame(&ask), ServerAction::Ask { id: 4, ref payload } if payload.is_empty()));
}

#[test]
fn ask_reply_frame_is_framed_response() {
    let frame = ask_reply_frame(8, ResponsePayload::Failure(vec![2, 2])).unwrap();
    let expected = response_serialize(8, ResponseCommand::Ask, ResponsePayload::Failure(vec![2, 2])).unwrap();
    assert_eq!(body_of(&frame), &expected[..]);
}
