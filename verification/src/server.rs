//! The decisions of an actor server on each connection: what it does with a frame
//! it read, and the frame that answers an ask.
use crate::frame::{encode_frame, frame};
use crate::protocol::{
    decoded_request, law_request_roundtrip, request_deserialize_command, request_wire,
    response_serialize, response_wire, RequestCommand, ResponseCommand, ResponsePayload, WireError,
};
use crate::client::{
    answered, client_step, issued, law_answer_reaches_ask, registered, ClientModel, ClientStepView,
};
use crate::protocol::response_payload_wire;
use vstd::prelude::*;

verus! {

/// What the server does with a frame it read.
#[derive(Debug)]
pub enum ServerAction {
    /// End the connection: the frame is empty or holds no request.
    Close,
    /// Read on: the request is one the server does not serve.
    Ignore,
    /// Deliver the encoded message to the actor and expect no answer.
    Send { payload: Vec<u8> },
    /// Deliver the encoded message to the actor and answer under `id`.
    Ask { id: u64, payload: Vec<u8> },
}

/// A server action by the views of its values.
pub enum ServerDecision {
    Close,
    Ignore,
    Send(Seq<u8>),
    Ask(u64, Seq<u8>),
}

impl View for ServerAction {
    type V = ServerDecision;

    open spec fn view(&self) -> ServerDecision {
        match self {
            ServerAction::Close => ServerDecision::Close,
            ServerAction::Ignore => ServerDecision::Ignore,
            ServerAction::Send { payload } => ServerDecision::Send(payload@),
            ServerAction::Ask { id, payload } => ServerDecision::Ask(*id, payload@),
        }
    }
}

/// What the server does with a request.
pub open spec fn decision_for(id: u64, command: RequestCommand, payload: Seq<u8>) -> ServerDecision {
    match command {
        RequestCommand::Send => ServerDecision::Send(payload),
        RequestCommand::Ask => ServerDecision::Ask(id, payload),
        RequestCommand::State => ServerDecision::Ignore,
        RequestCommand::Stop => ServerDecision::Ignore,
    }
}

/// What the server does with the body of a frame.
pub open spec fn server_decision(body: Seq<u8>) -> ServerDecision {
    if body.len() == 0 {
        ServerDecision::Close
    } else {
        match decoded_request(body) {
            Err(_) => ServerDecision::Close,
            Ok(r) => decision_for(r.0, r.1, r.2),
        }
    }
}

/// Decides on the body of a frame that the server read: an empty body or one
/// that holds no request ends the connection; a `Send` or an `Ask` goes to the
/// actor; the other commands are passed over.
pub fn server_on_frame(body: &[u8]) -> (action: ServerAction)
    ensures
        action@ == server_decision(body@),
        forall|id: u64, command: RequestCommand, payload: Seq<u8>|
            #![trigger request_wire(id, command, payload)]
            payload.len() <= usize::MAX && request_wire(id, command, payload).is_prefix_of(body@)
                ==> action@ == decision_for(id, command, payload),
        forall|id: u64, payload: Seq<u8>|
            #![trigger request_wire(id, RequestCommand::Ask, payload)]
            payload.len() <= usize::MAX && request_wire(id, RequestCommand::Ask, payload).is_prefix_of(
                body@,
            ) ==> action@ == ServerDecision::Ask(id, payload),
        forall|id: u64, payload: Seq<u8>|
            #![trigger request_wire(id, RequestCommand::Send, payload)]
            payload.len() <= usize::MAX && request_wire(id, RequestCommand::Send, payload).is_prefix_of(
                body@,
            ) ==> action@ == ServerDecision::Send(payload),
        forall|id: u64, payload: Seq<u8>|
            #![trigger request_wire(id, RequestCommand::State, payload)]
            payload.len() <= usize::MAX && request_wire(id, RequestCommand::State, payload).is_prefix_of(
                body@,
            ) ==> action@ == ServerDecision::Ignore,
        forall|id: u64, payload: Seq<u8>|
            #![trigger request_wire(id, RequestCommand::Stop, payload)]
            payload.len() <= usize::MAX && request_wire(id, RequestCommand::Stop, payload).is_prefix_of(
                body@,
            ) ==> action@ == ServerDecision::Ignore,
{
    if body.len() == 0 {
        return ServerAction::Close;
    }
    match request_deserialize_command(body) {
        Err(_) => ServerAction::Close,
        Ok(request) => match request.command {
            RequestCommand::Send => ServerAction::Send { payload: request.payload },
            RequestCommand::Ask => ServerAction::Ask { id: request.id, payload: request.payload },
            RequestCommand::State => ServerAction::Ignore,
            RequestCommand::Stop => ServerAction::Ignore,
        },
    }
}

/// A server hands an ask to the actor under the id it was sent with, with its
/// message unchanged, whatever follows it on the stream: the answer goes back under
/// the ask's own id.
pub proof fn law_server_keeps_ask_id(id: u64, payload: Seq<u8>, rest: Seq<u8>)
    requires
        payload.len() <= usize::MAX,
    ensures
        server_decision(request_wire(id, RequestCommand::Ask, payload) + rest) == ServerDecision::Ask(
            id,
            payload,
        ),
{
    law_request_roundtrip(id, RequestCommand::Ask, payload, rest);
}

/// A server delivers every message that is sent to it, of any length, unchanged.
pub proof fn law_server_delivers_send(id: u64, payload: Seq<u8>, rest: Seq<u8>)
    requires
        payload.len() <= usize::MAX,
    ensures
        server_decision(request_wire(id, RequestCommand::Send, payload) + rest)
            == ServerDecision::Send(payload),
{
    law_request_roundtrip(id, RequestCommand::Send, payload, rest);
}

/// A server passes over `State` and `Stop` requests and reads on: it neither
/// delivers them nor closes the connection.
pub proof fn law_server_passes_over(id: u64, command: RequestCommand, payload: Seq<u8>, rest: Seq<u8>)
    requires
        payload.len() <= usize::MAX,
        command == RequestCommand::State || command == RequestCommand::Stop,
    ensures
        server_decision(request_wire(id, command, payload) + rest) == ServerDecision::Ignore,
{
    law_request_roundtrip(id, command, payload, rest);
}

/// An ask goes round under one id: the client gives it the next id, the server
/// hands it to the actor under that id, and the answer sent back under that id
/// reaches the promise that the ask registered, unchanged.
pub proof fn law_ask_answered_under_its_id<P>(
    s: ClientModel<P>,
    message: Seq<u8>,
    promise: P,
    response: (u32, Seq<u8>),
)
    requires
        s.0 < u64::MAX,
        message.len() <= usize::MAX,
        response.0 <= 1,
        response_payload_wire(response).len() <= u64::MAX,
    ensures
        server_decision(request_wire(issued(s).0, RequestCommand::Ask, message))
            == ServerDecision::Ask(issued(s).0, message),
        client_step(
            registered(issued(s), issued(s).0, promise),
            response_wire(issued(s).0, ResponseCommand::Ask, response),
        ) == (ClientStepView::Answer(promise, response), answered(issued(s), issued(s).0)),
{
    let id = issued(s).0;
    law_server_keeps_ask_id(id, message, Seq::empty());
    assert(request_wire(id, RequestCommand::Ask, message) + Seq::empty() =~= request_wire(
        id,
        RequestCommand::Ask,
        message,
    ));
    law_answer_reaches_ask(issued(s), id, promise, response, Seq::empty());
    assert(response_wire(id, ResponseCommand::Ask, response) + Seq::empty() =~= response_wire(
        id,
        ResponseCommand::Ask,
        response,
    ));
}

/// The frame that answers the ask `id` with the actor's outcome.
pub fn ask_reply_frame(id: u64, payload: ResponsePayload) -> (r: Result<Vec<u8>, WireError>)
    ensures
        r is Ok,
        r->Ok_0@ == frame(response_wire(id, ResponseCommand::Ask, payload@)),
{
    let encoded = response_serialize(id, ResponseCommand::Ask, payload)?;
    Ok(encode_frame(encoded.as_slice()))
}

} // verus!
