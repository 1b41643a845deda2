//! The messages of the remote actor protocol and their encoding.
//!
//! A request is an id, a command and the encoded message it carries; a response
//! is the id of the request it answers, its command, and a payload that holds
//! either the encoded response of the actor or its encoded error. Each is
//! written as bincode writes the struct `{ id: u64, command, payload: Vec<u8> }`.
//! The messages, responses and errors of the actor themselves are encoded by the
//! caller: here they are bytes.
use crate::wire::{
    decode_message, decode_u32, encode_message, encode_u32, lemma_message_at_encoding,
    lemma_varint_u32_at_encoding, message_at, message_head, payload_fits, read_message_head,
    varint_u32, varint_u32_at, wire_message,
};
use vstd::prelude::*;
use vstd::slice::{slice_subrange, slice_to_vec};

verus! {

/// What a request asks of the remote actor.
#[derive(Clone, Copy, Debug, PartialEq, Eq, Structural)]
pub enum RequestCommand {
    /// Deliver the message and expect no answer.
    Send,
    /// Deliver the message and answer with the actor's response.
    Ask,
    /// Reserved: read the actor's state.
    State,
    /// Reserved: stop the actor.
    Stop,
}

/// The variant index that identifies a command on the wire.
pub open spec fn command_tag(command: RequestCommand) -> u32 {
    match command {
        RequestCommand::Send => 0,
        RequestCommand::Ask => 1,
        RequestCommand::State => 2,
        RequestCommand::Stop => 3,
    }
}

/// The command that a variant index identifies, if any.
pub open spec fn command_of_tag(tag: u32) -> Option<RequestCommand> {
    if tag == 0 {
        Some(RequestCommand::Send)
    } else if tag == 1 {
        Some(RequestCommand::Ask)
    } else if tag == 2 {
        Some(RequestCommand::State)
    } else if tag == 3 {
        Some(RequestCommand::Stop)
    } else {
        None
    }
}

impl RequestCommand {
    /// The variant index of this command.
    pub fn tag(self) -> (tag: u32)
        ensures
            tag == command_tag(self),
    {
        match self {
            RequestCommand::Send => 0,
            RequestCommand::Ask => 1,
            RequestCommand::State => 2,
            RequestCommand::Stop => 3,
        }
    }
}

/// What a response is: the answer to an `Ask`.
#[derive(Clone, Copy, Debug, PartialEq, Eq, Structural)]
pub enum ResponseCommand {
    Ask,
}

/// The variant index of a response command.
pub open spec fn response_command_tag(command: ResponseCommand) -> u32 {
    match command {
        ResponseCommand::Ask => 0,
    }
}

/// Why bytes could not be written or read as a message of the protocol.
#[derive(Clone, Copy, Debug, PartialEq, Eq, Structural)]
pub enum WireError {
    /// bincode refused to encode.
    Encode,
    /// bincode could not decode the bytes.
    Decode,
    /// An enum's variant index names no variant.
    UnexpectedVariant(u32),
}

/// A request read from the wire.
#[derive(Debug)]
pub struct RequestMessage {
    pub id: u64,
    pub command: RequestCommand,
    pub payload: Vec<u8>,
}

impl View for RequestMessage {
    type V = (u64, RequestCommand, Seq<u8>);

    open spec fn view(&self) -> (u64, RequestCommand, Seq<u8>) {
        (self.id, self.command, self.payload@)
    }
}

/// The outcome of a response: the encoded response of the actor, or its
/// encoded error.
#[derive(Debug)]
pub enum ResponsePayload {
    Success(Vec<u8>),
    Failure(Vec<u8>),
}

impl View for ResponsePayload {
    /// The variant index (0 for `Success`, 1 for `Failure`) and the encoded value.
    type V = (u32, Seq<u8>);

    open spec fn view(&self) -> (u32, Seq<u8>) {
        match self {
            ResponsePayload::Success(bytes) => (0, bytes@),
            ResponsePayload::Failure(bytes) => (1, bytes@),
        }
    }
}

/// The payload bytes of a request: the encoded message, or nothing.
pub open spec fn payload_bytes(payload: Option<&[u8]>) -> Seq<u8> {
    match payload {
        Some(bytes) => bytes@,
        None => Seq::empty(),
    }
}

/// The encoding of a request.
pub open spec fn request_wire(id: u64, command: RequestCommand, payload: Seq<u8>) -> Seq<u8> {
    wire_message(id, command_tag(command), payload)
}

/// The encoding of a response payload: its variant index, then the encoded value.
pub open spec fn response_payload_wire(payload: (u32, Seq<u8>)) -> Seq<u8> {
    varint_u32(payload.0) + payload.1
}

/// The encoding of a response.
pub open spec fn response_wire(id: u64, command: ResponseCommand, payload: (u32, Seq<u8>)) -> Seq<
    u8,
> {
    wire_message(id, response_command_tag(command), response_payload_wire(payload))
}

/// The fields of a decoded message, by their views.
pub open spec fn fields_view(fields: Option<(u64, u32, Vec<u8>)>) -> Option<(u64, u32, Seq<u8>)> {
    match fields {
        Some(f) => Some((f.0, f.1, f.2@)),
        None => None,
    }
}

/// The fields of the message at the start of the bytes, without the count of bytes
/// read.
pub open spec fn decoded_fields(data: Seq<u8>) -> Option<(u64, u32, Seq<u8>)> {
    match message_at(data) {
        Some(d) => Some((d.0, d.1, d.2)),
        None => None,
    }
}

/// The request that decoded fields make: the command must be a known variant.
pub open spec fn request_of_fields(fields: Option<(u64, u32, Seq<u8>)>) -> Result<
    (u64, RequestCommand, Seq<u8>),
    WireError,
> {
    match fields {
        None => Err(WireError::Decode),
        Some(f) => match command_of_tag(f.1) {
            Some(command) => Ok((f.0, command, f.2)),
            None => Err(WireError::UnexpectedVariant(f.1)),
        },
    }
}

/// The request that bytes hold. The id and the command are read first: a command
/// that names no variant is refused before the payload is read.
pub open spec fn decoded_request(data: Seq<u8>) -> Result<(u64, RequestCommand, Seq<u8>), WireError> {
    match message_head(data) {
        None => Err(WireError::Decode),
        Some(head) => match command_of_tag(head.1) {
            None => Err(WireError::UnexpectedVariant(head.1)),
            Some(_) => request_of_fields(decoded_fields(data)),
        },
    }
}

/// A request result, by the views of its values.
pub open spec fn request_result_view(r: Result<RequestMessage, WireError>) -> Result<
    (u64, RequestCommand, Seq<u8>),
    WireError,
> {
    match r {
        Ok(m) => Ok(m@),
        Err(e) => Err(e),
    }
}

/// The response payload that a decoded variant index and the payload's bytes
/// make: the value is what follows the index.
pub open spec fn payload_of_parts(variant: Option<(u32, nat)>, encoded: Seq<u8>) -> Result<
    (u32, Seq<u8>),
    WireError,
> {
    match variant {
        None => Err(WireError::Decode),
        Some(v) => if v.0 <= 1 {
            Ok((v.0, encoded.skip(v.1 as int)))
        } else {
            Err(WireError::UnexpectedVariant(v.0))
        },
    }
}

/// The response payload that bytes hold.
pub open spec fn decoded_response_payload(encoded: Seq<u8>) -> Result<(u32, Seq<u8>), WireError> {
    payload_of_parts(varint_u32_at(encoded, 0), encoded)
}

/// The response that decoded fields make: the command must be `Ask` and the
/// payload must decode.
pub open spec fn response_of_fields(fields: Option<(u64, u32, Seq<u8>)>) -> Result<
    (u64, ResponseCommand, (u32, Seq<u8>)),
    WireError,
> {
    match fields {
        None => Err(WireError::Decode),
        Some(f) => if f.1 != 0 {
            Err(WireError::UnexpectedVariant(f.1))
        } else {
            match decoded_response_payload(f.2) {
                Ok(p) => Ok((f.0, ResponseCommand::Ask, p)),
                Err(e) => Err(e),
            }
        },
    }
}

/// The response that bytes hold. The id and the command are read first: a command
/// other than `Ask` is refused before the payload is read.
pub open spec fn decoded_response(data: Seq<u8>) -> Result<
    (u64, ResponseCommand, (u32, Seq<u8>)),
    WireError,
> {
    match message_head(data) {
        None => Err(WireError::Decode),
        Some(head) => if head.1 != 0 {
            Err(WireError::UnexpectedVariant(head.1))
        } else {
            response_of_fields(decoded_fields(data))
        },
    }
}

/// Bytes that begin with a message hold the request that its fields make, whatever
/// its command index and whatever follows.
pub proof fn law_request_of_message(id: u64, tag: u32, payload: Seq<u8>, data: Seq<u8>)
    requires
        payload.len() <= u64::MAX,
        wire_message(id, tag, payload).is_prefix_of(data),
    ensures
        decoded_request(data) == request_of_fields(Some((id, tag, payload))),
{
    lemma_message_at_encoding(id, tag, payload, data);
}

/// Decoding an encoded request, followed by anything, gives the request back.
pub proof fn law_request_roundtrip(
    id: u64,
    command: RequestCommand,
    payload: Seq<u8>,
    rest: Seq<u8>,
)
    requires
        payload.len() <= u64::MAX,
    ensures
        decoded_request(request_wire(id, command, payload) + rest) == Ok::<_, WireError>(
            (id, command, payload),
        ),
{
    let data = request_wire(id, command, payload) + rest;
    assert(request_wire(id, command, payload).is_prefix_of(data)) by {
        assert(data.subrange(0, request_wire(id, command, payload).len() as int) =~= request_wire(
            id,
            command,
            payload,
        ));
    }
    law_request_of_message(id, command_tag(command), payload, data);
}

/// Decoding an encoded response payload gives the payload back.
pub proof fn law_response_payload_roundtrip(payload: (u32, Seq<u8>))
    requires
        payload.0 <= 1,
    ensures
        decoded_response_payload(response_payload_wire(payload)) == Ok::<_, WireError>(payload),
{
    let encoded = response_payload_wire(payload);
    let n = varint_u32(payload.0).len();
    assert(encoded.subrange(0, n as int) =~= varint_u32(payload.0));
    lemma_varint_u32_at_encoding(payload.0, encoded, 0);
    assert(encoded.skip(n as int) =~= payload.1);
}

/// Bytes that begin with a message hold the response that its fields make, whatever
/// its command index and whatever follows.
pub proof fn law_response_of_message(id: u64, tag: u32, payload: Seq<u8>, data: Seq<u8>)
    requires
        payload.len() <= u64::MAX,
        wire_message(id, tag, payload).is_prefix_of(data),
    ensures
        decoded_response(data) == response_of_fields(Some((id, tag, payload))),
{
    lemma_message_at_encoding(id, tag, payload, data);
}

/// Decoding an encoded response, followed by anything, gives the response back.
pub proof fn law_response_roundtrip(
    id: u64,
    command: ResponseCommand,
    payload: (u32, Seq<u8>),
    rest: Seq<u8>,
)
    requires
        payload.0 <= 1,
        response_payload_wire(payload).len() <= u64::MAX,
    ensures
        decoded_response(response_wire(id, command, payload) + rest) == Ok::<_, WireError>(
            (id, command, payload),
        ),
{
    let data = response_wire(id, command, payload) + rest;
    assert(response_wire(id, command, payload).is_prefix_of(data)) by {
        assert(data.subrange(0, response_wire(id, command, payload).len() as int)
            =~= response_wire(id, command, payload));
    }
    law_response_of_message(id, response_command_tag(command), response_payload_wire(payload), data);
    law_response_payload_roundtrip(payload);
    assert(command == ResponseCommand::Ask);
}

/// A response payload result, by views.
pub open spec fn payload_result_view(r: Result<ResponsePayload, WireError>) -> Result<
    (u32, Seq<u8>),
    WireError,
> {
    match r {
        Ok(p) => Ok(p@),
        Err(e) => Err(e),
    }
}

/// A response result, by views.
pub open spec fn response_result_view(
    r: Result<(u64, ResponseCommand, ResponsePayload), WireError>,
) -> Result<(u64, ResponseCommand, (u32, Seq<u8>)), WireError> {
    match r {
        Ok(m) => Ok((m.0, m.1, m.2@)),
        Err(e) => Err(e),
    }
}

/// Encodes a request whose message is already encoded (`None`: no message).
/// Encoding does not fail: the result is the encoding of the request.
pub fn request_serialize(id: u64, command: RequestCommand, payload: Option<&[u8]>) -> (r: Result<
    Vec<u8>,
    WireError,
>)
    ensures
        r is Ok,
        r->Ok_0@ == request_wire(id, command, payload_bytes(payload)),
{
    let empty: Vec<u8> = Vec::new();
    let bytes: &[u8] = match payload {
        Some(bytes) => bytes,
        None => empty.as_slice(),
    };
    match encode_message(id, command.tag(), bytes) {
        Ok(encoded) => Ok(encoded),
        Err(_) => Err(WireError::Encode),
    }
}

/// Turns the fields that bincode decoded (`None`: it failed) into a request.
pub fn request_from_fields(fields: Option<(u64, u32, Vec<u8>)>) -> (r: Result<
    RequestMessage,
    WireError,
>)
    ensures
        request_result_view(r) == request_of_fields(fields_view(fields)),
{
    match fields {
        None => Err(WireError::Decode),
        Some((id, tag, payload)) => {
            let command = if tag == 0 {
                RequestCommand::Send
            } else if tag == 1 {
                RequestCommand::Ask
            } else if tag == 2 {
                RequestCommand::State
            } else if tag == 3 {
                RequestCommand::Stop
            } else {
                return Err(WireError::UnexpectedVariant(tag));
            };
            Ok(RequestMessage { id, command, payload })
        },
    }
}

/// Decodes a request: its id and command first, then its payload. Bytes that
/// begin with a message give the request that its fields make; bytes that begin
/// with the encoding of a request give back that request.
pub fn request_deserialize_command(data: &[u8]) -> (r: Result<RequestMessage, WireError>)
    ensures
        request_result_view(r) == decoded_request(data@),
        forall|id: u64, tag: u32, payload: Seq<u8>|
            #![trigger wire_message(id, tag, payload)]
            payload.len() <= usize::MAX && wire_message(id, tag, payload).is_prefix_of(data@)
                ==> request_result_view(r) == request_of_fields(Some((id, tag, payload))),
        forall|id: u64, command: RequestCommand, payload: Seq<u8>|
            #![trigger request_wire(id, command, payload)]
            payload.len() <= usize::MAX && request_wire(id, command, payload).is_prefix_of(data@)
                ==> request_result_view(r) == Ok::<_, WireError>((id, command, payload)),
{
    let r = match read_message_head(data) {
        None => Err(WireError::Decode),
        Some((_, tag)) => {
            if tag > 3 {
                Err(WireError::UnexpectedVariant(tag))
            } else if !payload_fits(data) {
                Err(WireError::Decode)
            } else {
                let fields = match decode_message(data) {
                    Ok((fields, _)) => Some(fields),
                    Err(_) => None,
                };
                request_from_fields(fields)
            }
        },
    };
    assert forall|id: u64, tag: u32, payload: Seq<u8>|
        payload.len() <= usize::MAX && #[trigger] wire_message(id, tag, payload).is_prefix_of(
            data@,
        ) implies request_result_view(r) == request_of_fields(Some((id, tag, payload))) by {
        law_request_of_message(id, tag, payload, data@);
    }
    assert forall|id: u64, command: RequestCommand, payload: Seq<u8>|
        payload.len() <= usize::MAX && #[trigger] request_wire(id, command, payload).is_prefix_of(
            data@,
        ) implies request_result_view(r) == Ok::<_, WireError>((id, command, payload)) by {
        law_request_of_message(id, command_tag(command), payload, data@);
    }
    r
}

/// Encodes a response payload: its variant index, then the encoded value.
pub fn response_payload_serialize(payload: ResponsePayload) -> (r: Result<Vec<u8>, WireError>)
    ensures
        r is Ok,
        r->Ok_0@ == response_payload_wire(payload@),
{
    let (tag, mut value) = match payload {
        ResponsePayload::Success(value) => (0u32, value),
        ResponsePayload::Failure(value) => (1u32, value),
    };
    match encode_u32(tag) {
        Ok(mut encoded) => {
            encoded.append(&mut value);
            Ok(encoded)
        },
        Err(_) => Err(WireError::Encode),
    }
}

/// Encodes a response. Encoding does not fail: the result is the encoding of the
/// response.
pub fn response_serialize(id: u64, command: ResponseCommand, payload: ResponsePayload) -> (r:
    Result<Vec<u8>, WireError>)
    ensures
        r is Ok,
        r->Ok_0@ == response_wire(id, command, payload@),
{
    let encoded_payload = match response_payload_serialize(payload) {
        Ok(bytes) => bytes,
        Err(e) => return Err(e),
    };
    let tag: u32 = match command {
        ResponseCommand::Ask => 0,
    };
    match encode_message(id, tag, encoded_payload.as_slice()) {
        Ok(encoded) => Ok(encoded),
        Err(_) => Err(WireError::Encode),
    }
}

/// Turns the variant index that bincode decoded from a response payload, with the
/// count of bytes it read (`None`: it failed), into the payload: the value is
/// what follows the index.
pub fn response_payload_from_parts(variant: Option<(u32, usize)>, encoded: &[u8]) -> (r: Result<
    ResponsePayload,
    WireError,
>)
    requires
        variant is Some ==> variant->Some_0.1 <= encoded.len(),
    ensures
        payload_result_view(r) == payload_of_parts(
            match variant {
                Some(v) => Some((v.0, v.1 as nat)),
                None => None,
            },
            encoded@,
        ),
{
    match variant {
        None => Err(WireError::Decode),
        Some((tag, read)) => {
            if tag <= 1 {
                let value = slice_to_vec(slice_subrange(encoded, read, encoded.len()));
                if tag == 0 {
                    Ok(ResponsePayload::Success(value))
                } else {
                    Ok(ResponsePayload::Failure(value))
                }
            } else {
                Err(WireError::UnexpectedVariant(tag))
            }
        },
    }
}

/// Decodes a response payload. The encoding of a payload gives back that payload.
pub fn response_payload_deserialize(encoded: &[u8]) -> (r: Result<ResponsePayload, WireError>)
    ensures
        payload_result_view(r) == decoded_response_payload(encoded@),
        forall|payload: (u32, Seq<u8>)|
            #![trigger response_payload_wire(payload)]
            payload.0 <= 1 && response_payload_wire(payload) == encoded@ ==> payload_result_view(r)
                == Ok::<_, WireError>(payload),
{
    let decoded = decode_u32(encoded);
    let variant = match decoded {
        Ok((tag, read)) => Some((tag, read)),
        Err(_) => None,
    };
    let r = response_payload_from_parts(variant, encoded);
    assert forall|payload: (u32, Seq<u8>)|
        payload.0 <= 1 && #[trigger] response_payload_wire(payload) == encoded@ implies payload_result_view(r)
        == Ok::<_, WireError>(payload) by {
        law_response_payload_roundtrip(payload);
    }
    r
}

/// Turns the fields that bincode decoded from a response (`None`: it failed) into
/// the response.
pub fn response_from_fields(fields: Option<(u64, u32, Vec<u8>)>) -> (r: Result<
    (u64, ResponseCommand, ResponsePayload),
    WireError,
>)
    ensures
        response_result_view(r) == response_of_fields(fields_view(fields)),
        forall|payload: (u32, Seq<u8>)|
            #![trigger response_payload_wire(payload)]
            payload.0 <= 1 && fields is Some && fields->Some_0.1 == 0 && fields->Some_0.2@
                == response_payload_wire(payload) ==> response_result_view(r) == Ok::<
                _,
                WireError,
            >((fields->Some_0.0, ResponseCommand::Ask, payload)),
{
    match fields {
        None => Err(WireError::Decode),
        Some((id, tag, payload)) => {
            if tag != 0 {
                return Err(WireError::UnexpectedVariant(tag));
            }
            match response_payload_deserialize(payload.as_slice()) {
                Ok(p) => Ok((id, ResponseCommand::Ask, p)),
                Err(e) => Err(e),
            }
        },
    }
}

/// Decodes a response: its id and command first, then its payload. Bytes that
/// begin with a message give the response that its fields make; bytes that begin
/// with the encoding of a response give back that response.
pub fn response_deserialize(data: &[u8]) -> (r: Result<
    (u64, ResponseCommand, ResponsePayload),
    WireError,
>)
    ensures
        response_result_view(r) == decoded_response(data@),
        forall|id: u64, tag: u32, payload: Seq<u8>|
            #![trigger wire_message(id, tag, payload)]
            payload.len() <= usize::MAX && wire_message(id, tag, payload).is_prefix_of(data@)
                ==> response_result_view(r) == response_of_fields(Some((id, tag, payload))),
        forall|id: u64, command: ResponseCommand, payload: (u32, Seq<u8>)|
            #![trigger response_wire(id, command, payload)]
            payload.0 <= 1 && response_payload_wire(payload).len() <= usize::MAX && response_wire(
                id,
                command,
                payload,
            ).is_prefix_of(data@) ==> response_result_view(r) == Ok::<_, WireError>(
                (id, command, payload),
            ),
{
    let r = match read_message_head(data) {
        None => Err(WireError::Decode),
        Some((_, tag)) => {
            if tag != 0 {
                Err(WireError::UnexpectedVariant(tag))
            } else if !payload_fits(data) {
                Err(WireError::Decode)
            } else {
                let fields = match decode_message(data) {
                    Ok((fields, _)) => Some(fields),
                    Err(_) => None,
                };
                response_from_fields(fields)
            }
        },
    };
    assert forall|id: u64, tag: u32, payload: Seq<u8>|
        payload.len() <= usize::MAX && #[trigger] wire_message(id, tag, payload).is_prefix_of(
            data@,
        ) implies response_result_view(r) == response_of_fields(Some((id, tag, payload))) by {
        law_response_of_message(id, tag, payload, data@);
    }
    assert forall|id: u64, command: ResponseCommand, payload: (u32, Seq<u8>)|
        payload.0 <= 1 && response_payload_wire(payload).len() <= usize::MAX
            && #[trigger] response_wire(id, command, payload).is_prefix_of(
            data@,
        ) implies response_result_view(r) == Ok::<_, WireError>((id, command, payload)) by {
        law_response_of_message(
            id,
            response_command_tag(command),
            response_payload_wire(payload),
            data@,
        );
        law_response_payload_roundtrip(payload);
        assert(command == ResponseCommand::Ask);
    }
    r
}

} // verus!
