//! The decisions of an actor client: the ids it gives its requests, the asks that
//! wait for an answer, and what it does with each frame it reads.
//!
//! A client numbers its requests from 1 up. An ask waits under its id, holding
//! whatever the caller needs to hand the answer on (`P`); a response frame hands
//! that back and ends the wait.
use crate::frame::{encode_frame, frame};
use crate::protocol::{
    decoded_response, law_response_roundtrip, request_serialize, request_wire, response_deserialize, response_wire,
    response_payload_wire, RequestCommand, ResponseCommand, ResponsePayload, WireError,
};
use std::collections::HashMap;
use vstd::prelude::*;

verus! {

/// The client's model: the id of its last request and the asks that wait, by id.
pub type ClientModel<P> = (u64, Map<u64, P>);

/// The model after a request is given the next id.
pub open spec fn issued<P>(s: ClientModel<P>) -> ClientModel<P> {
    ((s.0 + 1) as u64, s.1)
}

/// The model after an ask starts to wait under `id`.
pub open spec fn registered<P>(s: ClientModel<P>, id: u64, promise: P) -> ClientModel<P> {
    (s.0, s.1.insert(id, promise))
}

/// The model after the ask under `id` has its answer.
pub open spec fn answered<P>(s: ClientModel<P>, id: u64) -> ClientModel<P> {
    (s.0, s.1.remove(id))
}

/// The model after the client stops: no ask waits any longer.
pub open spec fn stopped<P>(s: ClientModel<P>) -> ClientModel<P> {
    (s.0, Map::empty())
}

/// What the client does with a frame it read.
pub enum ClientStep<P> {
    /// The frame is empty: the connection is over.
    Closed,
    /// The answer to a waiting ask: what it waited with, and the response.
    Answer { promise: P, payload: ResponsePayload },
    /// The frame holds no response.
    Malformed(WireError),
    /// The response answers no waiting ask.
    UnknownRequest(u64),
}

/// A client step by the views of its values.
pub enum ClientStepView<P> {
    Closed,
    Answer(P, (u32, Seq<u8>)),
    Malformed(WireError),
    UnknownRequest(u64),
}

impl<P> View for ClientStep<P> {
    type V = ClientStepView<P>;

    open spec fn view(&self) -> ClientStepView<P> {
        match self {
            ClientStep::Closed => ClientStepView::Closed,
            ClientStep::Answer { promise, payload } => ClientStepView::Answer(*promise, payload@),
            ClientStep::Malformed(e) => ClientStepView::Malformed(*e),
            ClientStep::UnknownRequest(id) => ClientStepView::UnknownRequest(*id),
        }
    }
}

/// The step that a frame body makes from a model.
pub open spec fn client_step<P>(s: ClientModel<P>, body: Seq<u8>) -> (ClientStepView<P>, ClientModel<
    P,
>) {
    if body.len() == 0 {
        (ClientStepView::Closed, s)
    } else {
        match decoded_response(body) {
            Err(e) => (ClientStepView::Malformed(e), s),
            Ok(r) => if s.1.contains_key(r.0) {
                (ClientStepView::Answer(s.1[r.0], r.2), answered(s, r.0))
            } else {
                (ClientStepView::UnknownRequest(r.0), s)
            },
        }
    }
}

/// The state of an actor client.
pub struct ClientState<P> {
    counter: u64,
    promise: HashMap<u64, P>,
}

impl<P> View for ClientState<P> {
    type V = ClientModel<P>;

    closed spec fn view(&self) -> ClientModel<P> {
        (self.counter, self.promise@)
    }
}

impl<P> ClientState<P> {
    /// A client that has sent nothing: no id given, no ask waiting.
    pub fn new() -> (s: Self)
        ensures
            s@ == (0u64, Map::<u64, P>::empty()),
    {
        ClientState { counter: 0, promise: HashMap::new() }
    }

    /// The id of the last request.
    pub fn counter(&self) -> (n: u64)
        ensures
            n == self@.0,
    {
        self.counter
    }

    /// Whether an ask waits under `id`.
    pub fn is_pending(&self, id: u64) -> (b: bool)
        ensures
            b == self@.1.contains_key(id),
    {
        self.promise.contains_key(&id)
    }

    /// The number of asks that wait.
    pub fn pending_len(&self) -> (n: usize)
        ensures
            n == self@.1.len(),
    {
        proof {
            vstd::std_specs::hash::axiom_hashmap_view_finite_dom(self.promise);
        }
        self.promise.len()
    }

    /// Takes the id of the next request: one more than the last.
    pub fn next_id(&mut self) -> (id: u64)
        requires
            old(self)@.0 < u64::MAX,
        ensures
            final(self)@ == issued(old(self)@),
            id == old(self)@.0 + 1,
            id == final(self)@.0,
    {
        self.counter = self.counter + 1;
        self.counter
    }

    /// Lets an ask wait under `id`, with what will take its answer. An ask that
    /// waited under the same id is forgotten.
    pub fn register(&mut self, id: u64, promise: P)
        ensures
            final(self)@ == registered(old(self)@, id, promise),
    {
        self.promise.insert(id, promise);
    }

    /// Handles the body of a frame that the client read: an empty body ends the
    /// connection; a response to a waiting ask ends the wait and hands the ask's
    /// promise back with the response; anything else leaves the state as it was.
    pub fn on_frame(&mut self, body: &[u8]) -> (step: ClientStep<P>)
        ensures
            (step@, final(self)@) == client_step(old(self)@, body@),
            forall|id: u64, payload: (u32, Seq<u8>)|
                #![trigger response_wire(id, ResponseCommand::Ask, payload)]
                payload.0 <= 1 && response_payload_wire(payload).len() <= usize::MAX
                    && response_wire(id, ResponseCommand::Ask, payload).is_prefix_of(body@)
                    && old(self)@.1.contains_key(id) ==> step@ == ClientStepView::Answer(
                    old(self)@.1[id],
                    payload,
                ) && final(self)@ == answered(old(self)@, id),
    {
        if body.len() == 0 {
            return ClientStep::Closed;
        }
        match response_deserialize(body) {
            Err(e) => ClientStep::Malformed(e),
            Ok((id, _, payload)) => match self.promise.remove(&id) {
                Some(promise) => ClientStep::Answer { promise, payload },
                None => ClientStep::UnknownRequest(id),
            },
        }
    }

    /// Forgets every waiting ask, as a stopping client does.
    pub fn clear(&mut self)
        ensures
            final(self)@ == stopped(old(self)@),
    {
        self.promise.clear();
    }
}

/// Frames the request `id` with `message` (an encoded message) as its payload.
/// Encoding does not fail: the result is the frame of the request's encoding.
pub fn request_frame(id: u64, command: RequestCommand, message: &[u8]) -> (r: Result<
    Vec<u8>,
    WireError,
>)
    ensures
        r is Ok,
        r->Ok_0@ == frame(request_wire(id, command, message@)),
{
    let encoded = request_serialize(id, command, Some(message))?;
    Ok(encode_frame(encoded.as_slice()))
}

/// The model after `n` requests, one after the other, have taken their ids.
pub open spec fn issued_times<P>(s: ClientModel<P>, n: nat) -> ClientModel<P>
    decreases n,
{
    if n == 0 {
        s
    } else {
        issued(issued_times(s, (n - 1) as nat))
    }
}

proof fn lemma_issued_times<P>(s: ClientModel<P>, n: nat)
    requires
        s.0 + n <= u64::MAX,
    ensures
        issued_times(s, n) == ((s.0 + n) as u64, s.1),
    decreases n,
{
    if n > 0 {
        lemma_issued_times(s, (n - 1) as nat);
    }
}

/// Of `n` requests made one after the other, the `i`-th (from 1) takes the id
/// `i` more than the last id before them, so a fresh client's requests take the
/// ids `1..=n`. No two of them take the same id, and taking ids leaves the waiting
/// asks as they were.
pub proof fn law_ids_count_up<P>(s: ClientModel<P>, n: nat)
    requires
        s.0 + n <= u64::MAX,
    ensures
        forall|i: nat| 1 <= i <= n ==> #[trigger] issued_times(s, i).0 == s.0 + i,
        forall|i: nat, j: nat|
            1 <= i < j <= n ==> #[trigger] issued_times(s, i).0 != #[trigger] issued_times(s, j).0,
        issued_times(s, n).1 == s.1,
{
    assert forall|i: nat| 1 <= i <= n implies #[trigger] issued_times(s, i).0 == s.0 + i by {
        lemma_issued_times(s, i);
    }
    assert forall|i: nat, j: nat| 1 <= i < j <= n implies #[trigger] issued_times(s, i).0
        != #[trigger] issued_times(s, j).0 by {
        lemma_issued_times(s, i);
        lemma_issued_times(s, j);
    }
    lemma_issued_times(s, n);
}

/// Answering an ask that was registered gives back what it was registered with,
/// and leaves the other asks as they were before it was registered.
pub proof fn law_answer_after_register<P>(s: ClientModel<P>, id: u64, promise: P)
    ensures
        registered(s, id, promise).1.contains_key(id),
        registered(s, id, promise).1[id] == promise,
        answered(registered(s, id, promise), id) == answered(s, id),
{
    assert(answered(registered(s, id, promise), id).1 =~= answered(s, id).1);
}

/// The response to an ask, read by the client, reaches the ask that waits under the
/// response's id: the client hands over what that ask registered with, with the
/// response unchanged, and that ask alone stops waiting.
pub proof fn law_answer_reaches_ask<P>(
    s: ClientModel<P>,
    id: u64,
    promise: P,
    payload: (u32, Seq<u8>),
    rest: Seq<u8>,
)
    requires
        payload.0 <= 1,
        response_payload_wire(payload).len() <= u64::MAX,
    ensures
        client_step(registered(s, id, promise), response_wire(id, ResponseCommand::Ask, payload) + rest)
            == (ClientStepView::Answer(promise, payload), answered(s, id)),
{
    law_response_roundtrip(id, ResponseCommand::Ask, payload, rest);
    law_answer_after_register(s, id, promise);
}

/// Answering one ask leaves every other waiting ask waiting, with what it waited with.
pub proof fn law_answer_keeps_others<P>(s: ClientModel<P>, id: u64, other: u64)
    requires
        other != id,
        s.1.contains_key(other),
    ensures
        answered(s, id).1.contains_key(other),
        answered(s, id).1[other] == s.1[other],
        answered(s, id).0 == s.0,
{
}

/// After a stop no ask waits, so no response is answered any longer.
pub proof fn law_stop_forgets_asks<P>(s: ClientModel<P>, body: Seq<u8>)
    ensures
        stopped(s).1.is_empty(),
        client_step(stopped(s), body).1 == stopped(s),
        !(client_step(stopped(s), body).0 is Answer),
{
}

} // verus!
