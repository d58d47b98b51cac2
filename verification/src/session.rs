//! The decisions that a client and a service connection take on each message they
//! receive; the channels, sockets and printing around them are the caller's.
use vstd::prelude::*;
use vstd::string::StringExecFns;

use crate::protocol::{new_error, Message, Origin, Payload, Req, Res, TestRPCError, TestRPCErrorKind};
use crate::request_ids::{
    hands_out, lemma_answered_request_frees_its_id, release_id, takes_back, IdPoolView, RequestIds,
};
use crate::text::{uuid_hyphenated, uuid_text};

verus! {

/// A client's answer `step` to `message`, with its identifier pool going from `pre`
/// to `post`: a request from the service gets a reply under the same identifier and
/// origin, an `Unreachable` error, and the pool is untouched; a response is shown, and
/// when it answers a request of the client its identifier goes back to the pool.
pub open spec fn client_handles(pre: IdPoolView, post: IdPoolView, message: Message, step: ClientStep) -> bool {
    match message.payload {
        Payload::Request(_) => {
            &&& step matches ClientStep::Reply(r) && {
                &&& r.id == message.id
                &&& r.origin == message.origin
                &&& r.payload matches Payload::Response(Res::Error(e)) && e@ == new_error(
                    TestRPCErrorKind::Unreachable,
                )
            }
            &&& post == pre
        },
        Payload::Response(res) => {
            &&& step == ClientStep::Report(res)
            &&& message.origin == Origin::Client ==> takes_back(pre, post, message.id)
            &&& message.origin == Origin::Service ==> post == pre
        },
    }
}

/// What a client does with a message it received.
#[derive(Debug)]
pub enum ClientStep {
    /// Send this message back to the service.
    Reply(Message),
    /// Show this response to the user.
    Report(Res),
}

/// A client's answer to a message: a request from the service gets a reply under the
/// same identifier and origin, an `Unreachable` error since the client handles no call
/// of the definition; a response is shown, and when it answers a request of the
/// client its identifier goes back to the pool.
pub fn client_on_message(ids: &mut RequestIds, message: Message) -> (step: ClientStep)
    ensures
        client_handles(old(ids)@, final(ids)@, message, step),
{
    let Message { id, origin, payload } = message;
    match payload {
        Payload::Request(_) => {
            let response = Res::Error(TestRPCError::new(TestRPCErrorKind::Unreachable));
            ClientStep::Reply(Message { id, origin, payload: Payload::Response(response) })
        },
        Payload::Response(res) => {
            if origin == Origin::Client {
                release_id(ids, id);
            }
            ClientStep::Report(res)
        },
    }
}

/// The text of the answer to a `Message` call on the connection `id`.
pub open spec fn message_answer(id: u128, msg: Seq<char>) -> Seq<char> {
    "client: "@ + uuid_hyphenated(id) + " | msg: "@ + msg
}

/// A service connection's answer `step` to `message` on the connection `id`: a
/// request is answered under the same identifier and origin, with the text that names
/// the connection and repeats the message; a response is unexpected.
pub open spec fn service_handles(id: u128, message: Message, step: ServiceStep) -> bool {
    match message.payload {
        Payload::Request(Req::Message(n, _, msg)) => step matches ServiceStep::Reply(r) && {
            &&& r.id == message.id
            &&& r.origin == message.origin
            &&& r.payload matches Payload::Response(Res::Message(m, c, text)) && m == n && c is None
                && text@ == message_answer(id, msg@)
        },
        Payload::Response(res) => step == ServiceStep::Unexpected(res),
    }
}

/// A call makes the round trip: a request that a client sends with a fresh identifier
/// from a pool with nothing released, answered by a service connection and handled by
/// the client, comes back to the client as the answer to its call, and its identifier
/// is then the only released one and the next one handed out.
pub proof fn lemma_call_round_trip(
    connection: u128,
    p0: IdPoolView,
    p1: IdPoolView,
    p2: IdPoolView,
    p3: IdPoolView,
    request: Message,
    answer: ServiceStep,
    shown: ClientStep,
    next: u32,
)
    requires
        p0.released.is_empty(),
        hands_out(p0, p1, request.id),
        request.origin == Origin::Client,
        request.payload is Request,
        service_handles(connection, request, answer),
        answer matches ServiceStep::Reply(reply) && client_handles(p1, p2, reply, shown),
        hands_out(p2, p3, next),
    ensures
        match request.payload {
            Payload::Request(Req::Message(n, _, msg)) => shown matches ClientStep::Report(
                Res::Message(m, _, text),
            ) && m == n && text@ == message_answer(connection, msg@),
            _ => false,
        },
        p2.released == Set::<u32>::empty().insert(request.id),
        next == request.id,
{
    lemma_answered_request_frees_its_id(p0, p1, p2, p3, request.id, next);
}

/// The service side of one client connection, known by its UUID (as a 128-bit value).
pub struct ServiceSession {
    pub id: u128,
}

/// What a service connection does with a message it received.
#[derive(Debug)]
pub enum ServiceStep {
    /// Send this message back to the client.
    Reply(Message),
    /// A response that the service did not expect; it is only reported.
    Unexpected(Res),
}

/// What a service connection does with the bytes of one read.
#[derive(Debug)]
pub enum Inbound {
    /// The bytes held this message; it goes on to the connection's handler.
    Forward(Message),
    /// The bytes held no message; this error goes back to the client.
    Reject(Message),
}

impl ServiceSession {
    /// The session of the connection with UUID value `id`.
    pub fn new(id: u128) -> (s: Self)
        ensures
            s.id == id,
    {
        ServiceSession { id }
    }

    /// Handles the `Message` call: the answer names the connection and repeats the
    /// message text; it keeps the number and carries no client.
    pub fn handle_message_request(&self, arg0: u32, arg1: Option<String>, arg2: String) -> (r: Res)
        ensures
            r matches Res::Message(n, c, text) && n == arg0 && c is None && text@ == message_answer(
                self.id,
                arg2@,
            ),
    {
        let mut text = String::from_str("client: ");
        let id_text = uuid_text(self.id);
        text.append(id_text.as_str());
        text.append(" | msg: ");
        text.append(arg2.as_str());
        Res::Message(arg0, None, text)
    }

    /// Answers a request by the call it makes.
    pub fn on_request_payload(&self, payload: Req) -> (r: Res)
        ensures
            match payload {
                Req::Message(n, _, msg) => r matches Res::Message(m, c, text) && m == n && c is None
                    && text@ == message_answer(self.id, msg@),
            },
    {
        match payload {
            Req::Message(n, client, msg) => self.handle_message_request(n, client, msg),
        }
    }

    /// A service connection's answer to a message: a request is answered under the same
    /// identifier and origin, with the client field of the call cleared before the call
    /// is handled; a response is unexpected, since the service makes no call.
    pub fn on_message(&self, message: Message) -> (step: ServiceStep)
        ensures
            service_handles(self.id, message, step),
    {
        let Message { id, origin, payload } = message;
        match payload {
            Payload::Request(req) => {
                let req = match req {
                    Req::Message(n, _, msg) => Req::Message(n, None, msg),
                };
                let response = self.on_request_payload(req);
                ServiceStep::Reply(Message { id, origin, payload: Payload::Response(response) })
            },
            Payload::Response(res) => ServiceStep::Unexpected(res),
        }
    }
}

/// What a service connection does with one read from its socket, given what decoding
/// the bytes gave: a message goes on; undecodable bytes are answered with an
/// `InvalidArgument` error, under identifier 0 and the client as origin.
pub fn on_inbound(decoded: Option<Message>) -> (action: Inbound)
    ensures
        match decoded {
            Some(m) => action == Inbound::Forward(m),
            None => action matches Inbound::Reject(r) && {
                &&& r.id == 0
                &&& r.origin == Origin::Client
                &&& r.payload matches Payload::Response(Res::Error(e)) && e@ == new_error(
                    TestRPCErrorKind::InvalidArgument,
                )
            },
        },
{
    match decoded {
        Some(m) => Inbound::Forward(m),
        None => Inbound::Reject(
            Message {
                id: 0,
                origin: Origin::Client,
                payload: Payload::Response(
                    Res::Error(TestRPCError::new(TestRPCErrorKind::InvalidArgument)),
                ),
            },
        ),
    }
}

} // verus!
