//! The wire types that `#[derive(RpcService, RpcClient)]` produces for [`Packet`]:
//! a [`Message`] carries an identifier, the side that started the exchange and a
//! request or a response.
//!
//! [`Packet`]: crate::Packet
use vstd::prelude::*;
use vstd::string::StringExecFns;

use crate::request_ids::{hands_out, RequestIds};

verus! {

/// The side that started an exchange.
#[derive(PartialEq, Eq, Structural, Clone, Copy, Debug)]
pub enum Origin {
    Service,
    Client,
}

/// The kinds of error that a call can answer with.
#[derive(PartialEq, Eq, Structural, Clone, Copy, Debug)]
pub enum TestRPCErrorKind {
    Timeout,
    InvalidArgument,
    PermissionDenied,
    NotFound,
    Unimplemented,
    Unreachable,
    Internal,
}

/// The text of an error kind: its name.
pub open spec fn kind_text(k: TestRPCErrorKind) -> Seq<char> {
    match k {
        TestRPCErrorKind::Timeout => "Timeout"@,
        TestRPCErrorKind::InvalidArgument => "InvalidArgument"@,
        TestRPCErrorKind::PermissionDenied => "PermissionDenied"@,
        TestRPCErrorKind::NotFound => "NotFound"@,
        TestRPCErrorKind::Unimplemented => "Unimplemented"@,
        TestRPCErrorKind::Unreachable => "Unreachable"@,
        TestRPCErrorKind::Internal => "Internal"@,
    }
}

impl TestRPCErrorKind {
    /// The kind's name, as its `Display` writes it.
    pub fn to_string(&self) -> (s: String)
        ensures
            s@ == kind_text(*self),
    {
        match self {
            TestRPCErrorKind::Timeout => String::from_str("Timeout"),
            TestRPCErrorKind::InvalidArgument => String::from_str("InvalidArgument"),
            TestRPCErrorKind::PermissionDenied => String::from_str("PermissionDenied"),
            TestRPCErrorKind::NotFound => String::from_str("NotFound"),
            TestRPCErrorKind::Unimplemented => String::from_str("Unimplemented"),
            TestRPCErrorKind::Unreachable => String::from_str("Unreachable"),
            TestRPCErrorKind::Internal => String::from_str("Internal"),
        }
    }
}

/// An error answer: its kind and a description.
#[derive(Debug)]
pub struct TestRPCError {
    error: TestRPCErrorKind,
    description: String,
}

/// The abstract value of a [`TestRPCError`].
pub struct TestRPCErrorView {
    pub kind: TestRPCErrorKind,
    pub description: Seq<char>,
}

impl View for TestRPCError {
    type V = TestRPCErrorView;

    closed spec fn view(&self) -> TestRPCErrorView {
        TestRPCErrorView { kind: self.error, description: self.description@ }
    }
}

/// A fresh error of kind `k`: its description is the kind's name.
pub open spec fn new_error(k: TestRPCErrorKind) -> TestRPCErrorView {
    TestRPCErrorView { kind: k, description: kind_text(k) }
}

impl TestRPCError {
    /// An error of kind `error`, described by the kind's name.
    pub fn new(error: TestRPCErrorKind) -> (e: Self)
        ensures
            e@ == new_error(error),
    {
        TestRPCError { description: error.to_string(), error }
    }

    /// Replaces the description.
    pub fn set_description(&mut self, description: String)
        ensures
            final(self)@ == (TestRPCErrorView { kind: old(self)@.kind, description: description@ }),
    {
        self.description = description;
    }

    /// The kind of the error.
    pub fn kind(&self) -> (k: TestRPCErrorKind)
        ensures
            k == self@.kind,
    {
        self.error
    }

    /// The description of the error.
    pub fn description(&self) -> (d: &String)
        ensures
            d@ == self@.description,
    {
        &self.description
    }

    /// The error's text, as its `Display` writes it: the kind's name.
    pub fn to_string(&self) -> (s: String)
        ensures
            s@ == kind_text(self@.kind),
    {
        self.error.to_string()
    }
}

/// The calls of [`crate::Packet`].
#[derive(Debug)]
pub enum Req {
    Message(u32, Option<String>, String),
}

/// The responses: one per call, and an error.
#[derive(Debug)]
pub enum Res {
    Message(u32, Option<String>, String),
    Error(TestRPCError),
}

/// What a message carries.
#[derive(Debug)]
pub enum Payload {
    Request(Req),
    Response(Res),
}

/// One message on the wire.
#[derive(Debug)]
pub struct Message {
    /// The identifier of the exchange, chosen by the side that started it.
    pub id: u32,
    pub origin: Origin,
    pub payload: Payload,
}

/// The request for the `Message` call under the identifier `id`, with the client as
/// origin.
pub fn message_with_id(id: u32, arg0: u32, arg1: Option<String>, arg2: String) -> (m: Message)
    ensures
        m.id == id,
        m.origin == Origin::Client,
        m.payload == Payload::Request(Req::Message(arg0, arg1, arg2)),
{
    Message { id, origin: Origin::Client, payload: Payload::Request(Req::Message(arg0, arg1, arg2)) }
}

/// The request that a client sends for the `Message` call: it takes a fresh
/// identifier from the client's pool and marks the client as the origin.
pub fn message(ids: &mut RequestIds, arg0: u32, arg1: Option<String>, arg2: String) -> (m: Message)
    ensures
        hands_out(old(ids)@, final(ids)@, m.id),
        m.origin == Origin::Client,
        m.payload == Payload::Request(Req::Message(arg0, arg1, arg2)),
{
    message_with_id(ids.generate_request_id(), arg0, arg1, arg2)
}

} // verus!
