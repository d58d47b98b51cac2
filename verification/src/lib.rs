//! A small RPC-over-IPC library: the wire types that the RPC derives produce for
//! [`Packet`], the request-identifier pool of a client, the decisions that a client
//! and a service connection take on each message, and the schema computation behind
//! the `RpcService` / `RpcClient` derives.
use vstd::prelude::*;

pub mod protocol;
pub mod request_ids;
pub mod session;
pub mod text;
pub mod naming;
pub mod attrs;
pub mod commands;
pub mod rpc_types;
pub mod payload;
pub mod rpc_traits;

verus! {

/// The RPC definition of this crate: each variant is a remote call.
pub enum Packet {
    Message(u32, Option<String>, String),
}

} // verus!
