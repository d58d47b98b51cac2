# rpc_ipc

An RPC-over-IPC library. An enum describes the remote calls (`Packet`); the
`RpcService` and `RpcClient` derives turn it into the wire types (`Message`,
`Origin`, `Req`, `Res`, `Payload`, the error types) and into a service trait and a
client trait with one method per call. Messages travel bincode-encoded over a Unix
socket.

## Layout

- `src/` — the verified library (Verus):
  - `protocol.rs`: the wire types for `Packet` and the client's request builder;
  - `request_ids.rs`: the pool of request identifiers (fresh counter, released ids);
  - `session.rs`: what a client and a service connection do with each message;
  - `commands.rs`: the prompt commands of the client and the service programs;
  - `attrs.rs`, `naming.rs`, `rpc_types.rs`, `payload.rs`, `rpc_traits.rs`: the schema
    computation behind the derives (attributes, names, shared types, `Req`/`Res`
    enums, service and client traits), down to the text of the code they emit;
  - `text.rs`: character and text helpers, including the UUID text.
- `app/` — plain Rust around it: the bincode codec, the token plumbing of the
  derives (reading the enum with `syn`, reading the emitted code back as tokens), and the client (threads, `crossbeam`) and service (`tokio`)
  programs.
- `tests/` — tests of the library on concrete values.
