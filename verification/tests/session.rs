use rpc_ipc::protocol::{
    Message, Origin, Payload, Req, Res, TestRPCError, TestRPCErrorKind,
};
use rpc_ipc::request_ids::RequestIds;
use rpc_ipc::session::{client_on_message, on_inbound, ClientStep, Inbound, ServiceSession, ServiceStep};

fn response(id: u32, origin: Origin) -> Message {
    Message {
        id,
        origin,
        payload: Payload::Response(Res::Message(1, None, "done".to_string())),
    }
}

#[test]
fn client_answers_requests_with_unreachable() {
    let mut ids = RequestIds::new();
    let m = Message {
        id: 42,
        origin: Origin::Service,
        payload: Payload::Request(Req::Message(3, None, "x".to_string())),
    };
    match client_on_message(&mut ids, m) {
        ClientStep::Reply(r) => {
            assert_eq!(r.id, 42);
            assert_eq!(r.origin, Origin::Service);
            match r.payload {
                Payload::Response(Res::Error(e)) => {
                    assert_eq!(e.kind(), TestRPCErrorKind::Unreachable);
                    assert_eq!(e.description(), "Unreachable");
                }
                other => panic!("unexpected payload {other:?}"),
            }
        }
        other => panic!("unexpected step {other:?}"),
    }
    assert_eq!(ids.generate_request_id(), 1);
}

#[test]
fn client_response_to_own_request_releases_its_id() {
    let mut ids = RequestIds::new();
    let a = ids.generate_request_id();
    let b = ids.generate_request_id();
    assert_eq!((a, b), (1, 2));
    match client_on_message(&mut ids, response(1, Origin::Client)) {
        ClientStep::Report(Res::Message(n, _, text)) => {
            assert_eq!(n, 1);
            assert_eq!(text, "done");
        }
        other => panic!("unexpected step {other:?}"),
    }
    assert_eq!(ids.generate_request_id(), 1);
    assert_eq!(ids.generate_request_id(), 3);
}

#[test]
fn client_response_to_service_request_keeps_pool() {
    let mut ids = RequestIds::new();
    assert_eq!(ids.generate_request_id(), 1);
    let step = client_on_message(&mut ids, response(1, Origin::Service));
    assert!(matches!(step, ClientStep::Report(_)));
    assert_eq!(ids.generate_request_id(), 2);
}

#[test]
fn service_answers_message_call_with_connection_id() {
    let session = ServiceSession::new(0xa1a2a3a4b1b2c1c2d1d2d3d4d5d6d7d8);
    let res = session.handle_message_request(7, Some("someone".to_string()), "hi".to_string());
    match res {
        Res::Message(n, c, text) => {
            assert_eq!(n, 7);
            assert_eq!(c, None);
            assert_eq!(text, "client: a1a2a3a4-b1b2-c1c2-d1d2-d3d4d5d6d7d8 | msg: hi");
        }
        other => panic!("unexpected response {other:?}"),
    }
}

#[test]
fn service_replies_under_the_request_id() {
    let session = ServiceSession::new(0);
    let m = Message {
        id: 5,
        origin: Origin::Client,
        payload: Payload::Request(Req::Message(8, Some("c".to_string()), "ping".to_string())),
    };
    match session.on_message(m) {
        ServiceStep::Reply(r) => {
            assert_eq!(r.id, 5);
            assert_eq!(r.origin, Origin::Client);
            match r.payload {
                Payload::Response(Res::Message(n, c, text)) => {
                    assert_eq!(n, 8);
                    assert_eq!(c, None);
                    assert_eq!(
                        text,
                        "client: 00000000-0000-0000-0000-000000000000 | msg: ping"
                    );
                }
                other => panic!("unexpected payload {other:?}"),
            }
        }
        other => panic!("unexpected step {other:?}"),
    }
}

#[test]
fn service_reports_responses_as_unexpected() {
    let session = ServiceSession::new(1);
    let step = session.on_message(response(3, Origin::Service));
    assert!(matches!(step, ServiceStep::Unexpected(Res::Message(1, None, _))));
}

#[test]
fn service_on_request_payload_calls_handler() {
    let session = ServiceSession::new(255);
    let res = session.on_request_payload(Req::Message(2, None, "m".to_string()));
    match res {
        Res::Message(n, _, text) => {
            assert_eq!(n, 2);
            assert_eq!(text, "client: 00000000-0000-0000-0000-0000000000ff | msg: m");
        }
        other => panic!("unexpected response {other:?}"),
    }
}

#[test]
fn undecodable_bytes_get_invalid_argument() {
    match on_inbound(None) {
        Inbound::Reject(r) => {
            assert_eq!(r.id, 0);
            assert_eq!(r.origin, Origin::Client);
            match r.payload {
                Payload::Response(Res::Error(e)) => {
                    assert_eq!(e.kind(), TestRPCErrorKind::InvalidArgument);
                    assert_eq!(e.to_string(), "InvalidArgument");
                }
                other => panic!("unexpected payload {other:?}"),
            }
        }
        other => panic!("unexpected action {other:?}"),
    }
    let m = response(4, Origin::Client);
    assert!(matches!(on_inbound(Some(m)), Inbound::Forward(Message { id: 4, .. })));
}

#[test]
fn error_text_and_description() {
    let mut e = TestRPCError::new(TestRPCErrorKind::PermissionDenied);
    assert_eq!(e.to_string(), "PermissionDenied");
    assert_eq!(e.description(), "PermissionDenied");
    e.set_description("no access".to_string());
    assert_eq!(e.description(), "no access");
    assert_eq!(e.to_string(), "PermissionDenied");
    assert_eq!(TestRPCErrorKind::Timeout.to_string(), "Timeout");
    assert_eq!(TestRPCErrorKind::NotFound.to_string(), "NotFound");
    assert_eq!(TestRPCErrorKind::Unimplemented.to_string(), "Unimplemented");
    assert_eq!(TestRPCErrorKind::Internal.to_string(), "Internal");
}
