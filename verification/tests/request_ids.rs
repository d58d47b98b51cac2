use rpc_ipc::protocol::{message, Origin, Payload, Req};
use rpc_ipc::request_ids::{release_id, RequestIds};

#[test]
fn fresh_ids_count_up_from_one() {
    let mut ids = RequestIds::new();
    assert_eq!(ids.generate_request_id(), 1);
    assert_eq!(ids.generate_request_id(), 2);
    assert_eq!(ids.generate_request_id(), 3);
}

#[test]
fn released_id_is_reused_before_fresh_ones() {
    let mut ids = RequestIds::new();
    assert_eq!(ids.generate_request_id(), 1);
    assert_eq!(ids.generate_request_id(), 2);
    release_id(&mut ids, 1);
    assert_eq!(ids.generate_request_id(), 1);
    assert_eq!(ids.generate_request_id(), 3);
}

#[test]
fn each_released_id_is_handed_out_once() {
    let mut ids = RequestIds::new();
    for _ in 0..5 {
        ids.generate_request_id();
    }
    release_id(&mut ids, 2);
    release_id(&mut ids, 4);
    release_id(&mut ids, 2);
    let mut got = vec![ids.generate_request_id(), ids.generate_request_id()];
    got.sort();
    assert_eq!(got, vec![2, 4]);
    assert_eq!(ids.generate_request_id(), 6);
}

#[test]
fn message_request_takes_a_fresh_id() {
    let mut ids = RequestIds::new();
    let m = message(&mut ids, 9, None, "hello".to_string());
    assert_eq!(m.id, 1);
    assert_eq!(m.origin, Origin::Client);
    match m.payload {
        Payload::Request(Req::Message(n, c, text)) => {
            assert_eq!(n, 9);
            assert_eq!(c, None);
            assert_eq!(text, "hello");
        }
        other => panic!("unexpected payload {other:?}"),
    }
    let m2 = message(&mut ids, 0, Some("me".to_string()), String::new());
    assert_eq!(m2.id, 2);
}

#[test]
fn fresh_id_skips_released_ones() {
    let mut ids = RequestIds::new();
    assert_eq!(ids.generate_request_id(), 1);
    release_id(&mut ids, 1);
    assert_eq!(ids.fresh_request_id(), 2);
    assert_eq!(ids.generate_request_id(), 1);
    assert_eq!(ids.generate_request_id(), 3);
}

#[test]
fn outstanding_ids_stay_distinct() {
    let mut ids = RequestIds::new();
    let mut outstanding: Vec<u32> = Vec::new();
    for round in 0..20u32 {
        let id = ids.generate_request_id();
        assert!(id >= 1);
        assert!(!outstanding.contains(&id));
        outstanding.push(id);
        if round % 3 == 0 {
            let back = outstanding.remove(0);
            release_id(&mut ids, back);
        }
    }
}
