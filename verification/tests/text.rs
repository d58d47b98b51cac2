use rpc_ipc::commands::is_whitespace;
use rpc_ipc::text::to_ascii_lowercase;
use rpc_ipc::naming::{handler_method_name, response_method_name, to_snake_case};
use rpc_ipc::session::ServiceSession;
use rpc_ipc::protocol::Res;
use rpc_ipc::text::{decimal_text, joined};

#[test]
fn snake_case_of_camel_case_names() {
    assert_eq!(to_snake_case("Message"), "message");
    assert_eq!(to_snake_case("MultiplyAll"), "multiply_all");
    assert_eq!(to_snake_case("HTTPCall"), "h_t_t_p_call");
    assert_eq!(to_snake_case("sum"), "sum");
    assert_eq!(to_snake_case(""), "");
    assert_eq!(to_snake_case("ÉtéX"), "Été_x");
}

#[test]
fn handler_and_response_method_names() {
    assert_eq!(handler_method_name("Message"), "handle_message_request");
    assert_eq!(handler_method_name("GetUserName"), "handle_get_user_name_request");
    assert_eq!(response_method_name("Ping"), "on_ping_response");
}

#[test]
fn decimal_text_of_indices() {
    assert_eq!(decimal_text(0), "0");
    assert_eq!(decimal_text(7), "7");
    assert_eq!(decimal_text(10), "10");
    assert_eq!(decimal_text(1234567), "1234567");
}

fn answer_text(id: u128) -> String {
    match ServiceSession::new(id).handle_message_request(0, None, String::new()) {
        Res::Message(_, _, text) => text,
        other => panic!("unexpected response {other:?}"),
    }
}

#[test]
fn uuid_text_is_hyphenated_lower_hex() {
    assert_eq!(answer_text(0), "client: 00000000-0000-0000-0000-000000000000 | msg: ");
    assert_eq!(
        answer_text(0xa1a2a3a4b1b2c1c2d1d2d3d4d5d6d7d8),
        "client: a1a2a3a4-b1b2-c1c2-d1d2-d3d4d5d6d7d8 | msg: "
    );
    assert_eq!(answer_text(u128::MAX), "client: ffffffff-ffff-ffff-ffff-ffffffffffff | msg: ");
}

#[test]
fn case_helpers_through_snake_case() {
    assert_eq!(to_snake_case("AbC"), "ab_c");
    assert_eq!(to_snake_case("ÀÉ"), "À_É");
    assert_eq!(to_snake_case("a1B2"), "a1_b2");
    assert_eq!(to_snake_case("x_Y"), "x__y");
    assert_eq!(joined("Test", "RPC"), "TestRPC");
}

#[test]
fn ascii_lowering_and_white_space() {
    assert_eq!(to_ascii_lowercase('Q'), 'q');
    assert_eq!(to_ascii_lowercase('z'), 'z');
    assert_eq!(to_ascii_lowercase('É'), 'É');
    for c in ['\t', '\n', ' ', '\u{85}', '\u{a0}', '\u{2003}', '\u{3000}'] {
        assert!(is_whitespace(c));
        assert_eq!(is_whitespace(c), c.is_whitespace());
    }
    for c in ['a', '_', '\u{200b}', '\u{180e}'] {
        assert!(!is_whitespace(c));
        assert_eq!(is_whitespace(c), c.is_whitespace());
    }
}
