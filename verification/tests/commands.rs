use rpc_ipc::commands::{
    parse_client_command, parse_server_command, split_words, ArithmeticOp,
    ClientCommand, ServerCommand,
};

#[test]
fn client_commands() {
    assert!(matches!(parse_client_command(""), ClientCommand::Empty));
    assert!(matches!(parse_client_command("exit now"), ClientCommand::Exit));
    assert!(matches!(parse_client_command("exit "), ClientCommand::Exit));
    // Without a space the line is not a command.
    assert!(matches!(parse_client_command("exit"), ClientCommand::Invalid));
    assert!(matches!(parse_client_command("help me"), ClientCommand::Invalid));
    match parse_client_command("msg hello there") {
        ClientCommand::Message(t) => assert_eq!(t, "hello there"),
        other => panic!("unexpected {other:?}"),
    }
    match parse_client_command("msg ") {
        ClientCommand::Message(t) => assert_eq!(t, ""),
        other => panic!("unexpected {other:?}"),
    }
}

#[test]
fn client_arithmetic_commands() {
    match parse_client_command("sum  1.5\t2 3") {
        ClientCommand::Arithmetic(op, a, b) => {
            assert_eq!(op, ArithmeticOp::Sum);
            assert_eq!(a, "1.5");
            assert_eq!(b, "2");
        }
        other => panic!("unexpected {other:?}"),
    }
    assert!(matches!(
        parse_client_command("div 4"),
        ClientCommand::MissingOperands(ArithmeticOp::Divide)
    ));
    assert!(matches!(
        parse_client_command("mult x y"),
        ClientCommand::Arithmetic(ArithmeticOp::Multiply, _, _)
    ));
}

#[test]
fn words_split_on_white_space() {
    assert_eq!(split_words("  a bc\t\nd  "), vec!["a", "bc", "d"]);
    assert!(split_words("   ").is_empty());
    assert_eq!(split_words("one"), vec!["one"]);
}

#[test]
fn server_commands() {
    assert!(matches!(parse_server_command(""), ServerCommand::Empty));
    assert!(matches!(parse_server_command("list"), ServerCommand::List));
    assert!(matches!(parse_server_command("list all"), ServerCommand::Ignore));
    assert!(matches!(parse_server_command("stop"), ServerCommand::Ignore));
    match parse_server_command("kill 67e55044-10b1-426f-9247-bb680e5fe0c8") {
        ServerCommand::Kill(Ok(v)) => assert_eq!(v, 0x67e5504410b1426f9247bb680e5fe0c8),
        other => panic!("unexpected {other:?}"),
    }
    assert!(matches!(parse_server_command("kill nonsense"), ServerCommand::Kill(Err(_))));
}

#[test]
fn uuid_parsing() {
    assert!(matches!(
        parse_server_command("kill 00000000-0000-0000-0000-0000000000ff"),
        ServerCommand::Kill(Ok(255))
    ));
    match parse_server_command("kill A1A2A3A4B1B2C1C2D1D2D3D4D5D6D7D8") {
        ServerCommand::Kill(Ok(v)) => assert_eq!(v, 0xa1a2a3a4b1b2c1c2d1d2d3d4d5d6d7d8),
        other => panic!("unexpected {other:?}"),
    }
    match parse_server_command("kill ") {
        ServerCommand::Kill(Err(e)) => assert!(!e.is_empty()),
        other => panic!("unexpected {other:?}"),
    }
}
