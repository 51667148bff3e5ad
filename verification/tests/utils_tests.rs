use common::utils::{ClientMessage, MessageError, ServerMessage};
use std::sync::mpsc;
use tokio_tungstenite::tungstenite::protocol::Message;

#[test]
fn test_client_message_parse_join() {
    let input = "join testuser";
    let expected = ClientMessage::Join {
        username: "testuser".to_string(),
    };
    assert_eq!(ClientMessage::parse(input).unwrap(), expected);
}

#[test]
fn test_client_message_parse_send() {
    let input = "send Hello, world!";
    let expected = ClientMessage::Send {
        message: "Hello, world!".to_string(),
    };
    assert_eq!(ClientMessage::parse(input).unwrap(), expected);
}

#[test]
fn test_client_message_parse_leave() {
    let input = "leave";
    let expected = ClientMessage::Leave;
    assert_eq!(ClientMessage::parse(input).unwrap(), expected);
}

#[test]
fn test_client_message_parse_implicit_send() {
    let input = "Hello, everyone!";
    let expected = ClientMessage::Send {
        message: "Hello, everyone!".to_string(),
    };
    assert_eq!(ClientMessage::parse(input).unwrap(), expected);
}

#[test]
fn test_client_message_serialization() {
    let message = ClientMessage::Join {
        username: "testuser".to_string(),
    };
    let serialized = message.to_json().unwrap();
    let deserialized = ClientMessage::from_json(&serialized).unwrap();
    assert_eq!(message, deserialized);
}

#[test]
#[should_panic(expected = "Invalid join message format")]
fn test_client_message_parse_invalid_join() {
    ClientMessage::parse("join").unwrap();
}

#[test]
fn test_server_message_deserialization() {
    let server_message = ServerMessage {
        from: "Server".to_string(),
        message: "Welcome to the chat!".to_string(),
    };
    let serialized =
        bincode::serialize(&(server_message.from.clone(), server_message.message.clone())).unwrap();
    let deserialized = ServerMessage::from_json(&serialized).unwrap();
    assert_eq!(server_message.from, deserialized.from);
    assert_eq!(server_message.message, deserialized.message);
}

#[test]
fn parse_keywords_ignore_letter_case() {
    assert_eq!(
        ClientMessage::parse("JoIn Alice").unwrap(),
        ClientMessage::Join { username: "Alice".to_string() }
    );
    assert_eq!(ClientMessage::parse("LEAVE").unwrap(), ClientMessage::Leave);
    assert_eq!(
        ClientMessage::parse("SEND hi").unwrap(),
        ClientMessage::Send { message: "hi".to_string() }
    );
}

#[test]
fn parse_collapses_whitespace() {
    assert_eq!(
        ClientMessage::parse("  send \t a   b\n c ").unwrap(),
        ClientMessage::Send { message: "a b c".to_string() }
    );
    assert_eq!(
        ClientMessage::parse("  hello\u{3000}there  ").unwrap(),
        ClientMessage::Send { message: "hello there".to_string() }
    );
}

#[test]
fn parse_errors_name_the_command() {
    assert_eq!(
        ClientMessage::parse("join a b").unwrap_err(),
        MessageError::Custom("Invalid join message format".to_string())
    );
    assert_eq!(
        ClientMessage::parse("send").unwrap_err(),
        MessageError::Custom("Invalid send message format".to_string())
    );
    assert_eq!(
        ClientMessage::parse("leave now").unwrap_err(),
        MessageError::Custom("Invalid leave message format".to_string())
    );
}

#[test]
fn parse_non_ascii_keyword_lookalike_is_sent() {
    // U+0130 lowercases to two characters, so this is no join command.
    assert_eq!(
        ClientMessage::parse("jo\u{130}n bob").unwrap(),
        ClientMessage::Send { message: "jo\u{130}n bob".to_string() }
    );
}

#[test]
fn relay_texts() {
    let user = "bob".to_string();
    let join = ClientMessage::Join { username: "ann".to_string() };
    assert_eq!(
        join.parse_to_server_message(&user),
        ServerMessage { from: "ann".to_string(), message: "joined the chat".to_string() }
    );
    let send = ClientMessage::Send { message: "hi".to_string() };
    assert_eq!(
        send.parse_to_server_message(&user),
        ServerMessage { from: "bob".to_string(), message: "hi".to_string() }
    );
    assert_eq!(
        ClientMessage::Leave.parse_to_server_message(&user),
        ServerMessage { from: "bob".to_string(), message: "left the chat".to_string() }
    );
    assert_eq!(
        ClientMessage::Heartbeat.parse_to_server_message(&user),
        ServerMessage { from: "server".to_string(), message: "heartbeat".to_string() }
    );
}

#[test]
fn client_wire_bytes_exact() {
    assert_eq!(ClientMessage::Leave.to_json().unwrap(), vec![2, 0, 0, 0]);
    assert_eq!(ClientMessage::Heartbeat.to_json().unwrap(), vec![3, 0, 0, 0]);
    assert_eq!(
        ClientMessage::Join { username: "é".to_string() }.to_json().unwrap(),
        vec![0, 0, 0, 0, 2, 0, 0, 0, 0, 0, 0, 0, 0xC3, 0xA9]
    );
    assert_eq!(
        ClientMessage::Send { message: "ab".to_string() }.to_json().unwrap(),
        vec![1, 0, 0, 0, 2, 0, 0, 0, 0, 0, 0, 0, b'a', b'b']
    );
}

#[test]
fn client_roundtrip_every_variant() {
    for m in [
        ClientMessage::Join { username: "zoë".to_string() },
        ClientMessage::Send { message: "hello there, 世界".to_string() },
        ClientMessage::Send { message: String::new() },
        ClientMessage::Leave,
        ClientMessage::Heartbeat,
    ] {
        let b = m.to_json().unwrap();
        assert_eq!(ClientMessage::from_json(&b).unwrap(), m);
    }
}

#[test]
fn client_decode_ignores_trailing_bytes() {
    assert_eq!(ClientMessage::from_json(&[2, 0, 0, 0, 9, 9]).unwrap(), ClientMessage::Leave);
}

#[test]
fn client_decode_errors() {
    assert_eq!(ClientMessage::from_json(&[]).unwrap_err(), MessageError::Decode);
    assert_eq!(ClientMessage::from_json(&[2, 0, 0]).unwrap_err(), MessageError::Decode);
    assert_eq!(ClientMessage::from_json(&[4, 0, 0, 0]).unwrap_err(), MessageError::Decode);
    // a join whose name is cut short
    assert_eq!(
        ClientMessage::from_json(&[0, 0, 0, 0, 5, 0, 0, 0, 0, 0, 0, 0, b'a']).unwrap_err(),
        MessageError::Decode
    );
    // a name that is not UTF-8
    assert_eq!(
        ClientMessage::from_json(&[0, 0, 0, 0, 1, 0, 0, 0, 0, 0, 0, 0, 0xFF]).unwrap_err(),
        MessageError::Decode
    );
}

#[test]
fn client_bytes_match_bincode_of_the_same_layout() {
    let b = ClientMessage::Send { message: "x y".to_string() }.to_json().unwrap();
    assert_eq!(b, bincode::serialize(&(1u32, "x y".to_string())).unwrap());
}

#[test]
fn server_roundtrip_and_bytes() {
    let m = ServerMessage { from: "ann".to_string(), message: "hi ✓".to_string() };
    let b = m.to_json().unwrap();
    assert_eq!(b, bincode::serialize(&("ann".to_string(), "hi ✓".to_string())).unwrap());
    assert_eq!(ServerMessage::from_json(&b).unwrap(), m);
}

#[test]
fn server_decode_errors() {
    assert_eq!(ServerMessage::from_json(b"Welcome to the chat").unwrap_err(), MessageError::Decode);
    assert_eq!(ServerMessage::from_json(&[1, 0, 0, 0, 0, 0, 0, 0, b'a']).unwrap_err(), MessageError::Decode);
}

fn read_and_send_message(input: &str, tx: &mpsc::Sender<Message>) {
    let message = ClientMessage::parse(input).unwrap();
    tx.send(Message::Binary(message.to_json().unwrap())).unwrap();
}

#[test]
fn test_client_message_handling() {
    let (tx, rx) = mpsc::channel();

    let join_msg = "join testuser";
    read_and_send_message(join_msg, &tx);
    if let Ok(message) = rx.recv() {
        assert_eq!(
            message,
            Message::Binary(
                ClientMessage::Join {
                    username: "testuser".to_string()
                }
                .to_json()
                .unwrap()
            )
        );
    } else {
        panic!("No message received for join");
    }

    let send_msg = "send Hello, world!";
    read_and_send_message(send_msg, &tx);
    if let Ok(message) = rx.recv() {
        assert_eq!(
            message,
            Message::Binary(
                ClientMessage::Send {
                    message: "Hello, world!".to_string()
                }
                .to_json()
                .unwrap()
            )
        );
    } else {
        panic!("No message received for send");
    }

    let leave_msg = "leave";
    read_and_send_message(leave_msg, &tx);
    if let Ok(message) = rx.recv() {
        assert_eq!(message, Message::Binary(ClientMessage::Leave.to_json().unwrap()));
    } else {
        panic!("No message received for leave");
    }
}
