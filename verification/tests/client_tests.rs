use common::client::{closes_session, outgoing_frame, render_frame};
use common::utils::{ClientMessage, MessageError, ServerMessage};

#[test]
fn blank_lines_send_nothing() {
    assert!(outgoing_frame("").is_none());
    assert!(outgoing_frame("  \t\n").is_none());
}

#[test]
fn typed_lines_become_frames() {
    assert_eq!(
        outgoing_frame("join testuser\n").unwrap().unwrap(),
        ClientMessage::Join { username: "testuser".to_string() }.to_json().unwrap()
    );
    assert_eq!(
        outgoing_frame("send Hello, world!").unwrap().unwrap(),
        ClientMessage::Send { message: "Hello, world!".to_string() }.to_json().unwrap()
    );
    assert_eq!(
        outgoing_frame("leave").unwrap().unwrap(),
        ClientMessage::Leave.to_json().unwrap()
    );
    assert_eq!(
        outgoing_frame("join").unwrap().unwrap_err(),
        MessageError::Custom("Invalid join message format".to_string())
    );
}

#[test]
fn typed_leave_ends_session() {
    let frame = outgoing_frame("  Leave ").unwrap().unwrap();
    assert!(closes_session(&frame));
    let other = outgoing_frame("send bye").unwrap().unwrap();
    assert!(!closes_session(&other));
    assert!(!closes_session(&[]));
}

#[test]
fn render_relayed_message() {
    let b = ServerMessage { from: "ann".to_string(), message: "hi".to_string() }.to_json().unwrap();
    assert_eq!(render_frame(&b).unwrap(), "ann: hi");
}

#[test]
fn render_plain_text() {
    assert_eq!(render_frame(b"Sorry, username ann already taken.").unwrap(), "Sorry, username ann already taken.");
}

#[test]
fn render_neither() {
    assert!(render_frame(&[0xFF, 0xFE]).is_none());
}
