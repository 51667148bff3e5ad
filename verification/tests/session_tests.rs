use common::session::{handle_event, name_taken, Action, ConnectionEvent, RoomView, Step};
use common::utils::{ClientMessage, ServerMessage};

fn room(own: Option<&str>, names: &[&str]) -> RoomView {
    RoomView {
        own_name: own.map(|s| s.to_string()),
        names: names.iter().map(|s| s.to_string()).collect(),
    }
}

fn frame(m: ClientMessage) -> ConnectionEvent {
    ConnectionEvent::Frame(m.to_json().unwrap())
}

fn is_broadcast_of(a: &Action, from: &str, message: &str) -> bool {
    matches!(a, Action::Broadcast(m) if m.from == from && m.message == message)
}

#[test]
fn join_with_free_name_registers_and_greets() {
    let step: Step = handle_event(&room(None, &["bob"]), &frame(ClientMessage::Join { username: "ann".to_string() }));
    assert!(!step.finished);
    assert_eq!(step.actions.len(), 4);
    assert!(matches!(&step.actions[0], Action::Register(n) if n == "ann"));
    assert!(matches!(&step.actions[1], Action::StoreUser(n) if n == "ann"));
    match &step.actions[2] {
        Action::SendText(t) => {
            assert!(t.starts_with("Welcome to the chat, ann!\n\nYou can interact with Server as follows:"));
            assert!(t.ends_with("3. send <MSG> or <MSG> - to send message in the room"));
        }
        _ => panic!("expected a greeting"),
    }
    assert!(is_broadcast_of(&step.actions[3], "ann", "joined the chat"));
}

#[test]
fn join_with_taken_name_is_refused() {
    let step = handle_event(&room(None, &["ann"]), &frame(ClientMessage::Join { username: "ann".to_string() }));
    assert_eq!(step.actions.len(), 1);
    assert!(matches!(&step.actions[0], Action::SendText(t) if t == "Sorry, username ann already taken."));
}

#[test]
fn second_join_is_refused() {
    let step = handle_event(&room(Some("ann"), &["ann"]), &frame(ClientMessage::Join { username: "zed".to_string() }));
    assert_eq!(step.actions.len(), 1);
    assert!(matches!(&step.actions[0], Action::SendText(t)
        if t == "ann already joined in chat ,you can leave and join as zed"));
}

#[test]
fn send_from_joined_user_is_stored_and_broadcast() {
    let step = handle_event(&room(Some("ann"), &["ann"]), &frame(ClientMessage::Send { message: "hi".to_string() }));
    assert_eq!(step.actions.len(), 2);
    assert!(matches!(&step.actions[0], Action::StoreMessage { from, content } if from == "ann" && content == "hi"));
    assert!(is_broadcast_of(&step.actions[1], "ann", "hi"));
}

#[test]
fn send_before_join_is_ignored() {
    let step = handle_event(&room(None, &[]), &frame(ClientMessage::Send { message: "hi".to_string() }));
    assert!(step.actions.is_empty());
    assert!(!step.finished);
}

#[test]
fn leave_frame_announces_and_unregisters() {
    let step = handle_event(&room(Some("ann"), &["ann"]), &frame(ClientMessage::Leave));
    assert_eq!(step.actions.len(), 3);
    assert!(is_broadcast_of(&step.actions[0], "ann", "left the chat"));
    assert!(matches!(&step.actions[1], Action::TouchLastSeen(n) if n == "ann"));
    assert!(matches!(&step.actions[2], Action::Unregister));
    assert!(!step.finished);
}

#[test]
fn heartbeat_only_resets_timer() {
    let step = handle_event(&room(Some("ann"), &["ann"]), &frame(ClientMessage::Heartbeat));
    assert_eq!(step.actions.len(), 1);
    assert!(matches!(&step.actions[0], Action::ResetHeartbeat));
    assert!(!step.finished);
}

#[test]
fn undecodable_frame_is_ignored() {
    let step = handle_event(&room(Some("ann"), &["ann"]), &ConnectionEvent::Frame(vec![9, 9]));
    assert!(step.actions.is_empty());
    assert!(!step.finished);
}

#[test]
fn relay_is_not_echoed_to_author() {
    let msg = ServerMessage { from: "ann".to_string(), message: "hi".to_string() };
    let own = handle_event(&room(Some("ann"), &["ann", "bob"]), &ConnectionEvent::Relay(msg.clone()));
    assert!(own.actions.is_empty());
    let other = handle_event(&room(Some("bob"), &["ann", "bob"]), &ConnectionEvent::Relay(msg.clone()));
    assert_eq!(other.actions.len(), 1);
    assert!(matches!(&other.actions[0], Action::SendBinary(b) if *b == msg.to_json().unwrap()));
    let stranger = handle_event(&room(None, &["ann"]), &ConnectionEvent::Relay(msg));
    assert!(stranger.actions.is_empty());
}

#[test]
fn close_frame_finishes_connection() {
    let step = handle_event(&room(Some("ann"), &["ann"]), &ConnectionEvent::Closed);
    assert!(step.finished);
    assert_eq!(step.actions.len(), 4);
    assert!(is_broadcast_of(&step.actions[0], "ann", "left the chat"));
    assert!(matches!(&step.actions[1], Action::TouchLastSeen(n) if n == "ann"));
    assert!(matches!(&step.actions[2], Action::Unregister));
    assert!(matches!(&step.actions[3], Action::Close));
    let anon = handle_event(&room(None, &[]), &ConnectionEvent::Closed);
    assert!(anon.finished);
    assert_eq!(anon.actions.len(), 2);
}

#[test]
fn heartbeat_timeout_at_three_seconds() {
    let r = room(Some("ann"), &["ann"]);
    let on_time = handle_event(&r, &ConnectionEvent::Tick { elapsed_nanos: 3_000_000_000 });
    assert!(!on_time.finished);
    assert!(on_time.actions.is_empty());
    let late = handle_event(&r, &ConnectionEvent::Tick { elapsed_nanos: 3_000_000_001 });
    assert!(late.finished);
    assert_eq!(late.actions.len(), 3);
    assert!(is_broadcast_of(&late.actions[0], "ann", "left the chat"));
    assert!(matches!(&late.actions[1], Action::Unregister));
    assert!(matches!(&late.actions[2], Action::Close));
}

#[test]
fn shutdown_closes_only_joined_connections() {
    let joined = handle_event(&room(Some("ann"), &["ann"]), &ConnectionEvent::Shutdown);
    assert!(joined.finished);
    assert_eq!(joined.actions.len(), 3);
    assert!(matches!(&joined.actions[0], Action::ForwardClose));
    let anon = handle_event(&room(None, &[]), &ConnectionEvent::Shutdown);
    assert!(!anon.finished);
    assert!(anon.actions.is_empty());
}

#[test]
fn stream_end_finishes_connection() {
    let step = handle_event(&room(Some("ann"), &["ann"]), &ConnectionEvent::Ended);
    assert!(step.finished);
    assert_eq!(step.actions.len(), 3);
    assert!(is_broadcast_of(&step.actions[0], "ann", "left the chat"));
}

#[test]
fn name_lookup() {
    let names = vec!["ann".to_string(), "bob".to_string()];
    assert!(name_taken(&names, &"bob".to_string()));
    assert!(!name_taken(&names, &"Bob".to_string()));
    assert!(!name_taken(&Vec::new(), &"ann".to_string()));
}
