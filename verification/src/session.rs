//! What the server does on each event of a client connection: a decision
//! from what it knows of the room and the event to the actions to take.
use vstd::prelude::*;
use crate::utils::{
    client_fits_wire, decode_client, encode_client, encode_server, lemma_client_roundtrip, relay_of, ClientMessage, ClientMessageModel, ServerMessage,
    ServerMessageModel,
};

verus! {

/// What a connection knows of the room when an event arrives.
pub struct RoomView {
    /// The name this connection joined under, if it has joined.
    pub own_name: Option<String>,
    /// The names of all users in the room.
    pub names: Vec<String>,
}

/// Something that happened on a connection.
pub enum ConnectionEvent {
    /// The client sent a close frame.
    Closed,
    /// The client sent a frame with these bytes.
    Frame(Vec<u8>),
    /// A message was broadcast to the room.
    Relay(ServerMessage),
    /// The server is shutting down.
    Shutdown,
    /// The heartbeat timer fired; this long has passed since the last
    /// heartbeat.
    Tick { elapsed_nanos: u128 },
    /// The client's stream ended or failed.
    Ended,
}

/// Something the connection handler does.
pub enum Action {
    /// Broadcast this message to the room.
    Broadcast(ServerMessage),
    /// Send this text to the client.
    SendText(String),
    /// Send these bytes to the client.
    SendBinary(Vec<u8>),
    /// Send the server's close frame to the client.
    ForwardClose,
    /// Enter the connection in the room under this name.
    Register(String),
    /// Take the connection out of the room.
    Unregister,
    /// Record the current time as this user's last visit.
    TouchLastSeen(String),
    /// Record that this user joined.
    StoreUser(String),
    /// Record this chat message.
    StoreMessage { from: String, content: String },
    /// Restart the heartbeat timer.
    ResetHeartbeat,
    /// Close the connection.
    Close,
}

/// The actions for one event, and whether the connection is finished.
pub struct Step {
    pub actions: Vec<Action>,
    pub finished: bool,
}

/// The content of a `RoomView`.
pub struct RoomModel {
    pub own_name: Option<Seq<char>>,
    pub names: Seq<Seq<char>>,
}

/// The content of a `ConnectionEvent`.
pub enum EventModel {
    Closed,
    Frame(Seq<u8>),
    Relay(ServerMessageModel),
    Shutdown,
    Tick { elapsed_nanos: u128 },
    Ended,
}

/// The content of an `Action`.
pub enum ActionModel {
    Broadcast(ServerMessageModel),
    SendText(Seq<char>),
    SendBinary(Seq<u8>),
    ForwardClose,
    Register(Seq<char>),
    Unregister,
    TouchLastSeen(Seq<char>),
    StoreUser(Seq<char>),
    StoreMessage { from: Seq<char>, content: Seq<char> },
    ResetHeartbeat,
    Close,
}

impl View for RoomView {
    type V = RoomModel;

    open spec fn view(&self) -> RoomModel {
        RoomModel {
            own_name: match self.own_name {
                Some(n) => Some(n@),
                None => None,
            },
            names: self.names.deep_view(),
        }
    }
}

impl View for ConnectionEvent {
    type V = EventModel;

    open spec fn view(&self) -> EventModel {
        match self {
            ConnectionEvent::Closed => EventModel::Closed,
            ConnectionEvent::Frame(b) => EventModel::Frame(b@),
            ConnectionEvent::Relay(m) => EventModel::Relay(m@),
            ConnectionEvent::Shutdown => EventModel::Shutdown,
            ConnectionEvent::Tick { elapsed_nanos } => EventModel::Tick {
                elapsed_nanos: *elapsed_nanos,
            },
            ConnectionEvent::Ended => EventModel::Ended,
        }
    }
}

impl View for Action {
    type V = ActionModel;

    open spec fn view(&self) -> ActionModel {
        match self {
            Action::Broadcast(m) => ActionModel::Broadcast(m@),
            Action::SendText(t) => ActionModel::SendText(t@),
            Action::SendBinary(b) => ActionModel::SendBinary(b@),
            Action::ForwardClose => ActionModel::ForwardClose,
            Action::Register(n) => ActionModel::Register(n@),
            Action::Unregister => ActionModel::Unregister,
            Action::TouchLastSeen(n) => ActionModel::TouchLastSeen(n@),
            Action::StoreUser(n) => ActionModel::StoreUser(n@),
            Action::StoreMessage { from, content } => ActionModel::StoreMessage {
                from: from@,
                content: content@,
            },
            Action::ResetHeartbeat => ActionModel::ResetHeartbeat,
            Action::Close => ActionModel::Close,
        }
    }
}

/// The contents of a list of actions.
pub open spec fn actions_view(v: Seq<Action>) -> Seq<ActionModel> {
    v.map_values(|a: Action| a@)
}

impl View for Step {
    type V = (Seq<ActionModel>, bool);

    open spec fn view(&self) -> (Seq<ActionModel>, bool) {
        (actions_view(self.actions@), self.finished)
    }
}

/// How long a connection may go without a heartbeat, in nanoseconds.
pub open spec fn heartbeat_limit_nanos() -> u128 {
    3_000_000_000
}

/// The reply to a join under a name that is in use.
pub open spec fn taken_text(name: Seq<char>) -> Seq<char> {
    "Sorry, username "@ + name + " already taken."@
}

/// The reply to a join from a connection that has already joined as `current`.
pub open spec fn already_joined_text(current: Seq<char>, name: Seq<char>) -> Seq<char> {
    current + " already joined in chat ,you can leave and join as "@ + name
}

/// The greeting for a user who has just joined.
pub open spec fn welcome_text(name: Seq<char>) -> Seq<char> {
    "Welcome to the chat, "@ + name + welcome_tail()
}

/// The instructions that end the greeting.
pub open spec fn welcome_tail() -> Seq<char> {
    "!\n\nYou can interact with Server as follows:\n1. leave - to leave from room.\n2. join <username> - to join to room.\n3. send <MSG> or <MSG> - to send message in the room"@
}

/// The leave announcement for a joined connection, if it has joined, with
/// the record of its last visit where `touch` asks for it.
pub open spec fn leave_actions(own: Option<Seq<char>>, touch: bool) -> Seq<ActionModel> {
    match own {
        Some(u) => if touch {
            seq![
                ActionModel::Broadcast(relay_of(ClientMessageModel::Leave, u)),
                ActionModel::TouchLastSeen(u),
            ]
        } else {
            seq![ActionModel::Broadcast(relay_of(ClientMessageModel::Leave, u))]
        },
        None => seq![],
    }
}

/// What the server does with a frame the client sent.
pub open spec fn frame_actions(room: RoomModel, m: ClientMessageModel) -> Seq<ActionModel> {
    match m {
        ClientMessageModel::Leave => leave_actions(room.own_name, true) + seq![
            ActionModel::Unregister,
        ],
        ClientMessageModel::Heartbeat => seq![ActionModel::ResetHeartbeat],
        ClientMessageModel::Join { username } => if room.names.contains(username) {
            seq![ActionModel::SendText(taken_text(username))]
        } else {
            match room.own_name {
                Some(current) => seq![
                    ActionModel::SendText(already_joined_text(current, username)),
                ],
                None => seq![
                    ActionModel::Register(username),
                    ActionModel::StoreUser(username),
                    ActionModel::SendText(welcome_text(username)),
                    ActionModel::Broadcast(relay_of(m, username)),
                ],
            }
        },
        ClientMessageModel::Send { message } => match room.own_name {
            Some(u) => seq![
                ActionModel::StoreMessage { from: u, content: message },
                ActionModel::Broadcast(relay_of(m, u)),
            ],
            None => seq![],
        },
    }
}

/// The actions for `event`, and whether the connection is then finished.
/// A close frame, a stream that ends, or a heartbeat that is overdue
/// announces the leave of a joined user and closes the connection; a
/// shutdown closes it for a joined user; a frame is read as a client
/// message (bytes that hold none are ignored); a broadcast is passed on to a
/// joined user other than its author.
pub open spec fn spec_step(room: RoomModel, event: EventModel) -> (Seq<ActionModel>, bool) {
    match event {
        EventModel::Closed => (
            leave_actions(room.own_name, true) + seq![ActionModel::Unregister, ActionModel::Close],
            true,
        ),
        EventModel::Frame(b) => match decode_client(b) {
            Some(m) => (frame_actions(room, m), false),
            None => (seq![], false),
        },
        EventModel::Relay(m) => match room.own_name {
            Some(u) => if u != m.from {
                (seq![ActionModel::SendBinary(encode_server(m))], false)
            } else {
                (seq![], false)
            },
            None => (seq![], false),
        },
        EventModel::Shutdown => match room.own_name {
            Some(_) => (
                seq![ActionModel::ForwardClose, ActionModel::Unregister, ActionModel::Close],
                true,
            ),
            None => (seq![], false),
        },
        EventModel::Tick { elapsed_nanos } => if elapsed_nanos > heartbeat_limit_nanos() {
            (
                leave_actions(room.own_name, false) + seq![
                    ActionModel::Unregister,
                    ActionModel::Close,
                ],
                true,
            )
        } else {
            (seq![], false)
        },
        EventModel::Ended => (
            leave_actions(room.own_name, false) + seq![ActionModel::Unregister, ActionModel::Close],
            true,
        ),
    }
}


/// Whether `name` is among `names`.
pub fn name_taken(names: &Vec<String>, name: &String) -> (r: bool)
    ensures
        r == names.deep_view().contains(name@),
{
    let mut i: usize = 0;
    while i < names.len()
        invariant
            i <= names@.len(),
            forall|j: int| 0 <= j < i ==> names@[j]@ != name@,
        decreases names@.len() - i,
    {
        if names[i] == *name {
            assert(names.deep_view()[i as int] == name@);
            return true;
        }
        i += 1;
    }
    assert forall|j: int| 0 <= j < names.deep_view().len() implies names.deep_view()[j]
        != name@ by {
        assert(names.deep_view()[j] == names@[j]@);
    }
    false
}

/// The reply to a join under a name that is in use.
fn taken_reply(name: &String) -> (r: String)
    ensures
        r@ == taken_text(name@),
{
    let mut r = String::from_str("Sorry, username ");
    r.append(name.as_str());
    r.append(" already taken.");
    r
}

/// The reply to a join from a connection that has already joined.
fn already_joined_reply(current: &String, name: &String) -> (r: String)
    ensures
        r@ == already_joined_text(current@, name@),
{
    let mut r = current.clone();
    r.append(" already joined in chat ,you can leave and join as ");
    r.append(name.as_str());
    r
}

/// The greeting for a user who has just joined.
fn welcome_reply(name: &String) -> (r: String)
    ensures
        r@ == welcome_text(name@),
{
    let mut r = String::from_str("Welcome to the chat, ");
    r.append(name.as_str());
    r.append(
        "!\n\nYou can interact with Server as follows:\n1. leave - to leave from room.\n2. join <username> - to join to room.\n3. send <MSG> or <MSG> - to send message in the room",
    );
    r
}

/// Appends the leave announcement of a joined connection to `actions`.
fn push_leave(actions: &mut Vec<Action>, own: &Option<String>, touch: bool)
    ensures
        actions_view(final(actions)@) == actions_view(old(actions)@) + leave_actions(
            match own {
                Some(n) => Some(n@),
                None => None,
            },
            touch,
        ),
{
    let ghost before = old(actions)@;
    match own {
        Some(u) => {
            let leave = ClientMessage::Leave;
            actions.push(Action::Broadcast(leave.parse_to_server_message(u)));
            if touch {
                actions.push(Action::TouchLastSeen(u.clone()));
            }
        },
        None => {},
    }
    assert(actions_view(actions@) =~= actions_view(before) + leave_actions(
        match own {
            Some(n) => Some(n@),
            None => None,
        },
        touch,
    ));
}

/// The actions for a client message that arrived in a frame.
fn frame_step(room: &RoomView, msg: ClientMessage) -> (actions: Vec<Action>)
    ensures
        actions_view(actions@) == frame_actions(room@, msg@),
{
    let mut actions: Vec<Action> = Vec::new();
    match msg {
        ClientMessage::Leave => {
            push_leave(&mut actions, &room.own_name, true);
            actions.push(Action::Unregister);
        },
        ClientMessage::Heartbeat => {
            actions.push(Action::ResetHeartbeat);
        },
        ClientMessage::Join { username } => {
            if name_taken(&room.names, &username) {
                actions.push(Action::SendText(taken_reply(&username)));
            } else {
                match &room.own_name {
                    Some(current) => {
                        actions.push(
                            Action::SendText(already_joined_reply(current, &username)),
                        );
                    },
                    None => {
                        let notice = ClientMessage::Join { username: username.clone() };
                        actions.push(Action::Register(username.clone()));
                        actions.push(Action::StoreUser(username.clone()));
                        actions.push(Action::SendText(welcome_reply(&username)));
                        actions.push(
                            Action::Broadcast(notice.parse_to_server_message(&username)),
                        );
                    },
                }
            }
        },
        ClientMessage::Send { message } => {
            match &room.own_name {
                Some(u) => {
                    let relay = ClientMessage::Send { message: message.clone() }.parse_to_server_message(u);
                    actions.push(Action::StoreMessage { from: u.clone(), content: message });
                    actions.push(Action::Broadcast(relay));
                },
                None => {},
            }
        },
    }
    assert(actions_view(actions@) =~= frame_actions(room@, msg@));
    actions
}

/// The actions for `event` on a connection whose view of the room is
/// `room`, and whether the connection is then finished.
pub fn handle_event(room: &RoomView, event: &ConnectionEvent) -> (step: Step)
    ensures
        step@ == spec_step(room@, event@),
{
    let mut actions: Vec<Action> = Vec::new();
    let finished = match event {
        ConnectionEvent::Closed => {
            push_leave(&mut actions, &room.own_name, true);
            actions.push(Action::Unregister);
            actions.push(Action::Close);
            true
        },
        ConnectionEvent::Frame(bytes) => {
            match ClientMessage::from_json(bytes.as_slice()) {
                Ok(msg) => {
                    actions = frame_step(room, msg);
                },
                Err(_) => {},
            }
            false
        },
        ConnectionEvent::Relay(m) => {
            match &room.own_name {
                Some(u) => {
                    if !(*u == m.from) {
                        match m.to_json() {
                            Ok(b) => actions.push(Action::SendBinary(b)),
                            Err(_) => {},
                        }
                    }
                },
                None => {},
            }
            false
        },
        ConnectionEvent::Shutdown => {
            match &room.own_name {
                Some(_) => {
                    actions.push(Action::ForwardClose);
                    actions.push(Action::Unregister);
                    actions.push(Action::Close);
                    true
                },
                None => false,
            }
        },
        ConnectionEvent::Tick { elapsed_nanos } => {
            if *elapsed_nanos > 3_000_000_000 {
                push_leave(&mut actions, &room.own_name, false);
                actions.push(Action::Unregister);
                actions.push(Action::Close);
                true
            } else {
                false
            }
        },
        ConnectionEvent::Ended => {
            push_leave(&mut actions, &room.own_name, false);
            actions.push(Action::Unregister);
            actions.push(Action::Close);
            true
        },
    };
    let step = Step { actions, finished };
    assert(step@.0 =~= spec_step(room@, event@).0);
    step
}


/// A connection enters the room only under a name that no user has, and
/// only while it has not joined.
pub proof fn lemma_register_only_free_names(room: RoomModel, event: EventModel)
    ensures
        forall|i: int|
            0 <= i < spec_step(room, event).0.len() && #[trigger] spec_step(room, event).0[i] is Register
                ==> !room.names.contains(spec_step(room, event).0[i]->Register_0)
                && room.own_name is None,
{
}

/// A broadcast is never sent back to its author, nor to a connection that
/// has not joined.
pub proof fn lemma_no_echo(room: RoomModel, m: ServerMessageModel)
    ensures
        forall|i: int|
            0 <= i < spec_step(room, EventModel::Relay(m)).0.len() && #[trigger] spec_step(
                room,
                EventModel::Relay(m),
            ).0[i] is SendBinary ==> room.own_name is Some && room.own_name->Some_0 != m.from,
{
}

/// A finished connection has left the room: its last two actions take it
/// out and close it.
pub proof fn lemma_finish_leaves_room(room: RoomModel, event: EventModel)
    ensures
        spec_step(room, event).1 ==> {
            let a = spec_step(room, event).0;
            &&& a.len() >= 2
            &&& a[a.len() - 2] == ActionModel::Unregister
            &&& a[a.len() - 1] == ActionModel::Close
        },
{
}

/// When a joined user's connection ends for any reason but a shutdown, the
/// room is first told that the user left.
pub proof fn lemma_finish_announces_leave(room: RoomModel, event: EventModel)
    ensures
        spec_step(room, event).1 && room.own_name is Some && !(event is Shutdown) ==> spec_step(
            room,
            event,
        ).0[0] == ActionModel::Broadcast(
            relay_of(ClientMessageModel::Leave, room.own_name->Some_0),
        ),
{
}

/// A message sent by a joined user is stored and broadcast to the room
/// under that user's name.
pub proof fn lemma_joined_message_is_broadcast(room: RoomModel, text: Seq<char>)
    requires
        room.own_name is Some,
        client_fits_wire(ClientMessageModel::Send { message: text }),
    ensures
        spec_step(room, EventModel::Frame(encode_client(ClientMessageModel::Send { message: text })))
            == (
            seq![
                ActionModel::StoreMessage { from: room.own_name->Some_0, content: text },
                ActionModel::Broadcast(ServerMessageModel { from: room.own_name->Some_0, message: text }),
            ],
            false,
        ),
{
    lemma_client_roundtrip(ClientMessageModel::Send { message: text });
}

/// A heartbeat from the client only restarts the timer.
pub proof fn lemma_heartbeat_only_resets(room: RoomModel)
    ensures
        spec_step(room, EventModel::Frame(encode_client(ClientMessageModel::Heartbeat))) == (
            seq![ActionModel::ResetHeartbeat],
            false,
        ),
{
    lemma_client_roundtrip(ClientMessageModel::Heartbeat);
}

/// Every broadcast reaches every joined connection but its author's, as the
/// message's bytes, whatever the message says.
pub proof fn lemma_relay_reaches_others(room: RoomModel, m: ServerMessageModel)
    ensures
        room.own_name matches Some(u) && u != m.from ==> spec_step(room, EventModel::Relay(m))
            == (seq![ActionModel::SendBinary(encode_server(m))], false),
        room.own_name matches Some(u) && u == m.from ==> spec_step(room, EventModel::Relay(m))
            == (Seq::<ActionModel>::empty(), false),
        room.own_name is None ==> spec_step(room, EventModel::Relay(m)) == (
            Seq::<ActionModel>::empty(),
            false,
        ),
{
}

/// A join under a free name from a connection that has not joined registers
/// that name, records it, greets the user, and announces to the room that
/// the user, under the very name registered, "joined the chat".
pub proof fn lemma_join_registers_and_announces(room: RoomModel, name: Seq<char>)
    requires
        room.own_name is None,
        !room.names.contains(name),
        client_fits_wire(ClientMessageModel::Join { username: name }),
    ensures
        ({
            let a = spec_step(room, EventModel::Frame(encode_client(ClientMessageModel::Join { username: name }))).0;
            &&& a.len() == 4
            &&& a[0] == ActionModel::Register(name)
            &&& a[1] == ActionModel::StoreUser(name)
            &&& a[2] is SendText
            &&& a[3] == ActionModel::Broadcast(ServerMessageModel { from: name, message: "joined the chat"@ })
        }),
{
    lemma_client_roundtrip(ClientMessageModel::Join { username: name });
}

/// A leave frame from a joined user announces from that user "left the
/// chat", records the visit and takes the connection out of the room; from
/// a connection that has not joined it only takes it out. Either way the
/// connection stays open.
pub proof fn lemma_leave_frame(room: RoomModel)
    ensures
        room.own_name matches Some(u) ==> spec_step(room, EventModel::Frame(encode_client(ClientMessageModel::Leave)))
            == (
            seq![
                ActionModel::Broadcast(ServerMessageModel { from: u, message: "left the chat"@ }),
                ActionModel::TouchLastSeen(u),
                ActionModel::Unregister,
            ],
            false,
        ),
        room.own_name is None ==> spec_step(room, EventModel::Frame(encode_client(ClientMessageModel::Leave)))
            == (seq![ActionModel::Unregister], false),
{
    lemma_client_roundtrip(ClientMessageModel::Leave);
}

/// A join under a name that some user holds is answered only with "Sorry,
/// username <name> already taken."; a join under a free name from a
/// connection that already joined as `c` is answered only with
/// "<c> already joined in chat ,you can leave and join as <name>".
pub proof fn lemma_join_refused(room: RoomModel, name: Seq<char>)
    requires
        client_fits_wire(ClientMessageModel::Join { username: name }),
    ensures
        room.names.contains(name) ==> spec_step(room, EventModel::Frame(encode_client(ClientMessageModel::Join { username: name })))
            == (
            seq![ActionModel::SendText("Sorry, username "@ + name + " already taken."@)],
            false,
        ),
        room.own_name matches Some(c) ==> !room.names.contains(name) ==> spec_step(room, EventModel::Frame(encode_client(ClientMessageModel::Join { username: name })))
            == (
            seq![
                ActionModel::SendText(
                    c + " already joined in chat ,you can leave and join as "@ + name,
                ),
            ],
            false,
        ),
{
    lemma_client_roundtrip(ClientMessageModel::Join { username: name });
}

/// Bytes that hold no client message change nothing, and a heartbeat check
/// within three seconds of the last heartbeat changes nothing.
pub proof fn lemma_quiet_events(room: RoomModel, b: Seq<u8>, elapsed_nanos: u128)
    ensures
        decode_client(b) is None ==> spec_step(room, EventModel::Frame(b)) == (
            Seq::<ActionModel>::empty(),
            false,
        ),
        elapsed_nanos <= 3_000_000_000 ==> spec_step(room, EventModel::Tick { elapsed_nanos })
            == (Seq::<ActionModel>::empty(), false),
{
}

} // verus!
