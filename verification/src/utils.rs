//! Chat messages: what a client sends, what the server relays, how a typed
//! line becomes a message, and their bytes on the wire.
use vstd::prelude::*;
use vstd::string::StringSliceAdditionalSpecFns;
use vstd::utf8::*;
use crate::text::{ascii_lower_code, join_from, join_words, lowercases_to, lowercases_to_keyword, split_words, words};
use crate::wire::{
    decode_str, encode_string, encode_u32, lemma_str_roundtrip, lemma_u32_roundtrip, read_string,
    read_u32, str_bytes, u32_le_bytes, u32_le_value,
};

verus! {

/// A message from a client to the server.
#[derive(Debug, Clone, PartialEq)]
pub enum ClientMessage {
    Join { username: String },
    Send { message: String },
    Leave,
    Heartbeat,
}

/// A message the server relays to the clients.
#[derive(Debug, Clone, PartialEq)]
pub struct ServerMessage {
    pub from: String,
    pub message: String,
}

/// Why a message could not be made.
#[derive(Debug, Clone, PartialEq)]
pub enum MessageError {
    /// A typed command has the wrong number of words; the text says which.
    Custom(String),
    /// The bytes do not hold a message.
    Decode,
}

/// The content of a `ClientMessage`.
pub enum ClientMessageModel {
    Join { username: Seq<char> },
    Send { message: Seq<char> },
    Leave,
    Heartbeat,
}

/// The content of a `ServerMessage`.
pub struct ServerMessageModel {
    pub from: Seq<char>,
    pub message: Seq<char>,
}

impl View for ClientMessage {
    type V = ClientMessageModel;

    open spec fn view(&self) -> ClientMessageModel {
        match self {
            ClientMessage::Join { username } => ClientMessageModel::Join { username: username@ },
            ClientMessage::Send { message } => ClientMessageModel::Send { message: message@ },
            ClientMessage::Leave => ClientMessageModel::Leave,
            ClientMessage::Heartbeat => ClientMessageModel::Heartbeat,
        }
    }
}

impl View for ServerMessage {
    type V = ServerMessageModel;

    open spec fn view(&self) -> ServerMessageModel {
        ServerMessageModel { from: self.from@, message: self.message@ }
    }
}

/// The text the server announces for a joining user.
pub open spec fn joined_text() -> Seq<char> {
    "joined the chat"@
}

/// The text the server announces for a leaving user.
pub open spec fn left_text() -> Seq<char> {
    "left the chat"@
}

/// The sender name of heartbeat notices.
pub open spec fn server_name() -> Seq<char> {
    "server"@
}

/// The text of heartbeat notices.
pub open spec fn heartbeat_text() -> Seq<char> {
    "heartbeat"@
}

/// What the server relays for `m` from the user named `user`: a join is
/// announced under the name it asks for, a message and a leave under `user`.
pub open spec fn relay_of(m: ClientMessageModel, user: Seq<char>) -> ServerMessageModel {
    match m {
        ClientMessageModel::Join { username } => ServerMessageModel {
            from: username,
            message: joined_text(),
        },
        ClientMessageModel::Send { message } => ServerMessageModel { from: user, message },
        ClientMessageModel::Leave => ServerMessageModel { from: user, message: left_text() },
        ClientMessageModel::Heartbeat => ServerMessageModel {
            from: server_name(),
            message: heartbeat_text(),
        },
    }
}

/// Error text for a `join` command without exactly one name.
pub open spec fn invalid_join_text() -> Seq<char> {
    "Invalid join message format"@
}

/// Error text for a `send` command without a message.
pub open spec fn invalid_send_text() -> Seq<char> {
    "Invalid send message format"@
}

/// Error text for a `leave` command with more words.
pub open spec fn invalid_leave_text() -> Seq<char> {
    "Invalid leave message format"@
}

/// The message a typed line stands for, or the error text. The first word,
/// in any letter case, picks the command: `join <name>`, `send <words>`,
/// `leave`; any other line is sent whole, its words joined by single spaces.
pub open spec fn spec_parse(s: Seq<char>) -> Result<ClientMessageModel, Seq<char>>
    recommends
        words(s).len() > 0,
{
    let ws = words(s);
    if lowercases_to(ws[0], "join"@) {
        if ws.len() == 2 {
            Ok(ClientMessageModel::Join { username: ws[1] })
        } else {
            Err(invalid_join_text())
        }
    } else if lowercases_to(ws[0], "send"@) {
        if ws.len() > 1 {
            Ok(ClientMessageModel::Send { message: join_words(ws.skip(1)) })
        } else {
            Err(invalid_send_text())
        }
    } else if lowercases_to(ws[0], "leave"@) {
        if ws.len() == 1 {
            Ok(ClientMessageModel::Leave)
        } else {
            Err(invalid_leave_text())
        }
    } else {
        Ok(ClientMessageModel::Send { message: join_words(ws) })
    }
}

/// The wire bytes of a client message: the variant's index as a `u32`, then
/// its text, if it has one.
pub open spec fn encode_client(m: ClientMessageModel) -> Seq<u8> {
    match m {
        ClientMessageModel::Join { username } => u32_le_bytes(0) + str_bytes(username),
        ClientMessageModel::Send { message } => u32_le_bytes(1) + str_bytes(message),
        ClientMessageModel::Leave => u32_le_bytes(2),
        ClientMessageModel::Heartbeat => u32_le_bytes(3),
    }
}

/// The client message at the start of `b`, if there is one; later bytes are
/// ignored.
pub open spec fn decode_client(b: Seq<u8>) -> Option<ClientMessageModel> {
    if b.len() < 4 {
        None
    } else {
        let tag = u32_le_value(b);
        let rest = b.skip(4);
        if tag == 0 {
            match decode_str(rest) {
                Some((u, _)) => Some(ClientMessageModel::Join { username: u }),
                None => None,
            }
        } else if tag == 1 {
            match decode_str(rest) {
                Some((t, _)) => Some(ClientMessageModel::Send { message: t }),
                None => None,
            }
        } else if tag == 2 {
            Some(ClientMessageModel::Leave)
        } else if tag == 3 {
            Some(ClientMessageModel::Heartbeat)
        } else {
            None
        }
    }
}

/// The wire bytes of a server message: its two texts, in order.
pub open spec fn encode_server(m: ServerMessageModel) -> Seq<u8> {
    str_bytes(m.from) + str_bytes(m.message)
}

/// The server message at the start of `b`, if there is one; later bytes are
/// ignored.
pub open spec fn decode_server(b: Seq<u8>) -> Option<ServerMessageModel> {
    match decode_str(b) {
        Some((f, k)) => match decode_str(b.skip(k)) {
            Some((t, _)) => Some(ServerMessageModel { from: f, message: t }),
            None => None,
        },
        None => None,
    }
}

/// Every text of `m` fits the `u64` length prefix of the wire.
pub open spec fn client_fits_wire(m: ClientMessageModel) -> bool {
    match m {
        ClientMessageModel::Join { username } => encode_utf8(username).len() <= u64::MAX,
        ClientMessageModel::Send { message } => encode_utf8(message).len() <= u64::MAX,
        _ => true,
    }
}

/// Both texts of `m` fit the `u64` length prefix of the wire.
pub open spec fn server_fits_wire(m: ServerMessageModel) -> bool {
    &&& encode_utf8(m.from).len() <= u64::MAX
    &&& encode_utf8(m.message).len() <= u64::MAX
}


impl ClientMessage {
    /// Reads `json` as client message bytes; later bytes are ignored.
    pub fn from_json(json: &[u8]) -> (r: Result<Self, MessageError>)
        ensures
            r is Ok <==> decode_client(json@) is Some,
            r matches Ok(m) ==> decode_client(json@) == Some(m@),
            r matches Err(e) ==> e is Decode,
    {
        let tag = match read_u32(json) {
            Some(t) => t,
            None => return Err(MessageError::Decode),
        };
        if tag == 0 || tag == 1 {
            let (_, rest) = json.split_at(4);
            assert(rest@ == json@.skip(4));
            match read_string(rest) {
                Some(text) => {
                    if tag == 0 {
                        Ok(ClientMessage::Join { username: text })
                    } else {
                        Ok(ClientMessage::Send { message: text })
                    }
                },
                None => Err(MessageError::Decode),
            }
        } else if tag == 2 {
            Ok(ClientMessage::Leave)
        } else if tag == 3 {
            Ok(ClientMessage::Heartbeat)
        } else {
            Err(MessageError::Decode)
        }
    }

    /// The wire bytes of this message; never an error.
    pub fn to_json(&self) -> (r: Result<Vec<u8>, MessageError>)
        ensures
            r is Ok,
            r matches Ok(b) ==> b@ == encode_client(self@),
    {
        match self {
            ClientMessage::Join { username } => {
                let mut b = encode_u32(0);
                let mut t = encode_string(username);
                b.append(&mut t);
                Ok(b)
            },
            ClientMessage::Send { message } => {
                let mut b = encode_u32(1);
                let mut t = encode_string(message);
                b.append(&mut t);
                Ok(b)
            },
            ClientMessage::Leave => Ok(encode_u32(2)),
            ClientMessage::Heartbeat => Ok(encode_u32(3)),
        }
    }

    /// The message a typed line stands for (see `spec_parse`). A line with
    /// no word at all is left out: there is no first word to read.
    pub fn parse(json: &str) -> (r: Result<Self, MessageError>)
        requires
            words(json@).len() > 0,
        ensures
            r is Ok <==> spec_parse(json@) is Ok,
            r matches Ok(m) ==> spec_parse(json@) == Ok::<ClientMessageModel, Seq<char>>(m@),
            r matches Err(e) ==> e is Custom && spec_parse(json@) == Err::<
                ClientMessageModel,
                Seq<char>,
            >(e->Custom_0@),
    {
        let parts = split_words(json);
        assert(parts@[0]@ == words(json@)[0]);
        if lowercases_to_keyword(&parts[0], "join") {
            if parts.len() == 2 {
                assert(parts@[1]@ == words(json@)[1]);
                Ok(ClientMessage::Join { username: parts[1].clone() })
            } else {
                Err(MessageError::Custom(String::from_str("Invalid join message format")))
            }
        } else if lowercases_to_keyword(&parts[0], "send") {
            if parts.len() > 1 {
                Ok(ClientMessage::Send { message: join_from(&parts, 1) })
            } else {
                Err(MessageError::Custom(String::from_str("Invalid send message format")))
            }
        } else if lowercases_to_keyword(&parts[0], "leave") {
            if parts.len() == 1 {
                Ok(ClientMessage::Leave)
            } else {
                Err(MessageError::Custom(String::from_str("Invalid leave message format")))
            }
        } else {
            assert(parts.deep_view().skip(0) == parts.deep_view());
            Ok(ClientMessage::Send { message: join_from(&parts, 0) })
        }
    }

    /// What the server relays for this message from the user named `user`.
    pub fn parse_to_server_message(&self, user: &String) -> (r: ServerMessage)
        ensures
            r@ == relay_of(self@, user@),
    {
        match self {
            ClientMessage::Join { username } => ServerMessage {
                from: username.clone(),
                message: String::from_str("joined the chat"),
            },
            ClientMessage::Send { message } => ServerMessage {
                from: user.clone(),
                message: message.clone(),
            },
            ClientMessage::Leave => ServerMessage {
                from: user.clone(),
                message: String::from_str("left the chat"),
            },
            ClientMessage::Heartbeat => ServerMessage {
                from: String::from_str("server"),
                message: String::from_str("heartbeat"),
            },
        }
    }
}

impl ServerMessage {
    /// The wire bytes of this message; never an error.
    pub fn to_json(&self) -> (r: Result<Vec<u8>, MessageError>)
        ensures
            r is Ok,
            r matches Ok(b) ==> b@ == encode_server(self@),
    {
        let mut b = encode_string(&self.from);
        let mut t = encode_string(&self.message);
        b.append(&mut t);
        Ok(b)
    }

    /// Reads `json` as server message bytes; later bytes are ignored.
    pub fn from_json(json: &[u8]) -> (r: Result<Self, MessageError>)
        ensures
            r is Ok <==> decode_server(json@) is Some,
            r matches Ok(m) ==> decode_server(json@) == Some(m@),
            r matches Err(e) ==> e is Decode,
    {
        let from = match read_string(json) {
            Some(f) => f,
            None => return Err(MessageError::Decode),
        };
        proof {
            let n = decode_str(json@)->Some_0.1;
            let sub = json@.subrange(8, n);
            decode_utf8_encode_utf8(sub);
            assert(encode_utf8(from@) == sub);
            assert(8 + encode_utf8(from@).len() <= json@.len());
        }
        let fs = from.as_str();
        let len = fs.len();
        assert(fs.spec_bytes() == encode_utf8(from@));
        let total = json.len();
        assert(8 + len <= total);
        let k = 8 + len;
        let (_, rest) = json.split_at(k);
        assert(rest@ == json@.skip(k as int));
        match read_string(rest) {
            Some(message) => Ok(ServerMessage { from, message }),
            None => Err(MessageError::Decode),
        }
    }
}

/// Reading back the bytes written for a client message gives the message.
pub proof fn lemma_client_roundtrip(m: ClientMessageModel)
    requires
        client_fits_wire(m),
    ensures
        decode_client(encode_client(m)) == Some(m),
{
    match m {
        ClientMessageModel::Join { username } => {
            lemma_u32_roundtrip(0, str_bytes(username));
            lemma_str_roundtrip(username, Seq::empty());
            assert(str_bytes(username) + Seq::<u8>::empty() =~= str_bytes(username));
        },
        ClientMessageModel::Send { message } => {
            lemma_u32_roundtrip(1, str_bytes(message));
            lemma_str_roundtrip(message, Seq::empty());
            assert(str_bytes(message) + Seq::<u8>::empty() =~= str_bytes(message));
        },
        ClientMessageModel::Leave => {
            lemma_u32_roundtrip(2, Seq::empty());
            assert(u32_le_bytes(2) + Seq::<u8>::empty() =~= u32_le_bytes(2));
        },
        ClientMessageModel::Heartbeat => {
            lemma_u32_roundtrip(3, Seq::empty());
            assert(u32_le_bytes(3) + Seq::<u8>::empty() =~= u32_le_bytes(3));
        },
    }
}

/// Reading back the bytes written for a server message gives the message.
pub proof fn lemma_server_roundtrip(m: ServerMessageModel)
    requires
        server_fits_wire(m),
    ensures
        decode_server(encode_server(m)) == Some(m),
{
    let b = encode_server(m);
    lemma_str_roundtrip(m.from, str_bytes(m.message));
    let k = str_bytes(m.from).len() as int;
    assert(b.skip(k) =~= str_bytes(m.message) + Seq::<u8>::empty());
    lemma_str_roundtrip(m.message, Seq::empty());
}

/// A line with at least one word whose first word is none of `join`,
/// `send`, `leave` (in any letter case) is sent whole: a `Send` of all its
/// words joined by single spaces, one-word lines included.
pub proof fn lemma_free_text_is_sent(s: Seq<char>)
    requires
        words(s).len() > 0,
        !lowercases_to(words(s)[0], "join"@),
        !lowercases_to(words(s)[0], "send"@),
        !lowercases_to(words(s)[0], "leave"@),
    ensures
        spec_parse(s) == Ok::<ClientMessageModel, Seq<char>>(
            ClientMessageModel::Send { message: join_words(words(s)) },
        ),
{
}

/// Facts about the keyword spellings: a word lowercases to at most one of
/// them.
proof fn lemma_keywords_distinct(w: Seq<char>)
    ensures
        lowercases_to(w, "join"@) ==> !lowercases_to(w, "send"@) && !lowercases_to(w, "leave"@),
        lowercases_to(w, "send"@) ==> !lowercases_to(w, "leave"@),
{
    reveal_strlit("join");
    reveal_strlit("send");
    reveal_strlit("leave");
    assert("join"@.len() == 4 && "send"@.len() == 4 && "leave"@.len() == 5);
    assert("join"@[0] == 'j' && "send"@[0] == 's');
    if lowercases_to(w, "join"@) && lowercases_to(w, "send"@) {
        assert(ascii_lower_code(w[0]) == "join"@[0] as u32);
        assert(ascii_lower_code(w[0]) == "send"@[0] as u32);
    }
}

/// A `join` command (any letter case) with exactly one more word joins under
/// that word; with any other number of words it is refused with
/// "Invalid join message format".
pub proof fn lemma_join_command(s: Seq<char>)
    requires
        words(s).len() > 0,
        lowercases_to(words(s)[0], "join"@),
    ensures
        words(s).len() == 2 ==> spec_parse(s) == Ok::<ClientMessageModel, Seq<char>>(
            ClientMessageModel::Join { username: words(s)[1] },
        ),
        words(s).len() != 2 ==> spec_parse(s) == Err::<ClientMessageModel, Seq<char>>(
            "Invalid join message format"@,
        ),
{
}

/// A `send` command (any letter case) sends the words after it joined by
/// single spaces; alone it is refused with "Invalid send message format".
pub proof fn lemma_send_command(s: Seq<char>)
    requires
        words(s).len() > 0,
        lowercases_to(words(s)[0], "send"@),
    ensures
        words(s).len() > 1 ==> spec_parse(s) == Ok::<ClientMessageModel, Seq<char>>(
            ClientMessageModel::Send { message: join_words(words(s).skip(1)) },
        ),
        words(s).len() == 1 ==> spec_parse(s) == Err::<ClientMessageModel, Seq<char>>(
            "Invalid send message format"@,
        ),
{
    lemma_keywords_distinct(words(s)[0]);
}

/// A `leave` command (any letter case) alone leaves; with more words it is
/// refused with "Invalid leave message format".
pub proof fn lemma_leave_command(s: Seq<char>)
    requires
        words(s).len() > 0,
        lowercases_to(words(s)[0], "leave"@),
    ensures
        words(s).len() == 1 ==> spec_parse(s) == Ok::<ClientMessageModel, Seq<char>>(
            ClientMessageModel::Leave,
        ),
        words(s).len() != 1 ==> spec_parse(s) == Err::<ClientMessageModel, Seq<char>>(
            "Invalid leave message format"@,
        ),
{
    lemma_keywords_distinct(words(s)[0]);
}

/// What the server relays: a join is announced from the name it asks for,
/// unchanged, as "joined the chat"; a message is relayed from the sending
/// user with its text unchanged; a leave is announced from the sending user
/// as "left the chat"; a heartbeat gives the server's "heartbeat" notice.
pub proof fn lemma_relay_texts(m: ClientMessageModel, user: Seq<char>)
    ensures
        m matches ClientMessageModel::Join { username } ==> relay_of(m, user).from == username
            && relay_of(m, user).message == "joined the chat"@,
        m matches ClientMessageModel::Send { message } ==> relay_of(m, user).from == user
            && relay_of(m, user).message == message,
        m is Leave ==> relay_of(m, user).from == user && relay_of(m, user).message
            == "left the chat"@,
        m is Heartbeat ==> relay_of(m, user).from == "server"@ && relay_of(m, user).message
            == "heartbeat"@,
{
}

} // verus!
