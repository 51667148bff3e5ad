//! What the chat client makes of a typed line and of a frame from the
//! server.
use vstd::prelude::*;
use vstd::string::StringSliceAdditionalSpecFns;
use vstd::utf8::{decode_utf8, valid_utf8};
use crate::text::{split_words, words};
use crate::utils::{
    client_fits_wire, decode_client, decode_server, encode_client, encode_server,
    lemma_client_roundtrip, lemma_server_roundtrip, server_fits_wire, spec_parse, ServerMessageModel, ClientMessage, ClientMessageModel,
    MessageError, ServerMessage,
};

verus! {

/// `std::str::from_utf8`. Its contract: a string exactly when `b` is valid
/// UTF-8, and then the string's bytes are `b`.
#[verifier::external_body]
fn str_from_utf8(b: &[u8]) -> (r: Option<&str>)
    ensures
        r is Some <==> valid_utf8(b@),
        r matches Some(s) ==> s.spec_bytes() == b@,
{
    std::str::from_utf8(b).ok()
}

/// The frame a typed line asks to send: nothing for a line with no word,
/// else the line read as a message and its bytes, or why it cannot be read.
pub open spec fn spec_outgoing(line: Seq<char>) -> Option<Result<Seq<u8>, Seq<char>>> {
    if words(line).len() == 0 {
        None
    } else {
        match spec_parse(line) {
            Ok(m) => Some(Ok(encode_client(m))),
            Err(t) => Some(Err(t)),
        }
    }
}

/// The bytes to send for a typed line, as `spec_outgoing` says.
pub fn outgoing_frame(line: &str) -> (r: Option<Result<Vec<u8>, MessageError>>)
    ensures
        r is None <==> spec_outgoing(line@) is None,
        r matches Some(Ok(b)) ==> spec_outgoing(line@) == Some(
            Ok::<Seq<u8>, Seq<char>>(b@),
        ),
        r matches Some(Err(e)) ==> e is Custom && spec_outgoing(line@) == Some(
            Err::<Seq<u8>, Seq<char>>(e->Custom_0@),
        ),
{
    let ws = split_words(line);
    if ws.len() == 0 {
        return None;
    }
    match ClientMessage::parse(line) {
        Ok(m) => Some(m.to_json()),
        Err(e) => Some(Err(e)),
    }
}

/// Whether a frame the client sent asks to leave, which ends its session.
pub fn closes_session(frame: &[u8]) -> (r: bool)
    ensures
        r == (decode_client(frame@) == Some(ClientMessageModel::Leave)),
{
    match ClientMessage::from_json(frame) {
        Ok(ClientMessage::Leave) => true,
        _ => false,
    }
}

/// What the client shows for a frame from the server: a relayed message as
/// `from: message`, else the frame's text, or nothing where the frame is
/// neither.
pub open spec fn spec_render(b: Seq<u8>) -> Option<Seq<char>> {
    match decode_server(b) {
        Some(m) => Some(m.from + ": "@ + m.message),
        None => if valid_utf8(b) {
            Some(decode_utf8(b))
        } else {
            None
        },
    }
}

/// The line to show for a frame from the server, as `spec_render` says.
pub fn render_frame(data: &[u8]) -> (r: Option<String>)
    ensures
        r is Some <==> spec_render(data@) is Some,
        r matches Some(s) ==> spec_render(data@) == Some(s@),
{
    match ServerMessage::from_json(data) {
        Ok(m) => {
            let mut line = m.from;
            line.append(": ");
            line.append(m.message.as_str());
            Some(line)
        },
        Err(_) => match str_from_utf8(data) {
            Some(text) => {
                proof {
                    vstd::utf8::encode_utf8_decode_utf8(text@);
                }
                Some(String::from_str(text))
            },
            None => None,
        },
    }
}


/// A typed line that reads as a leave command yields a frame that ends the
/// client's session.
pub proof fn lemma_typed_leave_ends_session(line: Seq<char>)
    requires
        words(line).len() > 0,
        spec_parse(line) == Ok::<ClientMessageModel, Seq<char>>(ClientMessageModel::Leave),
    ensures
        spec_outgoing(line) matches Some(Ok(b)) && decode_client(b) == Some(
            ClientMessageModel::Leave,
        ),
{
    lemma_client_roundtrip(ClientMessageModel::Leave);
}

/// Every line with at least one word is sent: a line that reads as a
/// message `m` yields a frame that reads back as `m`, whether it is a
/// command or free text; a line that does not read yields its error text;
/// a line with no word yields nothing.
pub proof fn lemma_every_typed_line_is_sent(line: Seq<char>)
    ensures
        words(line).len() == 0 ==> spec_outgoing(line) is None,
        words(line).len() > 0 ==> (spec_parse(line) matches Ok(m) ==> (spec_outgoing(line) matches Some(Ok(b))
            && (client_fits_wire(m) ==> decode_client(b) == Some(m)))),
        words(line).len() > 0 ==> (spec_parse(line) matches Err(t) ==> spec_outgoing(line)
            == Some(Err::<Seq<u8>, Seq<char>>(t))),
{
    if words(line).len() > 0 {
        if let Ok(m) = spec_parse(line) {
            if client_fits_wire(m) {
                lemma_client_roundtrip(m);
            }
        }
    }
}

/// A frame that holds a relayed message is shown as `from: message`; any
/// other frame of valid UTF-8 is shown as exactly its text, whatever
/// characters (newlines included) it holds; only a frame that is neither is
/// not shown.
pub proof fn lemma_render_shows_text(b: Seq<u8>)
    ensures
        decode_server(b) matches Some(m) ==> spec_render(b) == Some(m.from + ": "@ + m.message),
        decode_server(b) is None && valid_utf8(b) ==> spec_render(b) == Some(decode_utf8(b)),
        decode_server(b) is None && !valid_utf8(b) ==> spec_render(b) is None,
{
}

/// A relayed message that the server sends is shown as its author's name,
/// a colon and a space, and its text.
pub proof fn lemma_render_relayed(m: ServerMessageModel)
    requires
        server_fits_wire(m),
    ensures
        spec_render(encode_server(m)) == Some(m.from + ": "@ + m.message),
{
    lemma_server_roundtrip(m);
}

} // verus!
