//! Message model, text commands, wire format and connection decisions of a
//! WebSocket chat.
pub mod client;
pub mod session;
pub mod text;
pub mod utils;
pub mod wire;
