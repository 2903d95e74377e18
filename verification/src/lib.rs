//! Core of a keyword-triggered chat bot: it classifies the events of a
//! real-time messaging session, matches message text against a configured
//! keyword list, and decides which media lookups and outbound replies follow.
//!
//! Network traffic (the messaging connection and the media-lookup HTTP call)
//! stays outside this crate; the functions here work on the plain values that
//! such a connection delivers and state exactly what they decide.
//!
//! Two behaviors are fixed here, deliberately: the keyword scan runs in
//! configured order and stops at the first keyword that occurs, so one
//! message asks for at most one lookup; and the bot is bound to one channel,
//! whose configured name is resolved to an id once, when the connection's
//! handshake delivers the channel listing — every reply of the session goes
//! to that id.

pub mod channels;
pub mod config;
pub mod handler;
pub mod keywords;
pub mod lookup;
pub mod text;
