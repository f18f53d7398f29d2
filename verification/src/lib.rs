//! A reverse-tunnel ingress core: an agent next to a private backend opens one
//! outbound connection to a public gateway, authenticates, registers a domain
//! name, and multiplexes many public client streams over that single framed,
//! encrypted channel.
//!
//! This crate holds the protocol logic itself: the wire codec (framing,
//! handshake, message encoding), the key agreement and stream cipher state,
//! and the session state machines of both endpoints. Transport I/O and task
//! scheduling live outside, feeding bytes and events in and carrying bytes
//! and actions out.
use vstd::prelude::*;

pub mod agent;
pub mod server;
pub mod wire;

verus! {

/// Everything that can go wrong inside the protocol core.
#[derive(Debug)]
pub enum Error {
    /// The handshake's magic number did not match.
    InvalidMagic,
    /// The handshake carried an unsupported protocol version.
    InvalidVersion(u8),
    /// A frame header carried an unknown kind byte.
    InvalidHeader,
    /// A message arrived in a state that does not accept it.
    UnexpectedMessage,
    /// The peer reported an error over the wire.
    Remote(String),
    /// The authentication hook rejected the agent's token.
    AuthenticationError(String),
    /// Key exchange or cipher failure (for instance an invalid peer public key).
    Encryption,
}

} // verus!
