//! A handshake accomplishes two things:
//!
//! 1. The client learns the server node's fabric addresses and inserts them into
//!    its local address vector so a transfer the node initiates is accepted.
//! 2. The node learns the client's fabric address via `LO.HELLO`.
//!
//! The second is why a session belongs to a connection. The node holds the
//! client's address against the connection the handshake arrived on, so a
//! transfer that reaches it on any other connection finds no session.

use vstd::prelude::*;

verus! {

/// The outcome of one handshake with one server node.
#[derive(Debug, Clone, PartialEq, Eq)]
pub struct Handshake {
    /// Every fabric address the server node may initiate a transfer from.
    pub peers: Vec<Vec<u8>>,
}

} // verus!
