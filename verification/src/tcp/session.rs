//! The decisions of a TCP server: which connections are admitted and what
//! is done with each message that arrives.
use vstd::prelude::*;
use vstd::wrapping::u64_specs;
use crate::tcp::message::{MessageType, TcpMessage};

verus! {

/// Hands out connection ids, one after another from 1, to the connections
/// that the limit lets in.
pub struct ConnectionAdmission {
    next_id: u64,
}

impl ConnectionAdmission {
    /// The id that the next accepted connection gets.
    pub closed spec fn next(&self) -> u64 {
        self.next_id
    }

    pub fn new() -> (r: ConnectionAdmission)
        ensures
            r.next() == 1,
    {
        ConnectionAdmission { next_id: 1 }
    }

    /// Accepts a new connection while fewer than `max_connections` are
    /// open, giving it the next id; ids wrap around after `u64::MAX`.
    pub fn accept_connection(&mut self, open_connections: usize, max_connections: usize) -> (r: Option<u64>)
        ensures
            open_connections >= max_connections ==> r is None
                && final(self).next() == old(self).next(),
            open_connections < max_connections ==> r == Some(old(self).next())
                && final(self).next() == u64_specs::wrapping_add(old(self).next(), 1),
    {
        if open_connections >= max_connections {
            return None;
        }
        let id = self.next_id;
        self.next_id = self.next_id.wrapping_add(1);
        Some(id)
    }
}

/// What a connection does with a message that arrived.
#[derive(Debug, Clone, PartialEq, Eq)]
pub enum MessageReaction {
    /// Answer a ping with a pong carrying its time stamp.
    ReplyPong(u64),
    /// A pong: only its round trip is of interest.
    RoundTrip,
    /// Hand the message to the application, and send it on to every
    /// connection when it is a broadcast.
    Deliver { rebroadcast: bool },
}

/// What is done with a message that arrived.
pub open spec fn reaction_to(msg: TcpMessage) -> MessageReaction {
    match msg.msg_type {
        MessageType::Ping => MessageReaction::ReplyPong(msg.timestamp),
        MessageType::Pong => MessageReaction::RoundTrip,
        MessageType::Broadcast => MessageReaction::Deliver { rebroadcast: true },
        _ => MessageReaction::Deliver { rebroadcast: false },
    }
}

/// Decides what is done with a message that arrived.
pub fn react_to_message(msg: &TcpMessage) -> (r: MessageReaction)
    ensures
        r == reaction_to(*msg),
{
    match msg.msg_type {
        MessageType::Ping => MessageReaction::ReplyPong(msg.timestamp),
        MessageType::Pong => MessageReaction::RoundTrip,
        MessageType::Broadcast => MessageReaction::Deliver { rebroadcast: true },
        _ => MessageReaction::Deliver { rebroadcast: false },
    }
}

} // verus!
