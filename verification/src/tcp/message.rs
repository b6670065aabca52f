//! The messages exchanged over TCP: a kind, a text payload and a time stamp.
//!
//! On the wire each message is JSON behind a 4-byte big-endian length; the
//! JSON encoding and the framing are done outside this library.
use vstd::prelude::*;
use crate::text::{decimal_chars, decimal_text, push_chars, push_str_chars, string_from_chars};

verus! {

/// The kind of a message.
#[derive(Debug, Clone, PartialEq, Eq)]
pub enum MessageType {
    Data,
    /// Sent on by the server to every connection.
    Broadcast,
    Ping,
    Pong,
    Custom(String),
}

/// The text shown for a kind of message.
pub open spec fn message_type_text(t: MessageType) -> Seq<char> {
    match t {
        MessageType::Data => "Data"@,
        MessageType::Broadcast => "Broadcast"@,
        MessageType::Ping => "Ping"@,
        MessageType::Pong => "Pong"@,
        MessageType::Custom(s) => "Custom("@ + s@ + ")"@,
    }
}

impl MessageType {
    /// The text shown for the kind.
    pub fn to_string(&self) -> (r: String)
        ensures
            r@ == message_type_text(*self),
    {
        let mut v: Vec<char> = Vec::new();
        match self {
            MessageType::Data => push_str_chars(&mut v, "Data"),
            MessageType::Broadcast => push_str_chars(&mut v, "Broadcast"),
            MessageType::Ping => push_str_chars(&mut v, "Ping"),
            MessageType::Pong => push_str_chars(&mut v, "Pong"),
            MessageType::Custom(s) => {
                push_str_chars(&mut v, "Custom(");
                push_str_chars(&mut v, s.as_str());
                push_str_chars(&mut v, ")");
            },
        }
        string_from_chars(v)
    }
}

/// A message.
#[derive(Debug, Clone)]
pub struct TcpMessage {
    pub msg_type: MessageType,
    pub payload: String,
    /// Milliseconds since the Unix epoch when the message was made.
    pub timestamp: u64,
}

/// `SystemTime::now()`: the machine's clock, of which nothing is promised.
#[verifier::external_body]
fn system_now() -> (r: std::time::SystemTime) {
    std::time::SystemTime::now()
}

/// `SystemTime::duration_since(UNIX_EPOCH)`, in whole milliseconds (0 for
/// a time before the epoch); nothing is promised of the value.
#[verifier::external_body]
fn unix_millis_of(t: std::time::SystemTime) -> (r: u64) {
    t.duration_since(std::time::UNIX_EPOCH).unwrap_or_default().as_millis() as u64
}

/// The current time as milliseconds since the Unix epoch.
fn unix_millis() -> (r: u64) {
    unix_millis_of(system_now())
}

impl TcpMessage {
    /// A data message, stamped with the current time.
    pub fn data(payload: &str) -> (r: TcpMessage)
        ensures
            r.msg_type == MessageType::Data,
            r.payload@ == payload@,
    {
        TcpMessage { msg_type: MessageType::Data, payload: payload.to_owned(), timestamp: unix_millis() }
    }

    /// A message for every connection, stamped with the current time.
    pub fn broadcast(payload: &str) -> (r: TcpMessage)
        ensures
            r.msg_type == MessageType::Broadcast,
            r.payload@ == payload@,
    {
        TcpMessage {
            msg_type: MessageType::Broadcast,
            payload: payload.to_owned(),
            timestamp: unix_millis(),
        }
    }

    /// A ping with an empty payload, stamped with the current time.
    pub fn ping() -> (r: TcpMessage)
        ensures
            r.msg_type == MessageType::Ping,
            r.payload@ == Seq::<char>::empty(),
    {
        TcpMessage { msg_type: MessageType::Ping, payload: String::new(), timestamp: unix_millis() }
    }

    /// The answer to a ping: its payload is the ping's time stamp in
    /// decimal.
    pub fn pong(original_timestamp: u64) -> (r: TcpMessage)
        ensures
            r.msg_type == MessageType::Pong,
            r.payload@ == decimal_text(original_timestamp as nat),
    {
        let digits = decimal_chars(original_timestamp);
        let mut v: Vec<char> = Vec::new();
        push_chars(&mut v, &digits);
        TcpMessage {
            msg_type: MessageType::Pong,
            payload: string_from_chars(v),
            timestamp: unix_millis(),
        }
    }

    /// A message of a kind named by the application.
    pub fn custom(msg_type: &str, payload: &str) -> (r: TcpMessage)
        ensures
            r.msg_type matches MessageType::Custom(t) && t@ == msg_type@,
            r.payload@ == payload@,
    {
        TcpMessage {
            msg_type: MessageType::Custom(msg_type.to_owned()),
            payload: payload.to_owned(),
            timestamp: unix_millis(),
        }
    }

    pub fn is_ping(&self) -> (r: bool)
        ensures
            r == (self.msg_type == MessageType::Ping),
    {
        match self.msg_type {
            MessageType::Ping => true,
            _ => false,
        }
    }

    pub fn is_pong(&self) -> (r: bool)
        ensures
            r == (self.msg_type == MessageType::Pong),
    {
        match self.msg_type {
            MessageType::Pong => true,
            _ => false,
        }
    }

    /// A ping or a pong.
    pub fn is_heartbeat(&self) -> (r: bool)
        ensures
            r == (self.msg_type == MessageType::Ping || self.msg_type == MessageType::Pong),
    {
        self.is_ping() || self.is_pong()
    }

    /// Milliseconds from the message's time stamp to `now`, or 0 for a
    /// stamp in the future.
    pub fn elapsed_since(&self, now: u64) -> (r: u64)
        ensures
            r == (if now >= self.timestamp {
                now - self.timestamp
            } else {
                0
            }),
    {
        now.saturating_sub(self.timestamp)
    }

    /// Milliseconds from the message's time stamp to the current time, or
    /// 0 for a stamp in the future: the round trip of a pong's ping.
    pub fn elapsed_millis(&self) -> (r: u64)
        ensures
            r <= u64::MAX - self.timestamp,
    {
        let now = unix_millis();
        self.elapsed_since(now)
    }
}

} // verus!
