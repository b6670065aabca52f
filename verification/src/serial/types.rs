//! Serial line settings and connection state.
use vstd::prelude::*;
use crate::text::{push_chars, push_str_chars, str_chars, string_from_chars};

verus! {

/// State of a serial connection.
#[derive(Debug, Clone, PartialEq, Eq)]
pub enum ConnectionStatus {
    Disconnected,
    Connecting,
    Connected,
    Failed(String),
}

/// The text shown for a connection state.
pub open spec fn status_text(s: ConnectionStatus) -> Seq<char> {
    match s {
        ConnectionStatus::Disconnected => "已断开"@,
        ConnectionStatus::Connecting => "连接中"@,
        ConnectionStatus::Connected => "已连接"@,
        ConnectionStatus::Failed(m) => "连接失败: "@ + m@,
    }
}

impl ConnectionStatus {
    /// The text shown for the state.
    pub fn to_string(&self) -> (r: String)
        ensures
            r@ == status_text(*self),
    {
        let mut cs: Vec<char> = Vec::new();
        match self {
            ConnectionStatus::Disconnected => push_str_chars(&mut cs, "已断开"),
            ConnectionStatus::Connecting => push_str_chars(&mut cs, "连接中"),
            ConnectionStatus::Connected => push_str_chars(&mut cs, "已连接"),
            ConnectionStatus::Failed(m) => {
                push_str_chars(&mut cs, "连接失败: ");
                push_chars(&mut cs, &str_chars(m.as_str()));
            },
        }
        string_from_chars(cs)
    }
}

/// Data bits per character.
#[derive(Debug, Clone, Copy, PartialEq, Eq, Structural)]
pub enum DataBits {
    Five,
    Six,
    Seven,
    Eight,
}

impl DataBits {
    /// The number of bits.
    pub fn value(&self) -> (r: u8)
        ensures
            r == match *self {
                DataBits::Five => 5u8,
                DataBits::Six => 6u8,
                DataBits::Seven => 7u8,
                DataBits::Eight => 8u8,
            },
    {
        match self {
            DataBits::Five => 5,
            DataBits::Six => 6,
            DataBits::Seven => 7,
            DataBits::Eight => 8,
        }
    }
}

impl Default for DataBits {
    fn default() -> (r: DataBits)
        ensures
            r == DataBits::Eight,
    {
        DataBits::Eight
    }
}

/// Stop bits per character.
#[derive(Debug, Clone, Copy, PartialEq, Eq, Structural)]
pub enum StopBits {
    One,
    Two,
}

impl StopBits {
    /// The number of stop bits.
    pub fn value(&self) -> (r: u8)
        ensures
            r == match *self {
                StopBits::One => 1u8,
                StopBits::Two => 2u8,
            },
    {
        match self {
            StopBits::One => 1,
            StopBits::Two => 2,
        }
    }
}

impl Default for StopBits {
    fn default() -> (r: StopBits)
        ensures
            r == StopBits::One,
    {
        StopBits::One
    }
}

#[derive(Debug, Clone, Copy, PartialEq, Eq, Structural)]
pub enum Parity {
    /// No parity bit.
    NoParity,
    Odd,
    Even,
}

impl Default for Parity {
    fn default() -> (r: Parity)
        ensures
            r == Parity::NoParity,
    {
        Parity::NoParity
    }
}

#[derive(Debug, Clone, Copy, PartialEq, Eq, Structural)]
pub enum FlowControl {
    /// No flow control.
    NoFlowControl,
    Software,
    Hardware,
}

impl Default for FlowControl {
    fn default() -> (r: FlowControl)
        ensures
            r == FlowControl::NoFlowControl,
    {
        FlowControl::NoFlowControl
    }
}

/// Result of a serial operation.
pub type SerialOpResult<T> = Result<T, crate::serial::error::SerialError>;

} // verus!
