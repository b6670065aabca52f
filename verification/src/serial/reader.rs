//! The decisions of reading from and writing to a port: what each read
//! means, when a frame is complete, and what is written for given data.
//!
//! The reads and writes themselves happen outside this library; a reader
//! hands each outcome of a read to `FrameReader::step` and acts on the
//! answer.
use vstd::prelude::*;
use crate::serial::error::SerialError;
use crate::serial::protocol::{ParseResult, ProtocolParser};
use crate::serial::types::SerialOpResult;
use crate::text::{push_str_chars, string_from_chars};

verus! {

/// The outcome of one read of the port.
#[derive(Debug, Clone)]
pub enum ReadEvent {
    /// Bytes arrived (at least one).
    Data(Vec<u8>),
    /// The read returned no bytes: the other end closed.
    Closed,
    /// The read timed out.
    TimedOut,
    /// The read failed; the message of the I/O error.
    Failed(String),
}

/// What a framed read does next.
#[derive(Debug)]
pub enum ReadAction {
    /// Read again.
    Continue,
    /// Stop with this result.
    Finish(SerialOpResult<Vec<u8>>),
}

/// The answer to a parse of the collected bytes.
pub open spec fn action_of_parse(pr: ParseResult) -> ReadAction {
    match pr {
        ParseResult::Complete(frame, _) => ReadAction::Finish(Ok(frame)),
        ParseResult::Incomplete => ReadAction::Continue,
        ParseResult::Error(m) => ReadAction::Finish(Err(SerialError::ProtocolError(m))),
    }
}

/// Collects the bytes of a framed read until the parser finds a frame.
pub struct FrameReader {
    buffer: Vec<u8>,
}

impl FrameReader {
    /// The bytes collected so far.
    pub closed spec fn collected(&self) -> Seq<u8> {
        self.buffer@
    }

    /// A reader with nothing collected.
    pub fn new() -> (r: FrameReader)
        ensures
            r.collected() == Seq::<u8>::empty(),
    {
        FrameReader { buffer: Vec::new() }
    }

    /// Takes the outcome of one read: new bytes are collected and the
    /// parser looks for a frame at the start of all that was collected; a
    /// closed port, a timeout or a failed read ends the read with its error.
    pub fn step(&mut self, parser: &dyn ProtocolParser, event: ReadEvent) -> (r: ReadAction)
        ensures
            match event {
                ReadEvent::Data(bytes) => {
                    &&& final(self).collected() == old(self).collected() + bytes@
                    &&& exists|pr: ParseResult|
                        parser.parses_as(final(self).collected(), pr) && r == action_of_parse(pr)
                },
                ReadEvent::Closed => {
                    &&& final(self).collected() == old(self).collected()
                    &&& r matches ReadAction::Finish(Err(SerialError::NotConnected(m)))
                    &&& m@ == "连接已关闭"@
                },
                ReadEvent::TimedOut => {
                    &&& final(self).collected() == old(self).collected()
                    &&& r matches ReadAction::Finish(Err(SerialError::Timeout(m)))
                    &&& m@ == "读取超时，未收到完整帧"@
                },
                ReadEvent::Failed(e) => {
                    &&& final(self).collected() == old(self).collected()
                    &&& r matches ReadAction::Finish(Err(SerialError::IoError(m)))
                    &&& m@ == "读取失败: "@ + e@
                },
            },
    {
        match event {
            ReadEvent::Data(bytes) => {
                crate::wire::push_all(&mut self.buffer, bytes.as_slice());
                let pr = parser.parse_frame(self.buffer.as_slice());
                let ghost seen = pr;
                let r = match pr {
                    ParseResult::Complete(frame, _) => ReadAction::Finish(Ok(frame)),
                    ParseResult::Incomplete => ReadAction::Continue,
                    ParseResult::Error(m) => ReadAction::Finish(Err(SerialError::ProtocolError(m))),
                };
                assert(r == action_of_parse(seen));
                r
            },
            ReadEvent::Closed => {
                let mut v: Vec<char> = Vec::new();
                push_str_chars(&mut v, "连接已关闭");
                ReadAction::Finish(Err(SerialError::NotConnected(string_from_chars(v))))
            },
            ReadEvent::TimedOut => {
                let mut v: Vec<char> = Vec::new();
                push_str_chars(&mut v, "读取超时，未收到完整帧");
                ReadAction::Finish(Err(SerialError::Timeout(string_from_chars(v))))
            },
            ReadEvent::Failed(e) => {
                let mut v: Vec<char> = Vec::new();
                push_str_chars(&mut v, "读取失败: ");
                push_str_chars(&mut v, e.as_str());
                ReadAction::Finish(Err(SerialError::IoError(string_from_chars(v))))
            },
        }
    }
}

/// The result of a single unframed read.
pub fn raw_read_result(event: ReadEvent) -> (r: SerialOpResult<Vec<u8>>)
    ensures
        match event {
            ReadEvent::Data(bytes) => r matches Ok(v) && v@ == bytes@,
            ReadEvent::Closed => r matches Err(SerialError::NotConnected(m)) && m@ == "连接已关闭"@,
            ReadEvent::TimedOut => r matches Err(SerialError::Timeout(m)) && m@ == "读取超时"@,
            ReadEvent::Failed(e) => r matches Err(SerialError::IoError(m)) && m@ == "读取失败: "@
                + e@,
        },
{
    let mut v: Vec<char> = Vec::new();
    match event {
        ReadEvent::Data(bytes) => Ok(bytes),
        ReadEvent::Closed => {
            push_str_chars(&mut v, "连接已关闭");
            Err(SerialError::NotConnected(string_from_chars(v)))
        },
        ReadEvent::TimedOut => {
            push_str_chars(&mut v, "读取超时");
            Err(SerialError::Timeout(string_from_chars(v)))
        },
        ReadEvent::Failed(e) => {
            push_str_chars(&mut v, "读取失败: ");
            push_str_chars(&mut v, e.as_str());
            Err(SerialError::IoError(string_from_chars(v)))
        },
    }
}

/// The error of a read or write on a port that is not open.
pub fn not_open_error() -> (r: SerialError)
    ensures
        r matches SerialError::NotConnected(m) && m@ == "请先打开串口"@,
{
    let mut v: Vec<char> = Vec::new();
    push_str_chars(&mut v, "请先打开串口");
    SerialError::NotConnected(string_from_chars(v))
}

/// The error of a failed write, from the I/O error's message.
pub fn write_error(message: &str) -> (r: SerialError)
    ensures
        r matches SerialError::IoError(m) && m@ == "写入失败: "@ + message@,
{
    let mut v: Vec<char> = Vec::new();
    push_str_chars(&mut v, "写入失败: ");
    push_str_chars(&mut v, message);
    SerialError::IoError(string_from_chars(v))
}

} // verus!
