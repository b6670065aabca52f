//! Framing of a serial byte stream.
use vstd::prelude::*;
use crate::text::{decimal_chars, decimal_text, push_chars, push_str_chars, string_from_chars};
use crate::wire::{be16, be32, get_be16, get_be32, get_le16, get_le32, le16, le32};

verus! {

/// The result of looking for one frame at the start of a buffer.
#[derive(Debug, Clone)]
pub enum ParseResult {
    /// A frame and the number of buffer bytes it used.
    Complete(Vec<u8>, usize),
    /// More bytes are needed.
    Incomplete,
    /// The buffer can never hold a valid frame.
    Error(String),
}

/// A framing rule: how frames are found in and written to a byte stream.
pub trait ProtocolParser: Send + Sync {
    /// Whether `r` is what looking for a frame at the start of `buffer` gives.
    spec fn parses_as(&self, buffer: Seq<u8>, r: ParseResult) -> bool;

    /// Whether `frame` is the framing of `data`.
    spec fn frames_as(&self, data: Seq<u8>, frame: Seq<u8>) -> bool;

    /// Whether `data` can be framed.
    spec fn can_frame(&self, data: Seq<u8>) -> bool;

    /// Looks for one frame at the start of `buffer`.
    fn parse_frame(&self, buffer: &[u8]) -> (r: ParseResult)
        ensures
            self.parses_as(buffer@, r),
    ;

    /// Frames `data`.
    fn encode_frame(&self, data: &[u8]) -> (r: Vec<u8>)
        requires
            self.can_frame(data@),
        ensures
            self.frames_as(data@, r@),
    ;
}

/// The message of a frame longer than the limit.
pub open spec fn too_long_message(len: nat, max: nat) -> Seq<char> {
    "帧长度超过最大限制: "@ + decimal_text(len) + " > "@ + decimal_text(max)
}

fn too_long_error(len: u64, max: u64) -> (r: ParseResult)
    ensures
        r matches ParseResult::Error(m) && m@ == too_long_message(len as nat, max as nat),
{
    let mut cs: Vec<char> = Vec::new();
    push_str_chars(&mut cs, "帧长度超过最大限制: ");
    push_chars(&mut cs, &decimal_chars(len));
    push_str_chars(&mut cs, " > ");
    push_chars(&mut cs, &decimal_chars(max));
    ParseResult::Error(string_from_chars(cs))
}

/// `d` occurs in `b` at `i`.
pub open spec fn occurs_at(b: Seq<u8>, d: Seq<u8>, i: int) -> bool {
    0 <= i && i + d.len() <= b.len() && b.subrange(i, i + d.len()) == d
}

/// Frames end at a delimiter.
#[derive(Debug, Clone)]
pub struct DelimiterParser {
    delimiter: Vec<u8>,
    include_delimiter: bool,
    max_frame_length: usize,
}

impl DelimiterParser {
    pub closed spec fn delimiter_spec(&self) -> Seq<u8> {
        self.delimiter@
    }

    pub closed spec fn includes_delimiter(&self) -> bool {
        self.include_delimiter
    }

    pub closed spec fn max_length(&self) -> nat {
        self.max_frame_length as nat
    }

    /// A parser for frames ending at `delimiter`, which is left out of the
    /// frames; frames are at most 64 KiB.
    pub fn new(delimiter: &[u8]) -> (r: DelimiterParser)
        ensures
            r.delimiter_spec() == delimiter@,
            !r.includes_delimiter(),
            r.max_length() == 64 * 1024,
    {
        DelimiterParser {
            delimiter: crate::wire::copy_range(delimiter, 0, delimiter.len()),
            include_delimiter: false,
            max_frame_length: 64 * 1024,
        }
    }

    /// The same parser, keeping the delimiter in the frames or not.
    pub fn include_delimiter(self, keep: bool) -> (r: DelimiterParser)
        ensures
            r.delimiter_spec() == self.delimiter_spec(),
            r.includes_delimiter() == keep,
            r.max_length() == self.max_length(),
    {
        DelimiterParser { include_delimiter: keep, ..self }
    }

    /// The same parser with buffers longer than `max_length` refused.
    pub fn max_frame_length(self, max_length: usize) -> (r: DelimiterParser)
        ensures
            r.delimiter_spec() == self.delimiter_spec(),
            r.includes_delimiter() == self.includes_delimiter(),
            r.max_length() == max_length,
    {
        DelimiterParser { max_frame_length: max_length, ..self }
    }

    fn matches_at(&self, buffer: &[u8], i: usize) -> (r: bool)
        requires
            i < buffer@.len(),
        ensures
            r == occurs_at(buffer@, self.delimiter@, i as int),
    {
        let n = self.delimiter.len();
        if buffer.len() - i < n {
            return false;
        }
        let mut k: usize = 0;
        while k < n
            invariant
                k <= n == self.delimiter@.len(),
                i + n <= buffer.len(),
                forall|j: int| 0 <= j < k ==> buffer@[i + j] == self.delimiter@[j],
            decreases n - k,
        {
            if buffer[i + k] != self.delimiter[k] {
                assert(buffer@.subrange(i as int, i + n)[k as int] != self.delimiter@[k as int]);
                return false;
            }
            k = k + 1;
        }
        assert(buffer@.subrange(i as int, i + n) =~= self.delimiter@);
        true
    }
}

/// The first place at which `d` occurs in `b`, looking only at starts
/// before the end of `b`.
pub open spec fn first_delimiter(b: Seq<u8>, d: Seq<u8>, i: int) -> bool {
    0 <= i < b.len() && occurs_at(b, d, i) && forall|j: int| 0 <= j < i ==> !occurs_at(b, d, j)
}

/// `f` and `used` are the frame and the byte count for a first delimiter at
/// `i`: the delimiter is always used up, and is part of the frame only where
/// it is kept.
pub open spec fn delimiter_complete(b: Seq<u8>, d: Seq<u8>, keep: bool, f: Seq<u8>, used: usize, i: int) -> bool {
    first_delimiter(b, d, i) && used == i + d.len() && f == b.subrange(
        0,
        if keep {
            i + d.len()
        } else {
            i
        },
    )
}

impl ProtocolParser for DelimiterParser {
    /// A buffer over the limit is an error; else the frame is everything
    /// before the first delimiter (and the delimiter too where it is kept),
    /// and the bytes up to the end of the delimiter are used up; with no
    /// delimiter the frame is incomplete.
    open spec fn parses_as(&self, buffer: Seq<u8>, r: ParseResult) -> bool {
        let d = self.delimiter_spec();
        if buffer.len() > self.max_length() {
            r matches ParseResult::Error(m) && m@ == too_long_message(buffer.len(), self.max_length())
        } else {
            match r {
                ParseResult::Complete(f, used) => exists|i: int|
                    #[trigger] delimiter_complete(buffer, d, self.includes_delimiter(), f@, used, i),
                ParseResult::Incomplete => forall|i: int|
                    0 <= i < buffer.len() ==> !#[trigger] occurs_at(buffer, d, i),
                ParseResult::Error(_) => false,
            }
        }
    }

    open spec fn frames_as(&self, data: Seq<u8>, frame: Seq<u8>) -> bool {
        frame == data + self.delimiter_spec()
    }

    open spec fn can_frame(&self, data: Seq<u8>) -> bool {
        data.len() + self.delimiter_spec().len() <= usize::MAX
    }

    fn parse_frame(&self, buffer: &[u8]) -> (r: ParseResult) {
        if buffer.len() > self.max_frame_length {
            return too_long_error(buffer.len() as u64, self.max_frame_length as u64);
        }
        let mut i: usize = 0;
        while i < buffer.len()
            invariant
                i <= buffer@.len(),
                buffer@.len() <= self.max_frame_length,
                forall|j: int| 0 <= j < i ==> !#[trigger] occurs_at(buffer@, self.delimiter@, j),
            decreases buffer@.len() - i,
        {
            if self.matches_at(buffer, i) {
                let consumed = i + self.delimiter.len();
                let frame_end = if self.include_delimiter {
                    consumed
                } else {
                    i
                };
                let frame_data = crate::wire::copy_range(buffer, 0, frame_end);
                let r = ParseResult::Complete(frame_data, consumed);
                assert(delimiter_complete(
                    buffer@,
                    self.delimiter_spec(),
                    self.includes_delimiter(),
                    frame_data@,
                    consumed,
                    i as int,
                ));
                assert(!(buffer@.len() > self.max_length()));
                assert(exists|j: int|
                    #[trigger] delimiter_complete(buffer@, self.delimiter_spec(), self.includes_delimiter(), frame_data@, consumed, j));
                assert(r->Complete_0@ == frame_data@);
                assert(r->Complete_1 == consumed);
                return r;
            }
            i = i + 1;
        }
        ParseResult::Incomplete
    }

    fn encode_frame(&self, data: &[u8]) -> (r: Vec<u8>) {
        let mut frame = crate::wire::copy_range(data, 0, data.len());
        crate::wire::push_all(&mut frame, self.delimiter.as_slice());
        assert(data@.subrange(0, data@.len() as int) =~= data@);
        frame
    }
}

/// Frames start with their length in 1, 2 or 4 bytes.
#[derive(Debug)]
pub struct LengthPrefixParser {
    length_field_length: usize,
    is_big_endian: bool,
    length_includes_self: bool,
    max_frame_length: usize,
}

/// The message of an unsupported length-field size.
pub open spec fn field_size_message(n: nat) -> Seq<char> {
    "长度字段字节数必须为 1, 2 或 4，当前值: "@ + decimal_text(n)
}

/// The message of a length field smaller than itself.
pub open spec fn short_length_message() -> Seq<char> {
    "长度字段值异常（小于自身长度）"@
}

/// The value of the `n`-byte length field at the start of `b`.
pub open spec fn length_field_value(b: Seq<u8>, n: nat, big_endian: bool) -> u64 {
    if n == 1 {
        b[0] as u64
    } else if n == 2 {
        if big_endian {
            get_be16(b, 0) as u64
        } else {
            get_le16(b, 0) as u64
        }
    } else {
        if big_endian {
            get_be32(b, 0) as u64
        } else {
            get_le32(b, 0) as u64
        }
    }
}

/// The `n` bytes that a length field holding `v` is written as (`v`
/// truncated to the field).
pub open spec fn length_field_bytes(v: int, n: nat, big_endian: bool) -> Seq<u8> {
    if n == 1 {
        seq![v as u8]
    } else if n == 2 {
        if big_endian {
            be16(v as u16)
        } else {
            le16(v as u16)
        }
    } else {
        if big_endian {
            be32(v as u32)
        } else {
            le32(v as u32)
        }
    }
}

impl LengthPrefixParser {
    pub closed spec fn field_len(&self) -> nat {
        self.length_field_length as nat
    }

    pub closed spec fn big_endian(&self) -> bool {
        self.is_big_endian
    }

    pub closed spec fn counts_itself(&self) -> bool {
        self.length_includes_self
    }

    pub closed spec fn max_length(&self) -> nat {
        self.max_frame_length as nat
    }

    #[verifier::type_invariant]
    closed spec fn field_len_ok(&self) -> bool {
        self.length_field_length == 1 || self.length_field_length == 2 || self.length_field_length
            == 4
    }

    /// A parser for frames with a length field of `length_field_length`
    /// bytes that counts only the payload; frames are at most 64 MiB.
    /// Field sizes other than 1, 2 and 4 are refused.
    pub fn new(length_field_length: usize, is_big_endian: bool) -> (r: Result<LengthPrefixParser, String>)
        ensures
            match r {
                Ok(p) => (length_field_length == 1 || length_field_length == 2 || length_field_length
                    == 4) && p.field_len() == length_field_length && p.big_endian() == is_big_endian
                    && !p.counts_itself() && p.max_length() == 64 * 1024 * 1024,
                Err(m) => !(length_field_length == 1 || length_field_length == 2
                    || length_field_length == 4) && m@ == field_size_message(length_field_length as nat),
            },
    {
        if !(length_field_length == 1 || length_field_length == 2 || length_field_length == 4) {
            let mut cs: Vec<char> = Vec::new();
            push_str_chars(&mut cs, "长度字段字节数必须为 1, 2 或 4，当前值: ");
            push_chars(&mut cs, &decimal_chars(length_field_length as u64));
            return Err(string_from_chars(cs));
        }
        Ok(LengthPrefixParser {
            length_field_length,
            is_big_endian,
            length_includes_self: false,
            max_frame_length: 64 * 1024 * 1024,
        })
    }

    /// The same parser, with the length field counting itself or not.
    pub fn length_includes_self(self, includes: bool) -> (r: LengthPrefixParser)
        ensures
            r.field_len() == self.field_len() && r.big_endian() == self.big_endian(),
            r.counts_itself() == includes && r.max_length() == self.max_length(),
    {
        proof {
            use_type_invariant(&self);
        }
        LengthPrefixParser {
            length_field_length: self.length_field_length,
            is_big_endian: self.is_big_endian,
            length_includes_self: includes,
            max_frame_length: self.max_frame_length,
        }
    }

    /// The same parser with frames longer than `max_length` refused.
    pub fn max_frame_length(self, max_length: usize) -> (r: LengthPrefixParser)
        ensures
            r.field_len() == self.field_len() && r.big_endian() == self.big_endian(),
            r.counts_itself() == self.counts_itself() && r.max_length() == max_length,
    {
        proof {
            use_type_invariant(&self);
        }
        LengthPrefixParser {
            length_field_length: self.length_field_length,
            is_big_endian: self.is_big_endian,
            length_includes_self: self.length_includes_self,
            max_frame_length: max_length,
        }
    }

    fn read_length_field(&self, buffer: &[u8]) -> (r: u64)
        requires
            buffer@.len() >= self.field_len(),
        ensures
            r == length_field_value(buffer@, self.field_len(), self.big_endian()),
    {
        proof {
            use_type_invariant(self);
        }
        if self.length_field_length == 1 {
            buffer[0] as u64
        } else if self.length_field_length == 2 {
            if self.is_big_endian {
                crate::wire::read_be16(buffer, 0) as u64
            } else {
                (((buffer[1] as u16) << 8u16) | (buffer[0] as u16)) as u64
            }
        } else {
            if self.is_big_endian {
                crate::wire::read_be32(buffer, 0) as u64
            } else {
                (((buffer[3] as u32) << 24u32) | ((buffer[2] as u32) << 16u32) | ((buffer[1] as u32)
                    << 8u32) | (buffer[0] as u32)) as u64
            }
        }
    }
}

impl Clone for LengthPrefixParser {
    fn clone(&self) -> (r: LengthPrefixParser)
        ensures
            r.field_len() == self.field_len() && r.big_endian() == self.big_endian(),
            r.counts_itself() == self.counts_itself() && r.max_length() == self.max_length(),
    {
        proof {
            use_type_invariant(self);
        }
        LengthPrefixParser {
            length_field_length: self.length_field_length,
            is_big_endian: self.is_big_endian,
            length_includes_self: self.length_includes_self,
            max_frame_length: self.max_frame_length,
        }
    }
}

impl ProtocolParser for LengthPrefixParser {
    /// Too short for the length field: incomplete.  A self-counting field
    /// below its own size, or a frame over the limit: an error.  Otherwise
    /// the frame is the field and the payload it announces, once the buffer
    /// holds all of it.
    open spec fn parses_as(&self, buffer: Seq<u8>, r: ParseResult) -> bool {
        let n = self.field_len();
        if buffer.len() < n {
            r is Incomplete
        } else {
            let v = length_field_value(buffer, n, self.big_endian());
            if self.counts_itself() && v < n {
                r matches ParseResult::Error(m) && m@ == short_length_message()
            } else {
                let payload = if self.counts_itself() {
                    v - n
                } else {
                    v as int
                };
                let total = n + payload;
                if total > self.max_length() {
                    r matches ParseResult::Error(m) && m@ == too_long_message(
                        total as nat,
                        self.max_length(),
                    )
                } else if buffer.len() < total {
                    r is Incomplete
                } else {
                    r matches ParseResult::Complete(f, used) && used == total && f@
                        == buffer.subrange(0, total)
                }
            }
        }
    }

    open spec fn frames_as(&self, data: Seq<u8>, frame: Seq<u8>) -> bool {
        let v = if self.counts_itself() {
            (data.len() + self.field_len()) as int
        } else {
            data.len() as int
        };
        frame == length_field_bytes(v, self.field_len(), self.big_endian()) + data
    }

    open spec fn can_frame(&self, data: Seq<u8>) -> bool {
        data.len() + self.field_len() <= usize::MAX
    }

    fn parse_frame(&self, buffer: &[u8]) -> (r: ParseResult) {
        proof {
            use_type_invariant(self);
        }
        if buffer.len() < self.length_field_length {
            return ParseResult::Incomplete;
        }
        let length_field_value = self.read_length_field(buffer);
        let payload_length: u64 = if self.length_includes_self {
            if length_field_value < self.length_field_length as u64 {
                let mut cs: Vec<char> = Vec::new();
                push_str_chars(&mut cs, "长度字段值异常（小于自身长度）");
                return ParseResult::Error(string_from_chars(cs));
            }
            length_field_value - self.length_field_length as u64
        } else {
            length_field_value
        };
        assert(length_field_value <= u32::MAX) by {
            assert(get_be16(buffer@, 0) <= u16::MAX);
        }
        let total_frame_length: u64 = self.length_field_length as u64 + payload_length;
        if total_frame_length > self.max_frame_length as u64 {
            return too_long_error(total_frame_length, self.max_frame_length as u64);
        }
        if (buffer.len() as u64) < total_frame_length {
            return ParseResult::Incomplete;
        }
        let total = total_frame_length as usize;
        let frame_data = crate::wire::copy_range(buffer, 0, total);
        ParseResult::Complete(frame_data, total)
    }

    fn encode_frame(&self, data: &[u8]) -> (r: Vec<u8>) {
        proof {
            use_type_invariant(self);
        }
        let payload_length = data.len();
        let length_field_value: usize = if self.length_includes_self {
            payload_length + self.length_field_length
        } else {
            payload_length
        };
        let mut frame: Vec<u8> = Vec::new();
        if self.length_field_length == 1 {
            frame.push(length_field_value as u8);
        } else if self.length_field_length == 2 {
            let v = length_field_value as u16;
            if self.is_big_endian {
                frame.push((v >> 8u16) as u8);
                frame.push(v as u8);
            } else {
                frame.push(v as u8);
                frame.push((v >> 8u16) as u8);
            }
        } else {
            let v = length_field_value as u32;
            if self.is_big_endian {
                crate::wire::push_be32(&mut frame, v);
            } else {
                frame.push(v as u8);
                frame.push((v >> 8u32) as u8);
                frame.push((v >> 16u32) as u8);
                frame.push((v >> 24u32) as u8);
            }
        }
        crate::wire::push_all(&mut frame, data);
        assert(frame@ =~= length_field_bytes(
            length_field_value as int,
            self.field_len(),
            self.big_endian(),
        ) + data@);
        frame
    }
}

/// A delimiter parser reads back what it frames: for data in which the
/// delimiter does not begin before the data's end, parsing the framed data
/// gives the data (with the delimiter where it is kept) and uses up the
/// whole frame, as long as the frame is within the parser's limit.
pub proof fn lemma_delimiter_roundtrip(p: DelimiterParser, data: Seq<u8>, r: ParseResult)
    requires
        p.delimiter_spec().len() > 0,
        forall|i: int|
            0 <= i < data.len() ==> !occurs_at(data + p.delimiter_spec(), p.delimiter_spec(), i),
        data.len() + p.delimiter_spec().len() <= p.max_length(),
        p.parses_as(data + p.delimiter_spec(), r),
    ensures
        r matches ParseResult::Complete(f, used) && used == data.len() + p.delimiter_spec().len()
            && f@ == (if p.includes_delimiter() {
            data + p.delimiter_spec()
        } else {
            data
        }),
{
    let d = p.delimiter_spec();
    let b = data + d;
    assert(b.subrange(data.len() as int, (data.len() + d.len()) as int) =~= d);
    assert(occurs_at(b, d, data.len() as int));
    match r {
        ParseResult::Complete(f, used) => {
            let i = choose|i: int| #[trigger] delimiter_complete(b, d, p.includes_delimiter(), f@, used, i);
            assert(delimiter_complete(b, d, p.includes_delimiter(), f@, used, i));
            if i > data.len() {
                assert(!occurs_at(b, d, data.len() as int));
            }
            assert(i == data.len());
            assert(b.subrange(0, data.len() as int) =~= data);
            assert(b.subrange(0, (data.len() + d.len()) as int) =~= b);
        },
        ParseResult::Incomplete => {
            assert(!occurs_at(b, d, data.len() as int));
        },
        ParseResult::Error(_) => {},
    }
}

/// The length field written for `v` reads back as `v` when `v` fits in it.
proof fn lemma_length_field(v: int, n: nat, big_endian: bool, rest: Seq<u8>)
    requires
        n == 1 || n == 2 || n == 4,
        0 <= v,
        n == 1 ==> v <= u8::MAX,
        n == 2 ==> v <= u16::MAX,
        n == 4 ==> v <= u32::MAX,
    ensures
        length_field_bytes(v, n, big_endian).len() == n,
        length_field_value(length_field_bytes(v, n, big_endian) + rest, n, big_endian) == v,
{
    let s = length_field_bytes(v, n, big_endian) + rest;
    if n == 2 {
        if big_endian {
            assert(crate::wire::holds_at(s, 0, be16(v as u16)));
            crate::wire::lemma_be16(v as u16, s, 0);
        } else {
            assert(crate::wire::holds_at(s, 0, le16(v as u16)));
            crate::wire::lemma_le16(v as u16, s, 0);
        }
    } else if n == 4 {
        if big_endian {
            assert(crate::wire::holds_at(s, 0, be32(v as u32)));
            crate::wire::lemma_be32(v as u32, s, 0);
        } else {
            assert(crate::wire::holds_at(s, 0, le32(v as u32)));
            crate::wire::lemma_le32(v as u32, s, 0);
        }
    }
}

/// A length-prefix parser reads back what it frames: when the length
/// written fits in the field and the frame is within the parser's limit,
/// parsing a buffer that starts with the frame (whatever follows it) gives
/// the whole frame, field and data, and uses up exactly the frame.
pub proof fn lemma_length_prefix_roundtrip(
    p: LengthPrefixParser,
    data: Seq<u8>,
    frame: Seq<u8>,
    extra: Seq<u8>,
    r: ParseResult,
)
    requires
        p.field_len() == 1 || p.field_len() == 2 || p.field_len() == 4,
        p.frames_as(data, frame),
        p.field_len() == 1 ==> data.len() + (if p.counts_itself() { 1int } else { 0 }) <= u8::MAX,
        p.field_len() == 2 ==> data.len() + (if p.counts_itself() { 2int } else { 0 }) <= u16::MAX,
        p.field_len() == 4 ==> data.len() + (if p.counts_itself() { 4int } else { 0 }) <= u32::MAX,
        data.len() + p.field_len() <= p.max_length(),
        p.parses_as(frame + extra, r),
    ensures
        r matches ParseResult::Complete(f, used) && used == frame.len() && f@ == frame,
        frame.subrange(p.field_len() as int, frame.len() as int) == data,
{
    let n = p.field_len();
    let v = if p.counts_itself() {
        (data.len() + n) as int
    } else {
        data.len() as int
    };
    lemma_length_field(v, n, p.big_endian(), data + extra);
    let b = frame + extra;
    assert(b =~= length_field_bytes(v, n, p.big_endian()) + (data + extra));
    assert(b.subrange(0, frame.len() as int) =~= frame);
    assert(frame.subrange(n as int, frame.len() as int) =~= data);
}

/// A length-prefix parser waits for the rest of a frame: every proper
/// prefix of a frame it wrote (within the field's range and the parser's
/// limit) parses as incomplete.
pub proof fn lemma_length_prefix_partial(
    p: LengthPrefixParser,
    data: Seq<u8>,
    frame: Seq<u8>,
    k: int,
    r: ParseResult,
)
    requires
        p.field_len() == 1 || p.field_len() == 2 || p.field_len() == 4,
        p.frames_as(data, frame),
        p.field_len() == 1 ==> data.len() + (if p.counts_itself() { 1int } else { 0 }) <= u8::MAX,
        p.field_len() == 2 ==> data.len() + (if p.counts_itself() { 2int } else { 0 }) <= u16::MAX,
        p.field_len() == 4 ==> data.len() + (if p.counts_itself() { 4int } else { 0 }) <= u32::MAX,
        data.len() + p.field_len() <= p.max_length(),
        0 <= k < frame.len(),
        p.parses_as(frame.subrange(0, k), r),
    ensures
        r is Incomplete,
{
    let n = p.field_len();
    let v = if p.counts_itself() {
        (data.len() + n) as int
    } else {
        data.len() as int
    };
    lemma_length_field(v, n, p.big_endian(), data);
    if k >= n {
        let rest = data.subrange(0, k - n);
        lemma_length_field(v, n, p.big_endian(), rest);
        assert(frame.subrange(0, k) =~= length_field_bytes(v, n, p.big_endian()) + rest);
    }
}

/// The bytes of a length field: one byte, or the value's base-256 digits,
/// most significant first where the field is big-endian and least
/// significant first where it is not.
pub proof fn lemma_length_field_layout(v: int, n: nat, big_endian: bool)
    requires
        n == 1 || n == 2 || n == 4,
        0 <= v,
        n == 1 ==> v < 256,
        n == 2 ==> v < 65536,
        n == 4 ==> v < 4294967296,
    ensures
        length_field_bytes(v, n, big_endian) == (if n == 1 {
            seq![v as u8]
        } else if n == 2 {
            if big_endian {
                seq![(v / 256) as u8, (v % 256) as u8]
            } else {
                seq![(v % 256) as u8, (v / 256) as u8]
            }
        } else if big_endian {
            seq![(v / 16777216) as u8, ((v / 65536) % 256) as u8, ((v / 256) % 256) as u8, (v % 256) as u8]
        } else {
            seq![(v % 256) as u8, ((v / 256) % 256) as u8, ((v / 65536) % 256) as u8, (v / 16777216) as u8]
        }),
{
    if n == 2 {
        let x = v as u16;
        crate::wire::lemma_be16_digits(x);
        assert(be16(x)[0] == (x / 256) as u8 && be16(x)[1] == (x % 256) as u8);
        assert(le16(x) =~= seq![(x % 256) as u8, (x / 256) as u8]);
    } else if n == 4 {
        let x = v as u32;
        crate::wire::lemma_be32_digits(x);
        let b = be32(x);
        assert(b[0] == (x / 16777216) as u8 && b[1] == ((x / 65536) % 256) as u8 && b[2] == ((x / 256)
            % 256) as u8 && b[3] == (x % 256) as u8);
        assert(le32(x) =~= seq![(x % 256) as u8, ((x / 256) % 256) as u8, ((x / 65536) % 256) as u8, (x
            / 16777216) as u8]);
    }
}

/// Reading a length field: one byte, or the base-256 number that its bytes
/// spell, most significant first where the field is big-endian and least
/// significant first where it is not.
pub proof fn lemma_length_field_read(b: Seq<u8>, n: nat, big_endian: bool)
    requires
        n == 1 || n == 2 || n == 4,
        b.len() >= n,
    ensures
        length_field_value(b, n, big_endian) == (if n == 1 {
            b[0] as int
        } else if n == 2 {
            if big_endian {
                b[0] as int * 256 + b[1] as int
            } else {
                b[1] as int * 256 + b[0] as int
            }
        } else if big_endian {
            b[0] as int * 16777216 + b[1] as int * 65536 + b[2] as int * 256 + b[3] as int
        } else {
            b[3] as int * 16777216 + b[2] as int * 65536 + b[1] as int * 256 + b[0] as int
        }),
{
    if n == 2 {
        crate::wire::lemma_get_be16_digits(b, 0);
        let t = seq![b[1], b[0]];
        crate::wire::lemma_get_be16_digits(t, 0);
        assert(get_le16(b, 0) == get_be16(t, 0));
    } else if n == 4 {
        crate::wire::lemma_get_be32_digits(b, 0);
        let t = seq![b[3], b[2], b[1], b[0]];
        crate::wire::lemma_get_be32_digits(t, 0);
        assert(get_le32(b, 0) == get_be32(t, 0));
    }
}

} // verus!
