//! Serial errors.
use vstd::prelude::*;
use crate::text::{push_chars, push_str_chars, str_chars, string_from_chars};

verus! {

/// What can go wrong with a serial port.
#[derive(Debug, Clone, PartialEq, Eq)]
pub enum SerialError {
    OpenError(String),
    PortClosed,
    NotConnected(String),
    ConfigError(String),
    IoError(String),
    Timeout(String),
    ProtocolError(String),
    Internal(String),
}

/// The kinds of I/O failure that are reported apart.
#[derive(Debug, Clone, Copy, PartialEq, Eq, Structural)]
pub enum IoFailure {
    NotFound,
    PermissionDenied,
    TimedOut,
    Other,
}

/// The text shown for an error.
pub open spec fn serial_error_text(e: SerialError) -> Seq<char> {
    match e {
        SerialError::OpenError(m) => "打开串口失败: "@ + m@,
        SerialError::PortClosed => "串口已关闭"@,
        SerialError::NotConnected(m) => "未连接: "@ + m@,
        SerialError::ConfigError(m) => "配置错误: "@ + m@,
        SerialError::IoError(m) => "IO 错误: "@ + m@,
        SerialError::Timeout(m) => "操作超时: "@ + m@,
        SerialError::ProtocolError(m) => "协议解析错误: "@ + m@,
        SerialError::Internal(m) => "内部错误: "@ + m@,
    }
}

/// `needle` occurs in `hay`.
pub open spec fn contains_text(hay: Seq<char>, needle: Seq<char>) -> bool {
    exists|i: int|
        0 <= i && i + needle.len() <= hay.len() && #[trigger] hay.subrange(i, i + needle.len())
            == needle
}

/// Whether `needle` occurs in `hay`.
pub fn contains_chars(hay: &Vec<char>, needle: &Vec<char>) -> (r: bool)
    ensures
        r == contains_text(hay@, needle@),
{
    let n = needle.len();
    if n > hay.len() {
        proof {
            assert forall|i: int| !(0 <= i && i + needle@.len() <= hay@.len() && #[trigger] hay@.subrange(i, i + needle@.len()) == needle@) by {}
        }
        return false;
    }
    let mut i: usize = 0;
    let last = hay.len() - n;
    while i <= last
        invariant
            n == needle@.len(),
            n <= hay@.len(),
            last == hay@.len() - n,
            i <= hay@.len(),
            forall|j: int| 0 <= j < i ==> #[trigger] hay@.subrange(j, j + n) != needle@,
        decreases hay@.len() - i,
    {
        let mut k: usize = 0;
        let mut same = true;
        while k < n
            invariant
                n == needle@.len(),
                i + n <= hay.len(),
                k <= n,
                same == (forall|m: int| 0 <= m < k ==> hay@[i + m] == needle@[m]),
            decreases n - k,
        {
            if hay[i + k] != needle[k] {
                same = false;
            }
            k = k + 1;
        }
        if same {
            assert(hay@.subrange(i as int, i + n) =~= needle@);
            return true;
        }
        assert(hay@.subrange(i as int, i + n)[0] == hay@[i as int] || n == 0);
        proof {
            if hay@.subrange(i as int, i + n) == needle@ {
                assert forall|m: int| 0 <= m < n implies hay@[i + m] == needle@[m] by {
                    assert(hay@.subrange(i as int, i + n)[m] == hay@[i + m]);
                }
            }
        }
        i = i + 1;
    }
    proof {
        assert forall|j: int| !(0 <= j && j + needle@.len() <= hay@.len() && #[trigger] hay@.subrange(j, j + needle@.len()) == needle@) by {
            if 0 <= j && j + n <= hay@.len() {
                assert(j < i);
            }
        }
    }
    false
}

/// The message of a port that could not be opened, from the port library's
/// text: permission, busy and missing ports are told apart by the text.
pub open spec fn open_error_text(t: Seq<char>) -> Seq<char> {
    if contains_text(t, "Permission denied"@) || contains_text(t, "权限不足"@) {
        "权限不足，无法打开串口: "@ + t
    } else if contains_text(t, "Device or resource busy"@) || contains_text(t, "正在使用"@) {
        "串口被占用: "@ + t
    } else if contains_text(t, "No such file"@) || contains_text(t, "系统找不到指定的文件"@) {
        "串口不存在: "@ + t
    } else {
        t
    }
}

/// The error for an I/O failure of kind `kind` with message `text`.
pub open spec fn io_error_for(kind: IoFailure, text: Seq<char>, e: SerialError) -> bool {
    match kind {
        IoFailure::NotFound => e matches SerialError::OpenError(m) && m@ == "串口不存在: "@ + text,
        IoFailure::PermissionDenied => e matches SerialError::OpenError(m) && m@ == "权限不足: "@
            + text,
        IoFailure::TimedOut => e matches SerialError::Timeout(m) && m@ == "IO 超时: "@ + text,
        IoFailure::Other => e matches SerialError::IoError(m) && m@ == text,
    }
}

#[verifier::external_type_specification]
#[verifier::external_body]
pub struct ExPortError(serialport::Error);

/// The text that `serialport::Error`'s `Display` writes for `e`: the
/// error's `description` field, which Verus does not see.
pub uninterp spec fn port_error_display(e: serialport::Error) -> Seq<char>;

/// `serialport::Error`'s `Display` text (`to_string`), which is a function of
/// the error alone.
#[verifier::external_body]
fn port_error_text(e: &serialport::Error) -> (r: String)
    ensures
        r@ == port_error_display(*e),
{
    e.to_string()
}

fn has_text(hay: &Vec<char>, needle: &str) -> (r: bool)
    ensures
        r == contains_text(hay@, needle@),
{
    contains_chars(hay, &str_chars(needle))
}

impl SerialError {
    /// The error for a port that could not be opened, given the port
    /// library's message.
    pub fn from_port_message(text: String) -> (r: SerialError)
        ensures
            r matches SerialError::OpenError(m) && m@ == open_error_text(text@),
    {
        let t = str_chars(text.as_str());
        let mut cs: Vec<char> = Vec::new();
        if has_text(&t, "Permission denied") || has_text(&t, "权限不足") {
            push_str_chars(&mut cs, "权限不足，无法打开串口: ");
        } else if has_text(&t, "Device or resource busy") || has_text(&t, "正在使用") {
            push_str_chars(&mut cs, "串口被占用: ");
        } else if has_text(&t, "No such file") || has_text(&t, "系统找不到指定的文件") {
            push_str_chars(&mut cs, "串口不存在: ");
        }
        push_chars(&mut cs, &t);
        SerialError::OpenError(string_from_chars(cs))
    }

    /// The error for a failure of the port library: its text, sorted into
    /// permission, busy, missing and other failures.
    pub fn from_port_error(err: serialport::Error) -> (r: SerialError)
        ensures
            r matches SerialError::OpenError(m) && m@ == open_error_text(port_error_display(err)),
    {
        SerialError::from_port_message(port_error_text(&err))
    }

    /// The error for an I/O failure of kind `kind` with message `text`.
    pub fn from_io(kind: IoFailure, text: String) -> (r: SerialError)
        ensures
            io_error_for(kind, text@, r),
    {
        let t = str_chars(text.as_str());
        let mut cs: Vec<char> = Vec::new();
        match kind {
            IoFailure::NotFound => {
                push_str_chars(&mut cs, "串口不存在: ");
                push_chars(&mut cs, &t);
                SerialError::OpenError(string_from_chars(cs))
            },
            IoFailure::PermissionDenied => {
                push_str_chars(&mut cs, "权限不足: ");
                push_chars(&mut cs, &t);
                SerialError::OpenError(string_from_chars(cs))
            },
            IoFailure::TimedOut => {
                push_str_chars(&mut cs, "IO 超时: ");
                push_chars(&mut cs, &t);
                SerialError::Timeout(string_from_chars(cs))
            },
            IoFailure::Other => SerialError::IoError(text),
        }
    }

    /// The text shown for the error.
    pub fn to_string(&self) -> (r: String)
        ensures
            r@ == serial_error_text(*self),
    {
        let mut cs: Vec<char> = Vec::new();
        match self {
            SerialError::OpenError(m) => {
                push_str_chars(&mut cs, "打开串口失败: ");
                push_chars(&mut cs, &str_chars(m.as_str()));
            },
            SerialError::PortClosed => push_str_chars(&mut cs, "串口已关闭"),
            SerialError::NotConnected(m) => {
                push_str_chars(&mut cs, "未连接: ");
                push_chars(&mut cs, &str_chars(m.as_str()));
            },
            SerialError::ConfigError(m) => {
                push_str_chars(&mut cs, "配置错误: ");
                push_chars(&mut cs, &str_chars(m.as_str()));
            },
            SerialError::IoError(m) => {
                push_str_chars(&mut cs, "IO 错误: ");
                push_chars(&mut cs, &str_chars(m.as_str()));
            },
            SerialError::Timeout(m) => {
                push_str_chars(&mut cs, "操作超时: ");
                push_chars(&mut cs, &str_chars(m.as_str()));
            },
            SerialError::ProtocolError(m) => {
                push_str_chars(&mut cs, "协议解析错误: ");
                push_chars(&mut cs, &str_chars(m.as_str()));
            },
            SerialError::Internal(m) => {
                push_str_chars(&mut cs, "内部错误: ");
                push_chars(&mut cs, &str_chars(m.as_str()));
            },
        }
        string_from_chars(cs)
    }
}

} // verus!
