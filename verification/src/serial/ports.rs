//! What is answered for a listing of the serial ports of the machine; the
//! enumeration itself is I/O, done outside this library.
use vstd::prelude::*;
use crate::serial::error::SerialError;
use crate::serial::types::SerialOpResult;
use crate::text::{push_chars, push_str_chars, str_chars, string_from_chars};

verus! {

/// What the library answers for a listing of the ports: the names, or an
/// open error "枚举串口失败: " followed by the enumeration's error text.
pub fn port_list_result(listed: Result<Vec<String>, String>) -> (r: SerialOpResult<Vec<String>>)
    ensures
        listed matches Ok(names) ==> r == Ok::<Vec<String>, SerialError>(names),
        listed matches Err(text) ==> (r matches Err(SerialError::OpenError(m)) && m@ == "枚举串口失败: "@
            + text@),
{
    match listed {
        Ok(names) => Ok(names),
        Err(text) => {
            let mut cs: Vec<char> = Vec::new();
            push_str_chars(&mut cs, "枚举串口失败: ");
            push_chars(&mut cs, &str_chars(text.as_str()));
            Err(SerialError::OpenError(string_from_chars(cs)))
        },
    }
}

} // verus!
