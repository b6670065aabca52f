//! Serial port configuration.
use vstd::prelude::*;
use crate::serial::types::{DataBits, FlowControl, Parity, StopBits};
use crate::text::{push_str_chars, string_from_chars};

verus! {

/// Settings of a serial port.
#[derive(Debug, Clone)]
pub struct SerialConfig {
    pub port_name: String,
    pub baud_rate: u32,
    pub data_bits: DataBits,
    pub stop_bits: StopBits,
    pub parity: Parity,
    pub flow_control: FlowControl,
    pub timeout_ms: u64,
    pub read_buffer_size: usize,
}

/// The baud rates that devices commonly use.
pub open spec fn is_standard_baud_rate(b: u32) -> bool {
    b == 110 || b == 300 || b == 600 || b == 1200 || b == 2400 || b == 4800 || b == 9600 || b
        == 14400 || b == 19200 || b == 28800 || b == 38400 || b == 56000 || b == 57600 || b == 115200
        || b == 128000 || b == 153600 || b == 230400 || b == 256000 || b == 460800 || b == 500000
        || b == 576000 || b == 921600 || b == 1000000 || b == 1152000 || b == 1500000 || b
        == 2000000 || b == 2500000 || b == 3000000
}

/// What checking a configuration gives: the first rule broken, if any.
pub open spec fn config_check(c: SerialConfig) -> Result<(), Seq<char>> {
    if c.port_name@.len() == 0 {
        Err("端口名称不能为空"@)
    } else if c.timeout_ms == 0 {
        Err("超时时间必须大于 0"@)
    } else if c.read_buffer_size < 64 {
        Err("缓冲区大小必须至少为 64 字节"@)
    } else {
        Ok(())
    }
}

/// The port settings: 8 data bits, one stop bit, no parity, no flow control,
/// one second timeout and a 4 KiB read buffer at 115200 baud.
pub open spec fn default_settings(c: SerialConfig, name: Seq<char>) -> bool {
    &&& c.port_name@ == name
    &&& c.baud_rate == 115200
    &&& c.data_bits == DataBits::Eight
    &&& c.stop_bits == StopBits::One
    &&& c.parity == Parity::NoParity
    &&& c.flow_control == FlowControl::NoFlowControl
    &&& c.timeout_ms == 1000
    &&& c.read_buffer_size == 4096
}

impl SerialConfig {
    /// Default settings for the port `port_name`.
    pub fn new(port_name: &str) -> (r: SerialConfig)
        ensures
            default_settings(r, port_name@),
    {
        SerialConfig {
            port_name: port_name.to_string(),
            baud_rate: 115200,
            data_bits: DataBits::Eight,
            stop_bits: StopBits::One,
            parity: Parity::NoParity,
            flow_control: FlowControl::NoFlowControl,
            timeout_ms: 1000,
            read_buffer_size: 4096,
        }
    }

    pub fn baud_rate(self, baud_rate: u32) -> (r: SerialConfig)
        ensures
            r == (SerialConfig { baud_rate, ..self }),
    {
        SerialConfig { baud_rate, ..self }
    }

    pub fn data_bits(self, data_bits: DataBits) -> (r: SerialConfig)
        ensures
            r == (SerialConfig { data_bits, ..self }),
    {
        SerialConfig { data_bits, ..self }
    }

    pub fn stop_bits(self, stop_bits: StopBits) -> (r: SerialConfig)
        ensures
            r == (SerialConfig { stop_bits, ..self }),
    {
        SerialConfig { stop_bits, ..self }
    }

    pub fn parity(self, parity: Parity) -> (r: SerialConfig)
        ensures
            r == (SerialConfig { parity, ..self }),
    {
        SerialConfig { parity, ..self }
    }

    pub fn flow_control(self, flow_control: FlowControl) -> (r: SerialConfig)
        ensures
            r == (SerialConfig { flow_control, ..self }),
    {
        SerialConfig { flow_control, ..self }
    }

    pub fn timeout_ms(self, timeout_ms: u64) -> (r: SerialConfig)
        ensures
            r == (SerialConfig { timeout_ms, ..self }),
    {
        SerialConfig { timeout_ms, ..self }
    }

    pub fn read_buffer_size(self, size: usize) -> (r: SerialConfig)
        ensures
            r == (SerialConfig { read_buffer_size: size, ..self }),
    {
        SerialConfig { read_buffer_size: size, ..self }
    }

    /// Whether the baud rate is one that devices commonly use; others are
    /// allowed, and callers may warn about them.
    pub fn has_standard_baud_rate(&self) -> (r: bool)
        ensures
            r == is_standard_baud_rate(self.baud_rate),
    {
        let b = self.baud_rate;
        b == 110 || b == 300 || b == 600 || b == 1200 || b == 2400 || b == 4800 || b == 9600 || b
            == 14400 || b == 19200 || b == 28800 || b == 38400 || b == 56000 || b == 57600 || b
            == 115200 || b == 128000 || b == 153600 || b == 230400 || b == 256000 || b == 460800
            || b == 500000 || b == 576000 || b == 921600 || b == 1000000 || b == 1152000 || b
            == 1500000 || b == 2000000 || b == 2500000 || b == 3000000
    }

    /// Checks the port name, the timeout and the buffer size, in that order.
    pub fn validate(&self) -> (r: Result<(), String>)
        ensures
            match (r, config_check(*self)) {
                (Ok(()), Ok(())) => true,
                (Err(m), Err(t)) => m@ == t,
                _ => false,
            },
    {
        let mut cs: Vec<char> = Vec::new();
        if self.port_name.as_str().is_empty() {
            push_str_chars(&mut cs, "端口名称不能为空");
            return Err(string_from_chars(cs));
        }
        if self.timeout_ms == 0 {
            push_str_chars(&mut cs, "超时时间必须大于 0");
            return Err(string_from_chars(cs));
        }
        if self.read_buffer_size < 64 {
            push_str_chars(&mut cs, "缓冲区大小必须至少为 64 字节");
            return Err(string_from_chars(cs));
        }
        Ok(())
    }

}

impl Default for SerialConfig {
    /// Default settings for `/dev/ttyUSB0`, the usual first USB serial
    /// adapter on Linux.
    fn default() -> (r: SerialConfig)
        ensures
            default_settings(r, "/dev/ttyUSB0"@),
    {
        SerialConfig::new("/dev/ttyUSB0")
    }
}

} // verus!
