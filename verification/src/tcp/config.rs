//! Settings of the TCP server and client, and the rules they must meet.
use vstd::prelude::*;
use crate::text::{push_str_chars, string_from_chars};

verus! {

/// Receive buffer size, in bytes.
pub const DEFAULT_BUFFER_SIZE: usize = 8192;

/// Connect timeout, in milliseconds.
pub const DEFAULT_CONNECT_TIMEOUT_MS: u64 = 5000;

/// Read and write timeout, in milliseconds; 0 means none.
pub const DEFAULT_TIMEOUT_MS: u64 = 10000;

/// Heartbeat interval, in milliseconds.
pub const DEFAULT_HEARTBEAT_INTERVAL_MS: u64 = 30000;

/// Most connections a server accepts at once.
pub const DEFAULT_MAX_CONNECTIONS: usize = 1024;

/// Settings of a TCP server.
#[derive(Debug, Clone)]
pub struct TcpServerConfig {
    /// Address to listen on, such as "0.0.0.0:8080".
    pub listen_addr: String,
    pub buffer_size: usize,
    /// System keep-alive on the sockets.
    pub keepalive: bool,
    /// Ping/pong messages between the two ends.
    pub heartbeat: bool,
    pub heartbeat_interval_ms: u64,
    pub max_connections: usize,
    /// Read and write timeout of a connection; 0 means none.
    pub connection_timeout_ms: u64,
}

/// What is wrong with a server's settings, the first rule broken first;
/// `addr_parses` tells whether the listen address is a socket address.
pub open spec fn server_config_error(c: TcpServerConfig, addr_parses: bool) -> Option<Seq<char>> {
    if !addr_parses {
        Some("无效的监听地址: "@ + c.listen_addr@)
    } else if c.buffer_size == 0 {
        Some("缓冲区大小必须大于 0"@)
    } else if c.max_connections == 0 {
        Some("最大连接数必须大于 0"@)
    } else if c.heartbeat && c.heartbeat_interval_ms == 0 {
        Some("心跳间隔必须大于 0"@)
    } else {
        None
    }
}

impl TcpServerConfig {
    /// A server on `listen_addr` with the default settings: keep-alive and
    /// heartbeat on.
    pub fn new(listen_addr: &str) -> (r: TcpServerConfig)
        ensures
            r.listen_addr@ == listen_addr@,
            r.buffer_size == DEFAULT_BUFFER_SIZE,
            r.keepalive,
            r.heartbeat,
            r.heartbeat_interval_ms == DEFAULT_HEARTBEAT_INTERVAL_MS,
            r.max_connections == DEFAULT_MAX_CONNECTIONS,
            r.connection_timeout_ms == DEFAULT_TIMEOUT_MS,
    {
        TcpServerConfig {
            listen_addr: listen_addr.to_owned(),
            buffer_size: DEFAULT_BUFFER_SIZE,
            keepalive: true,
            heartbeat: true,
            heartbeat_interval_ms: DEFAULT_HEARTBEAT_INTERVAL_MS,
            max_connections: DEFAULT_MAX_CONNECTIONS,
            connection_timeout_ms: DEFAULT_TIMEOUT_MS,
        }
    }

    pub fn with_buffer_size(self, size: usize) -> (r: TcpServerConfig)
        ensures
            r == (TcpServerConfig { buffer_size: size, ..self }),
    {
        TcpServerConfig { buffer_size: size, ..self }
    }

    pub fn with_keepalive(self, enabled: bool) -> (r: TcpServerConfig)
        ensures
            r == (TcpServerConfig { keepalive: enabled, ..self }),
    {
        TcpServerConfig { keepalive: enabled, ..self }
    }

    pub fn with_heartbeat(self, enabled: bool) -> (r: TcpServerConfig)
        ensures
            r == (TcpServerConfig { heartbeat: enabled, ..self }),
    {
        TcpServerConfig { heartbeat: enabled, ..self }
    }

    pub fn with_heartbeat_interval(self, ms: u64) -> (r: TcpServerConfig)
        ensures
            r == (TcpServerConfig { heartbeat_interval_ms: ms, ..self }),
    {
        TcpServerConfig { heartbeat_interval_ms: ms, ..self }
    }

    pub fn with_max_connections(self, max: usize) -> (r: TcpServerConfig)
        ensures
            r == (TcpServerConfig { max_connections: max, ..self }),
    {
        TcpServerConfig { max_connections: max, ..self }
    }

    pub fn with_connection_timeout(self, ms: u64) -> (r: TcpServerConfig)
        ensures
            r == (TcpServerConfig { connection_timeout_ms: ms, ..self }),
    {
        TcpServerConfig { connection_timeout_ms: ms, ..self }
    }

    /// Checks the settings; `addr_parses` tells whether the listen address
    /// is a socket address (the caller parses it).
    pub fn validate(&self, addr_parses: bool) -> (r: Result<(), String>)
        ensures
            r is Ok <==> server_config_error(*self, addr_parses) is None,
            r matches Err(m) ==> server_config_error(*self, addr_parses) == Some(m@),
    {
        let mut v: Vec<char> = Vec::new();
        if !addr_parses {
            push_str_chars(&mut v, "无效的监听地址: ");
            push_str_chars(&mut v, self.listen_addr.as_str());
        } else if self.buffer_size == 0 {
            push_str_chars(&mut v, "缓冲区大小必须大于 0");
        } else if self.max_connections == 0 {
            push_str_chars(&mut v, "最大连接数必须大于 0");
        } else if self.heartbeat && self.heartbeat_interval_ms == 0 {
            push_str_chars(&mut v, "心跳间隔必须大于 0");
        } else {
            return Ok(());
        }
        Err(string_from_chars(v))
    }
}

impl Default for TcpServerConfig {
    /// A server on "0.0.0.0:8080".
    fn default() -> (r: TcpServerConfig)
        ensures
            r.listen_addr@ == "0.0.0.0:8080"@,
            r.buffer_size == DEFAULT_BUFFER_SIZE,
            r.keepalive,
            r.heartbeat,
            r.heartbeat_interval_ms == DEFAULT_HEARTBEAT_INTERVAL_MS,
            r.max_connections == DEFAULT_MAX_CONNECTIONS,
            r.connection_timeout_ms == DEFAULT_TIMEOUT_MS,
    {
        TcpServerConfig::new("0.0.0.0:8080")
    }
}

/// Settings of a TCP client.
#[derive(Debug, Clone)]
pub struct TcpClientConfig {
    /// Address of the server, such as "127.0.0.1:8080".
    pub server_addr: String,
    pub buffer_size: usize,
    pub connect_timeout_ms: u64,
    /// Read and write timeout; 0 means none.
    pub timeout_ms: u64,
    pub keepalive: bool,
    pub heartbeat: bool,
    pub heartbeat_interval_ms: u64,
    pub auto_reconnect: bool,
    pub reconnect_interval_ms: u64,
    /// Most reconnection attempts; 0 means no limit.
    pub max_reconnect_attempts: u32,
}

/// What is wrong with a client's settings, the first rule broken first;
/// `addr_parses` tells whether the server address is a socket address.
pub open spec fn client_config_error(c: TcpClientConfig, addr_parses: bool) -> Option<Seq<char>> {
    if !addr_parses {
        Some("无效的服务端地址: "@ + c.server_addr@)
    } else if c.buffer_size == 0 {
        Some("缓冲区大小必须大于 0"@)
    } else if c.connect_timeout_ms == 0 {
        Some("连接超时时间必须大于 0"@)
    } else if c.heartbeat && c.heartbeat_interval_ms == 0 {
        Some("心跳间隔必须大于 0"@)
    } else if c.auto_reconnect && c.reconnect_interval_ms == 0 {
        Some("重连间隔必须大于 0"@)
    } else {
        None
    }
}

impl TcpClientConfig {
    /// A client of `server_addr` with the default settings: keep-alive and
    /// heartbeat on, no automatic reconnection (3 s apart when enabled, no
    /// limit on attempts).
    pub fn new(server_addr: &str) -> (r: TcpClientConfig)
        ensures
            r.server_addr@ == server_addr@,
            r.buffer_size == DEFAULT_BUFFER_SIZE,
            r.connect_timeout_ms == DEFAULT_CONNECT_TIMEOUT_MS,
            r.timeout_ms == DEFAULT_TIMEOUT_MS,
            r.keepalive,
            r.heartbeat,
            r.heartbeat_interval_ms == DEFAULT_HEARTBEAT_INTERVAL_MS,
            !r.auto_reconnect,
            r.reconnect_interval_ms == 3000,
            r.max_reconnect_attempts == 0,
    {
        TcpClientConfig {
            server_addr: server_addr.to_owned(),
            buffer_size: DEFAULT_BUFFER_SIZE,
            connect_timeout_ms: DEFAULT_CONNECT_TIMEOUT_MS,
            timeout_ms: DEFAULT_TIMEOUT_MS,
            keepalive: true,
            heartbeat: true,
            heartbeat_interval_ms: DEFAULT_HEARTBEAT_INTERVAL_MS,
            auto_reconnect: false,
            reconnect_interval_ms: 3000,
            max_reconnect_attempts: 0,
        }
    }

    pub fn with_buffer_size(self, size: usize) -> (r: TcpClientConfig)
        ensures
            r == (TcpClientConfig { buffer_size: size, ..self }),
    {
        TcpClientConfig { buffer_size: size, ..self }
    }

    pub fn with_connect_timeout(self, ms: u64) -> (r: TcpClientConfig)
        ensures
            r == (TcpClientConfig { connect_timeout_ms: ms, ..self }),
    {
        TcpClientConfig { connect_timeout_ms: ms, ..self }
    }

    pub fn with_timeout(self, ms: u64) -> (r: TcpClientConfig)
        ensures
            r == (TcpClientConfig { timeout_ms: ms, ..self }),
    {
        TcpClientConfig { timeout_ms: ms, ..self }
    }

    pub fn with_keepalive(self, enabled: bool) -> (r: TcpClientConfig)
        ensures
            r == (TcpClientConfig { keepalive: enabled, ..self }),
    {
        TcpClientConfig { keepalive: enabled, ..self }
    }

    pub fn with_heartbeat(self, enabled: bool) -> (r: TcpClientConfig)
        ensures
            r == (TcpClientConfig { heartbeat: enabled, ..self }),
    {
        TcpClientConfig { heartbeat: enabled, ..self }
    }

    pub fn with_heartbeat_interval(self, ms: u64) -> (r: TcpClientConfig)
        ensures
            r == (TcpClientConfig { heartbeat_interval_ms: ms, ..self }),
    {
        TcpClientConfig { heartbeat_interval_ms: ms, ..self }
    }

    pub fn with_auto_reconnect(self, enabled: bool) -> (r: TcpClientConfig)
        ensures
            r == (TcpClientConfig { auto_reconnect: enabled, ..self }),
    {
        TcpClientConfig { auto_reconnect: enabled, ..self }
    }

    pub fn with_reconnect_interval(self, ms: u64) -> (r: TcpClientConfig)
        ensures
            r == (TcpClientConfig { reconnect_interval_ms: ms, ..self }),
    {
        TcpClientConfig { reconnect_interval_ms: ms, ..self }
    }

    pub fn with_max_reconnect_attempts(self, attempts: u32) -> (r: TcpClientConfig)
        ensures
            r == (TcpClientConfig { max_reconnect_attempts: attempts, ..self }),
    {
        TcpClientConfig { max_reconnect_attempts: attempts, ..self }
    }

    /// Checks the settings; `addr_parses` tells whether the server address
    /// is a socket address (the caller parses it).
    pub fn validate(&self, addr_parses: bool) -> (r: Result<(), String>)
        ensures
            r is Ok <==> client_config_error(*self, addr_parses) is None,
            r matches Err(m) ==> client_config_error(*self, addr_parses) == Some(m@),
    {
        let mut v: Vec<char> = Vec::new();
        if !addr_parses {
            push_str_chars(&mut v, "无效的服务端地址: ");
            push_str_chars(&mut v, self.server_addr.as_str());
        } else if self.buffer_size == 0 {
            push_str_chars(&mut v, "缓冲区大小必须大于 0");
        } else if self.connect_timeout_ms == 0 {
            push_str_chars(&mut v, "连接超时时间必须大于 0");
        } else if self.heartbeat && self.heartbeat_interval_ms == 0 {
            push_str_chars(&mut v, "心跳间隔必须大于 0");
        } else if self.auto_reconnect && self.reconnect_interval_ms == 0 {
            push_str_chars(&mut v, "重连间隔必须大于 0");
        } else {
            return Ok(());
        }
        Err(string_from_chars(v))
    }
}

impl Default for TcpClientConfig {
    /// A client of "127.0.0.1:8080".
    fn default() -> (r: TcpClientConfig)
        ensures
            r.server_addr@ == "127.0.0.1:8080"@,
            r.buffer_size == DEFAULT_BUFFER_SIZE,
            r.connect_timeout_ms == DEFAULT_CONNECT_TIMEOUT_MS,
            r.timeout_ms == DEFAULT_TIMEOUT_MS,
            r.keepalive,
            r.heartbeat,
            r.heartbeat_interval_ms == DEFAULT_HEARTBEAT_INTERVAL_MS,
            !r.auto_reconnect,
            r.reconnect_interval_ms == 3000,
            r.max_reconnect_attempts == 0,
    {
        TcpClientConfig::new("127.0.0.1:8080")
    }
}

} // verus!
