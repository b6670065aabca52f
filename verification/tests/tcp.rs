use cam_toolkit::tcp::config::{
    DEFAULT_BUFFER_SIZE, DEFAULT_MAX_CONNECTIONS, TcpClientConfig, TcpServerConfig,
};
use cam_toolkit::tcp::message::{MessageType, TcpMessage};

// Whether the address text is a socket address is told by the caller; these
// are the answers of `str::parse::<SocketAddr>` for the texts below.
const PARSES: bool = true;
const DOES_NOT_PARSE: bool = false;

#[test]
fn test_ping_pong() {
    let ping = TcpMessage::ping();
    assert!(ping.is_ping());
    assert!(ping.is_heartbeat());
    let pong = TcpMessage::pong(ping.timestamp);
    assert!(pong.is_pong());
    assert!(pong.is_heartbeat());
    assert_eq!(pong.payload, ping.timestamp.to_string());
}

#[test]
fn tcp_message_constructors() {
    let m = TcpMessage::data("Hello, TCP!");
    assert_eq!(m.msg_type, MessageType::Data);
    assert_eq!(m.payload, "Hello, TCP!");
    assert!(!m.is_heartbeat());
    let c = TcpMessage::custom("Login", "user=alice");
    assert_eq!(c.msg_type, MessageType::Custom("Login".to_string()));
    assert_eq!(c.msg_type.to_string(), "Custom(Login)");
    assert_eq!(TcpMessage::broadcast("x").msg_type.to_string(), "Broadcast");
    assert_eq!(TcpMessage::pong(1719000000000).payload, "1719000000000");
    assert_eq!(m.elapsed_since(m.timestamp + 25), 25);
    assert_eq!(m.elapsed_since(0), 0);
    assert!(m.elapsed_millis() < 60_000);
}

#[test]
fn test_server_config_validation() {
    let config = TcpServerConfig::new("0.0.0.0:8080")
        .with_buffer_size(16384)
        .with_max_connections(2048);
    assert!(config.validate(PARSES).is_ok());
}

#[test]
fn test_invalid_server_addr() {
    let config = TcpServerConfig::new("invalid_addr");
    assert_eq!(
        config.validate(DOES_NOT_PARSE),
        Err("无效的监听地址: invalid_addr".to_string())
    );
}

#[test]
fn test_client_config_validation() {
    let config = TcpClientConfig::new("127.0.0.1:8080")
        .with_connect_timeout(3000)
        .with_timeout(5000)
        .with_auto_reconnect(true)
        .with_reconnect_interval(2000);
    assert!(config.validate(PARSES).is_ok());
}

#[test]
fn test_zero_max_connections() {
    let config = TcpServerConfig::new("0.0.0.0:8080").with_max_connections(0);
    assert!(config.validate(PARSES).is_err());
}

#[test]
fn tcp_config_rules() {
    let s = TcpServerConfig::default();
    assert_eq!(s.listen_addr, "0.0.0.0:8080");
    assert_eq!(s.buffer_size, DEFAULT_BUFFER_SIZE);
    assert_eq!(s.max_connections, DEFAULT_MAX_CONNECTIONS);
    assert_eq!(
        s.clone().with_buffer_size(0).validate(true),
        Err("缓冲区大小必须大于 0".to_string())
    );
    assert_eq!(
        s.clone().with_heartbeat_interval(0).validate(true),
        Err("心跳间隔必须大于 0".to_string())
    );
    assert!(s.clone().with_heartbeat(false).with_heartbeat_interval(0).validate(true).is_ok());
    let c = TcpClientConfig::default();
    assert_eq!(c.server_addr, "127.0.0.1:8080");
    assert_eq!(c.reconnect_interval_ms, 3000);
    assert_eq!(
        c.clone().with_connect_timeout(0).validate(true),
        Err("连接超时时间必须大于 0".to_string())
    );
    assert_eq!(
        c.clone().with_auto_reconnect(true).with_reconnect_interval(0).validate(true),
        Err("重连间隔必须大于 0".to_string())
    );
    assert!(c.clone().with_reconnect_interval(0).validate(true).is_ok());
    assert_eq!(c.validate(false), Err("无效的服务端地址: 127.0.0.1:8080".to_string()));
}
