use cam_toolkit::serial::VERSION;
use cam_toolkit::serial::config::SerialConfig;
use cam_toolkit::serial::error::{IoFailure, SerialError};
use cam_toolkit::serial::ports::port_list_result;
use cam_toolkit::serial::protocol::{DelimiterParser, LengthPrefixParser, ParseResult, ProtocolParser};
use cam_toolkit::serial::types::{ConnectionStatus, DataBits, FlowControl, Parity, StopBits};

#[test]
fn test_config_new() {
    let config = SerialConfig::new("COM1");
    assert_eq!(config.port_name, "COM1");
    assert_eq!(config.baud_rate, 115200);
    assert_eq!(config.data_bits, DataBits::Eight);
    assert_eq!(config.stop_bits, StopBits::One);
    assert_eq!(config.parity, Parity::NoParity);
    assert_eq!(config.flow_control, FlowControl::NoFlowControl);
    assert_eq!(config.timeout_ms, 1000);
    assert_eq!(config.read_buffer_size, 4096);
}

#[test]
fn test_config_builder() {
    let config = SerialConfig::new("COM3")
        .baud_rate(9600)
        .data_bits(DataBits::Seven)
        .stop_bits(StopBits::Two)
        .parity(Parity::Even)
        .flow_control(FlowControl::Hardware)
        .timeout_ms(500)
        .read_buffer_size(2048);
    assert_eq!(config.port_name, "COM3");
    assert_eq!(config.baud_rate, 9600);
    assert_eq!(config.data_bits, DataBits::Seven);
    assert_eq!(config.stop_bits, StopBits::Two);
    assert_eq!(config.parity, Parity::Even);
    assert_eq!(config.flow_control, FlowControl::Hardware);
    assert_eq!(config.timeout_ms, 500);
    assert_eq!(config.read_buffer_size, 2048);
}

#[test]
fn test_config_validate() {
    let config = SerialConfig::new("COM1");
    assert!(config.validate().is_ok());
    let config = SerialConfig::new("");
    assert!(config.validate().is_err());
}

#[test]
fn test_config_default() {
    let config = SerialConfig::default();
    assert_eq!(config.baud_rate, 115200);
}

#[test]
fn config_validation_messages() {
    assert_eq!(SerialConfig::new("").validate(), Err("端口名称不能为空".to_string()));
    assert_eq!(SerialConfig::new("x").timeout_ms(0).validate(), Err("超时时间必须大于 0".to_string()));
    assert_eq!(
        SerialConfig::new("x").read_buffer_size(63).validate(),
        Err("缓冲区大小必须至少为 64 字节".to_string())
    );
    assert!(SerialConfig::new("x").has_standard_baud_rate());
    assert!(!SerialConfig::new("x").baud_rate(12345).has_standard_baud_rate());
}

#[test]
fn test_error_display() {
    let err = SerialError::OpenError("COM3 不存在".to_string());
    assert_eq!(err.to_string(), "打开串口失败: COM3 不存在");
    let err = SerialError::PortClosed;
    assert_eq!(err.to_string(), "串口已关闭");
    let err = SerialError::NotConnected("请先打开串口".to_string());
    assert_eq!(err.to_string(), "未连接: 请先打开串口");
    let err = SerialError::ConfigError("波特率无效".to_string());
    assert_eq!(err.to_string(), "配置错误: 波特率无效");
    let err = SerialError::Timeout("读取超时".to_string());
    assert_eq!(err.to_string(), "操作超时: 读取超时");
    let err = SerialError::ProtocolError("帧校验失败".to_string());
    assert_eq!(err.to_string(), "协议解析错误: 帧校验失败");
}

#[test]
fn error_classification() {
    assert_eq!(
        SerialError::from_port_message("open: Permission denied".to_string()),
        SerialError::OpenError("权限不足，无法打开串口: open: Permission denied".to_string())
    );
    assert_eq!(
        SerialError::from_port_message("Device or resource busy".to_string()),
        SerialError::OpenError("串口被占用: Device or resource busy".to_string())
    );
    assert_eq!(
        SerialError::from_port_message("No such file or directory".to_string()),
        SerialError::OpenError("串口不存在: No such file or directory".to_string())
    );
    assert_eq!(
        SerialError::from_port_message("other".to_string()),
        SerialError::OpenError("other".to_string())
    );
    assert_eq!(
        SerialError::from_io(IoFailure::TimedOut, "t".to_string()),
        SerialError::Timeout("IO 超时: t".to_string())
    );
    assert_eq!(
        SerialError::from_io(IoFailure::Other, "x".to_string()),
        SerialError::IoError("x".to_string())
    );
}

#[test]
fn test_connection_status_display() {
    assert_eq!(ConnectionStatus::Disconnected.to_string(), "已断开");
    assert_eq!(ConnectionStatus::Connecting.to_string(), "连接中");
    assert_eq!(ConnectionStatus::Connected.to_string(), "已连接");
    assert_eq!(ConnectionStatus::Failed("超时".to_string()).to_string(), "连接失败: 超时");
}

#[test]
fn test_data_bits_default() {
    assert_eq!(DataBits::default(), DataBits::Eight);
}

#[test]
fn test_stop_bits_default() {
    assert_eq!(StopBits::default(), StopBits::One);
}

#[test]
fn test_parity_default() {
    assert_eq!(Parity::default(), Parity::NoParity);
}

#[test]
fn test_flow_control_default() {
    assert_eq!(FlowControl::default(), FlowControl::NoFlowControl);
}

#[test]
fn mod_test_list_ports() {
    let listed = serialport::available_ports()
        .map(|ports| ports.into_iter().map(|p| p.port_name).collect::<Vec<String>>())
        .map_err(|e| e.to_string());
    let result = port_list_result(listed);
    assert!(result.is_ok());
}

#[test]
fn test_delimiter_parser() {
    let parser = DelimiterParser::new(b"\n");
    let buffer = b"hello\nworld\n";
    match parser.parse_frame(buffer) {
        ParseResult::Complete(data, consumed) => {
            assert_eq!(&data, b"hello");
            assert_eq!(consumed, 6);
        }
        _ => panic!("应该解析成功"),
    }
    let buffer = b"hello";
    match parser.parse_frame(buffer) {
        ParseResult::Incomplete => {}
        _ => panic!("应该返回 Incomplete"),
    }
    let encoded = parser.encode_frame(b"hello");
    assert_eq!(&encoded, b"hello\n");
}

#[test]
fn test_length_prefix_parser() {
    let parser = LengthPrefixParser::new(2, true).unwrap();
    let mut buffer = Vec::new();
    buffer.extend_from_slice(&5u16.to_be_bytes());
    buffer.extend_from_slice(b"hello");
    match parser.parse_frame(&buffer) {
        ParseResult::Complete(data, consumed) => {
            assert_eq!(&data[2..], b"hello");
            assert_eq!(consumed, 7);
        }
        _ => panic!("应该解析成功"),
    }
    let buffer = vec![0x00, 0x05, 0x68];
    match parser.parse_frame(&buffer) {
        ParseResult::Incomplete => {}
        _ => panic!("应该返回 Incomplete"),
    }
    let encoded = parser.encode_frame(b"hello");
    assert_eq!(&encoded[2..], b"hello");
}

#[test]
fn framing_edge_cases() {
    let keep = DelimiterParser::new(b"\r\n").include_delimiter(true);
    match keep.parse_frame(b"ab\r\ncd") {
        ParseResult::Complete(d, n) => {
            assert_eq!(d, b"ab\r\n".to_vec());
            assert_eq!(n, 4);
        }
        _ => panic!("expected a frame"),
    }
    match DelimiterParser::new(b"\n").max_frame_length(3).parse_frame(b"abcd") {
        ParseResult::Error(m) => assert_eq!(m, "帧长度超过最大限制: 4 > 3"),
        _ => panic!("expected an error"),
    }
    assert!(matches!(LengthPrefixParser::new(3, true), Err(m) if m == "长度字段字节数必须为 1, 2 或 4，当前值: 3"));
    let le4 = LengthPrefixParser::new(4, false).unwrap().length_includes_self(true);
    assert_eq!(le4.encode_frame(b"ab"), vec![6, 0, 0, 0, b'a', b'b']);
    match le4.parse_frame(&[6, 0, 0, 0, b'a', b'b', b'c']) {
        ParseResult::Complete(d, n) => {
            assert_eq!(d, vec![6, 0, 0, 0, b'a', b'b']);
            assert_eq!(n, 6);
        }
        _ => panic!("expected a frame"),
    }
    match le4.parse_frame(&[2, 0, 0, 0]) {
        ParseResult::Error(m) => assert_eq!(m, "长度字段值异常（小于自身长度）"),
        _ => panic!("expected an error"),
    }
    let one = LengthPrefixParser::new(1, true).unwrap().max_frame_length(3);
    match one.parse_frame(&[5, 1, 2]) {
        ParseResult::Error(m) => assert_eq!(m, "帧长度超过最大限制: 6 > 3"),
        _ => panic!("expected an error"),
    }
}

#[test]
fn test_module_version() {
    assert!(!VERSION.is_empty());
}

#[test]
fn port_listing_results() {
    assert_eq!(port_list_result(Ok(vec!["/dev/ttyUSB0".to_string()])).unwrap(), vec!["/dev/ttyUSB0".to_string()]);
    assert_eq!(
        port_list_result(Err("no access".to_string())),
        Err(SerialError::OpenError("枚举串口失败: no access".to_string()))
    );
}

#[test]
fn length_prefix_frames_read_back_and_wait() {
    let parser = LengthPrefixParser::new(2, true).unwrap();
    let frame = parser.encode_frame(b"abc");
    assert_eq!(frame, vec![0, 3, b'a', b'b', b'c']);
    let mut longer = frame.clone();
    longer.extend_from_slice(&[9, 9]);
    match parser.parse_frame(&longer) {
        ParseResult::Complete(d, n) => {
            assert_eq!(d, frame);
            assert_eq!(n, 5);
        }
        _ => panic!("expected a frame"),
    }
    for k in 0..frame.len() {
        assert!(matches!(parser.parse_frame(&frame[..k]), ParseResult::Incomplete));
    }
}

#[test]
fn port_errors_are_sorted_by_their_text() {
    let denied = serialport::Error::new(serialport::ErrorKind::NoDevice, "Permission denied");
    assert_eq!(
        SerialError::from_port_error(denied),
        SerialError::OpenError("权限不足，无法打开串口: Permission denied".to_string())
    );
    let busy = serialport::Error::new(serialport::ErrorKind::NoDevice, "Device or resource busy");
    assert_eq!(
        SerialError::from_port_error(busy),
        SerialError::OpenError("串口被占用: Device or resource busy".to_string())
    );
    let missing = serialport::Error::new(serialport::ErrorKind::NoDevice, "No such file or directory");
    assert_eq!(
        SerialError::from_port_error(missing),
        SerialError::OpenError("串口不存在: No such file or directory".to_string())
    );
    let other = serialport::Error::new(serialport::ErrorKind::Unknown, "odd");
    assert_eq!(SerialError::from_port_error(other), SerialError::OpenError("odd".to_string()));
}
