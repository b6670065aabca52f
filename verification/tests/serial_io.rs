use cam_toolkit::serial::error::SerialError;
use cam_toolkit::serial::protocol::{DelimiterParser, LengthPrefixParser, ProtocolParser};
use cam_toolkit::serial::reader::{
    FrameReader, ReadAction, ReadEvent, not_open_error, raw_read_result, write_error,
};
use cam_toolkit::tcp::message::TcpMessage;
use cam_toolkit::tcp::session::{ConnectionAdmission, MessageReaction, react_to_message};

#[test]
fn frame_reader_collects_until_a_frame() {
    let parser = DelimiterParser::new(b"\n");
    let mut reader = FrameReader::new();
    match reader.step(&parser, ReadEvent::Data(b"hel".to_vec())) {
        ReadAction::Continue => {}
        other => panic!("unexpected {:?}", other),
    }
    match reader.step(&parser, ReadEvent::Data(b"lo\nnext".to_vec())) {
        ReadAction::Finish(Ok(frame)) => assert_eq!(frame, b"hello".to_vec()),
        other => panic!("unexpected {:?}", other),
    }
}

#[test]
fn frame_reader_errors() {
    let parser = LengthPrefixParser::new(2, true).unwrap().max_frame_length(4);
    let mut reader = FrameReader::new();
    match reader.step(&parser, ReadEvent::Data(vec![0x00, 0x10])) {
        ReadAction::Finish(Err(SerialError::ProtocolError(_))) => {}
        other => panic!("unexpected {:?}", other),
    }
    let mut reader = FrameReader::new();
    match reader.step(&parser, ReadEvent::TimedOut) {
        ReadAction::Finish(Err(e)) => assert_eq!(e, SerialError::Timeout("读取超时，未收到完整帧".to_string())),
        other => panic!("unexpected {:?}", other),
    }
    match reader.step(&parser, ReadEvent::Closed) {
        ReadAction::Finish(Err(e)) => assert_eq!(e, SerialError::NotConnected("连接已关闭".to_string())),
        other => panic!("unexpected {:?}", other),
    }
    match reader.step(&parser, ReadEvent::Failed("boom".to_string())) {
        ReadAction::Finish(Err(e)) => assert_eq!(e, SerialError::IoError("读取失败: boom".to_string())),
        other => panic!("unexpected {:?}", other),
    }
}

#[test]
fn raw_reads_and_write_errors() {
    assert_eq!(raw_read_result(ReadEvent::Data(vec![1, 2])), Ok(vec![1, 2]));
    assert_eq!(
        raw_read_result(ReadEvent::TimedOut),
        Err(SerialError::Timeout("读取超时".to_string()))
    );
    assert_eq!(not_open_error(), SerialError::NotConnected("请先打开串口".to_string()));
    assert_eq!(write_error("x"), SerialError::IoError("写入失败: x".to_string()));
    let parser = DelimiterParser::new(b"\r\n");
    assert_eq!(parser.encode_frame(b"ab"), b"ab\r\n".to_vec());
}

#[test]
fn connections_get_ids_within_the_limit() {
    let mut a = ConnectionAdmission::new();
    assert_eq!(a.accept_connection(0, 2), Some(1));
    assert_eq!(a.accept_connection(1, 2), Some(2));
    assert_eq!(a.accept_connection(2, 2), None);
    assert_eq!(a.accept_connection(1, 2), Some(3));
}

#[test]
fn messages_get_their_reaction() {
    let ping = TcpMessage::ping();
    assert_eq!(react_to_message(&ping), MessageReaction::ReplyPong(ping.timestamp));
    assert_eq!(react_to_message(&TcpMessage::pong(5)), MessageReaction::RoundTrip);
    assert_eq!(
        react_to_message(&TcpMessage::broadcast("hi")),
        MessageReaction::Deliver { rebroadcast: true }
    );
    assert_eq!(
        react_to_message(&TcpMessage::data("hi")),
        MessageReaction::Deliver { rebroadcast: false }
    );
}
