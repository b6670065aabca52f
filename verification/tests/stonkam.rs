use cam_toolkit::stonkam_avtp::error::StonkamAvtpError;
use cam_toolkit::stonkam_avtp::header::StonkamAvtpHeader;
use cam_toolkit::stonkam_avtp::parser::StonkamAvtpParser;
use std::time::SystemTime;

fn start_packet(start: bool, end: bool, jpeg: &[u8]) -> Vec<u8> {
    let mut frame = Vec::new();
    frame.extend_from_slice(&[0x00, 0x11, 0x22, 0x33, 0x44, 0x55]);
    frame.extend_from_slice(&[0x66, 0x77, 0x88, 0x99, 0xAA, 0xBB]);
    frame.extend_from_slice(&[0x00, 0x22]);
    frame.push(0x00);
    frame.push(if start { 0x01 } else { 0x00 });
    frame.extend_from_slice(&[0x00; 18]);
    frame.extend_from_slice(&[0x00, jpeg.len() as u8]);
    frame.push(if end { 0x10 } else { 0x00 });
    frame.push(0x00);
    frame.extend_from_slice(jpeg);
    frame
}

#[test]
fn test_parse_valid_packet() {
    let mut frame = Vec::new();
    frame.extend_from_slice(&[0x00, 0x11, 0x22, 0x33, 0x44, 0x55]);
    frame.extend_from_slice(&[0x66, 0x77, 0x88, 0x99, 0xAA, 0xBB]);
    frame.extend_from_slice(&[0x00, 0x22]);
    frame.push(0x00);
    frame.push(0x01);
    frame.extend_from_slice(&[0x00, 0x00, 0x00, 0x00]);
    frame.extend_from_slice(&[0x00; 14]);
    frame.extend_from_slice(&[0x00, 0x64]);
    frame.push(0x00);
    frame.push(0x00);
    frame.extend_from_slice(&[0x00; 5]);
    frame.push(0x50);
    frame.push(0x28);
    frame.push(0x20);
    frame.extend_from_slice(&[0x00, 0x00]);
    frame.extend_from_slice(&[0x00, 0x00]);
    frame.extend_from_slice(&[0xFF, 0xD8]);
    frame.extend_from_slice(&[0x00; 86]);
    let header = StonkamAvtpHeader::from_ethernet_frame(&frame).unwrap();
    assert_eq!(header.frame_start, true);
    assert_eq!(header.frame_end, false);
    assert_eq!(header.payload_len, 100);
    let jpeg_data = StonkamAvtpHeader::get_jpeg_data(&frame).unwrap();
    let embedded_header = StonkamAvtpHeader::parse_jpeg_embedded_header(jpeg_data).unwrap();
    assert_eq!(embedded_header.qp, 80);
    assert_eq!(embedded_header.width, 320);
    assert_eq!(embedded_header.height, 256);
}

#[test]
fn test_invalid_ethertype() {
    let mut frame = Vec::new();
    frame.extend_from_slice(&[0x00; 12]);
    frame.extend_from_slice(&[0x08, 0x00]);
    frame.extend_from_slice(&[0x00; 24]);
    let result = StonkamAvtpHeader::from_ethernet_frame(&frame);
    assert!(result.is_err());
}

#[test]
fn mod_test_buffer_too_short() {
    let frame = vec![0x00; 30];
    let result = StonkamAvtpHeader::from_ethernet_frame(&frame);
    assert!(result.is_err());
}

#[test]
fn parser_reassembles_a_frame() {
    let mut parser = StonkamAvtpParser::new();
    let mut first = vec![0, 0, 0, 0, 0, 80, 40, 32, 0, 0, 0, 0];
    first.extend_from_slice(&[0xAB, 0xCD]);
    assert_eq!(parser.parse_packet(&start_packet(true, false, &first), SystemTime::now()).unwrap(), None);
    let out = parser.parse_packet(&start_packet(false, true, &[0xEE, 0xFF, 0xD9]), SystemTime::now()).unwrap().unwrap();
    assert_eq!(&out[0..4], &[0xFF, 0xE0, 0x00, 0x10]);
    assert_eq!(&out[out.len() - 5..], &[0xAB, 0xCD, 0xEE, 0xFF, 0xD9]);
    // header: 18 + 5 + 64 + 1 + 64 + 5 + 4 + 10 + 14 bytes
    assert_eq!(out.len(), 185 + 5);
    assert_eq!(parser.get_stats(), (1, 2, 0));
    // qp 80: scale 40, first luma entry (16 * 40 + 50) / 100 = 6
    assert_eq!(out[23], 6);
}

#[test]
fn parser_rejects_out_of_order_and_oversized() {
    let mut parser = StonkamAvtpParser::with_config(4);
    match parser.parse_packet(&start_packet(false, false, &[1, 2]), SystemTime::now()) {
        Err(StonkamAvtpError::PacketOrderError { expected, actual }) => {
            assert_eq!(expected, "起始包");
            assert_eq!(actual, "中间包或结束包");
        }
        _ => panic!("expected an order error"),
    }
    let first = vec![0, 0, 0, 0, 0, 50, 1, 1, 0, 0, 0, 0];
    assert_eq!(parser.parse_packet(&start_packet(true, false, &first), SystemTime::now()).unwrap(), None);
    match parser.parse_packet(&start_packet(false, false, &[1, 2, 3]), SystemTime::now()) {
        Err(StonkamAvtpError::InvalidImageParameter { param, value }) => {
            assert_eq!(param, "frame_size");
            assert_eq!(value, 3);
        }
        _ => panic!("expected a size error"),
    }
    assert_eq!(parser.get_stats(), (0, 3, 1));
    let zero = vec![0, 0, 0, 0, 0, 50, 0, 1, 0, 0, 0, 0];
    assert!(matches!(
        parser.parse_packet(&start_packet(true, false, &zero), SystemTime::now()),
        Err(StonkamAvtpError::InvalidImageParameter { value: 0, .. })
    ));
    assert!(matches!(
        StonkamAvtpHeader::get_jpeg_data(&[0x22; 38]),
        Err(StonkamAvtpError::BufferTooShort { need: 39, got: 38 })
    ));
}

#[test]
fn ethertype_needs_both_bytes() {
    let mut frame = vec![0x00; 12];
    frame.extend_from_slice(&[0x11, 0x22]);
    frame.extend_from_slice(&[0x00; 24]);
    assert!(matches!(
        StonkamAvtpHeader::from_ethernet_frame(&frame),
        Err(StonkamAvtpError::InvalidEtherType(0x1122))
    ));
}

#[test]
fn quality_outside_range_is_an_error() {
    let mut parser = StonkamAvtpParser::new();
    for qp in [0u8, 101, 255] {
        let data = vec![0, 0, 0, 0, 0, qp, 4, 4, 0, 0, 0, 0];
        match parser.parse_packet(&start_packet(true, false, &data), SystemTime::now()) {
            Err(StonkamAvtpError::InvalidImageParameter { param, value }) => {
                assert_eq!(param, "qp");
                assert_eq!(value, qp as u32);
            }
            other => panic!("unexpected {:?}", other),
        }
    }
}
