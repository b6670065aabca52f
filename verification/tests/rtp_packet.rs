use cam_toolkit::rtp::error::RtpError;
use cam_toolkit::rtp::packet::{RtpPacket, payload_type_name};

fn make_rtp_bytes(
    version: u8,
    padding: bool,
    extension: bool,
    csrc_count: u8,
    marker: bool,
    pt: u8,
    seq: u16,
    ts: u32,
    ssrc: u32,
    csrcs: &[u32],
    payload: &[u8],
) -> Vec<u8> {
    let mut buf = Vec::new();
    let v_p_x_cc = (version << 6) | ((padding as u8) << 5) | ((extension as u8) << 4) | (csrc_count & 0x0f);
    let m_pt = ((marker as u8) << 7) | (pt & 0x7f);
    buf.push(v_p_x_cc);
    buf.push(m_pt);
    buf.extend_from_slice(&seq.to_be_bytes());
    buf.extend_from_slice(&ts.to_be_bytes());
    buf.extend_from_slice(&ssrc.to_be_bytes());
    for csrc in csrcs {
        buf.extend_from_slice(&csrc.to_be_bytes());
    }
    buf.extend_from_slice(payload);
    buf
}

#[test]
fn test_parse_minimal_header() {
    let data = make_rtp_bytes(2, false, false, 0, false, 0, 1, 12345, 0xdeadbeef, &[], &[0x01, 0x02, 0x03]);
    let pkt = RtpPacket::from_bytes(&data).unwrap();
    assert_eq!(pkt.header.version, 2);
    assert!(!pkt.header.padding);
    assert!(!pkt.header.extension);
    assert_eq!(pkt.header.payload_type, 0);
    assert_eq!(pkt.header.sequence_number, 1);
    assert_eq!(pkt.header.timestamp, 12345);
    assert_eq!(pkt.header.ssrc, 0xdeadbeef);
    assert_eq!(&pkt.payload[..], &[0x01, 0x02, 0x03]);
}

#[test]
fn test_parse_with_csrc() {
    let data = make_rtp_bytes(2, false, false, 2, true, 8, 42, 999, 0x11111111, &[0x22222222, 0x33333333], &[0xff]);
    let pkt = RtpPacket::from_bytes(&data).unwrap();
    assert_eq!(pkt.header.csrcs.len(), 2);
    assert_eq!(pkt.header.csrcs[0], 0x22222222);
    assert_eq!(pkt.header.csrcs[1], 0x33333333);
    assert!(pkt.header.marker);
    assert_eq!(pkt.header.payload_type, 8);
}

#[test]
fn packet_test_buffer_too_short() {
    let err = RtpPacket::from_bytes(&[0x80]).unwrap_err();
    assert!(matches!(err, RtpError::BufferTooShort { .. }));
}

#[test]
fn test_empty_payload() {
    let data = make_rtp_bytes(2, false, false, 0, false, 0, 1, 0, 0, &[], &[]);
    let pkt = RtpPacket::from_bytes(&data).unwrap();
    assert!(pkt.payload.is_empty());
}

#[test]
fn test_payload_type_name() {
    assert_eq!(payload_type_name(0), "PCMU");
    assert_eq!(payload_type_name(8), "PCMA");
    assert_eq!(payload_type_name(96), "Dynamic");
    assert_eq!(payload_type_name(127), "Dynamic");
    assert_eq!(payload_type_name(200), "Unknown");
}

#[test]
fn extension_and_padding() {
    let mut data = make_rtp_bytes(2, true, true, 0, false, 96, 7, 0, 0, &[], &[]);
    data.extend_from_slice(&[0xBE, 0xDE, 0x00, 0x01, 1, 2, 3, 4]);
    data.extend_from_slice(&[9, 8, 7, 0, 0, 2]);
    let pkt = RtpPacket::from_bytes(&data).unwrap();
    assert_eq!(&pkt.payload[..], &[9, 8, 7, 0]);
    let mut bad = make_rtp_bytes(2, true, false, 0, false, 96, 7, 0, 0, &[], &[]);
    bad.extend_from_slice(&[1, 5]);
    assert!(matches!(RtpPacket::from_bytes(&bad), Err(RtpError::ParseError(m)) if m == "invalid padding size"));
    let short = make_rtp_bytes(2, false, false, 3, false, 96, 7, 0, 0, &[1], &[]);
    assert!(matches!(RtpPacket::from_bytes(&short), Err(RtpError::BufferTooShort { need: 24, got: 16 })));
}
