use bytes::Bytes;
use cam_toolkit::rtp::decoder::frame::MediaPacket;
use cam_toolkit::rtp::decoder::types::CodecType;
use cam_toolkit::rtp::h264::{
    H264Reassembler, NalUnitType, has_empty_aggregated_nal, parse_nal_header,
};
use cam_toolkit::rtp::h265::{H265NalUnitType, H265Reassembler, parse_h265_nal_header};
use cam_toolkit::rtp::mjpeg::{JpegRtpHeader, MjpegReassembler};
use cam_toolkit::rtp::packet::{RtpHeader, RtpPacket};

fn make_packet(payload: Vec<u8>, pt: u8, timestamp: u32, marker: bool, sequence_number: u16) -> RtpPacket {
    RtpPacket {
        header: RtpHeader {
            version: 2,
            padding: false,
            extension: false,
            marker,
            payload_type: pt,
            sequence_number,
            timestamp,
            ssrc: 0x12345678,
            csrcs: vec![],
        },
        payload: Bytes::from(payload),
    }
}

#[test]
fn test_parse_nal_header() {
    let (forbidden, nri, nal_type) = parse_nal_header(0x67);
    assert!(!forbidden);
    assert_eq!(nri, 3);
    assert_eq!(nal_type, NalUnitType::Sps);
}

#[test]
fn h264_test_single_nal() {
    let mut reassembler = H264Reassembler::new();
    let sps_payload = vec![0x67, 0x42, 0x00, 0x1E, 0xAB, 0xCD];
    let packet = make_packet(sps_payload, 96, 1000, true, 0);
    let au = reassembler.push_packet(&packet);
    assert!(au.is_some());
    let au = au.unwrap();
    assert!(au.data.len() > 4);
    assert!(!au.is_keyframe);
    assert_eq!(&au.data[..], &[0, 0, 0, 1, 0x67, 0x42, 0x00, 0x1E, 0xAB, 0xCD]);
    let packet = MediaPacket::from(au);
    assert_eq!(packet.codec_type, CodecType::H264);
    assert_eq!(packet.pts, 1000);
}

#[test]
fn test_fu_a_reassembly() {
    let mut reassembler = H264Reassembler::new();
    let pkt1 = make_packet(vec![0x7C, 0x85, 0x01, 0x02, 0x03], 96, 2000, false, 1);
    let pkt2 = make_packet(vec![0x7C, 0x05, 0x04, 0x05, 0x06], 96, 2000, false, 2);
    let pkt3 = make_packet(vec![0x7C, 0x45, 0x07, 0x08, 0x09], 96, 2000, true, 3);
    reassembler.push_packet(&pkt1);
    reassembler.push_packet(&pkt2);
    let au = reassembler.push_packet(&pkt3);
    assert!(au.is_some());
    let au = au.unwrap();
    assert!(au.is_keyframe);
    assert!(au.data.len() > 4 + 3 + 3 + 3);
    assert_eq!(&au.data[4..5], &[0x65]);
}

#[test]
fn test_parse_h265_nal_header() {
    let result = parse_h265_nal_header(&[0x40, 0x01]);
    assert!(result.is_some());
    let (_, nal_type, layer_id, tid) = result.unwrap();
    assert_eq!(nal_type, H265NalUnitType::Vps);
    assert_eq!(layer_id, 0);
    assert_eq!(tid, 1);
    assert_eq!(H265NalUnitType::from_u8(19), H265NalUnitType::IdrWRadl);
    assert_eq!(H265NalUnitType::from_u8(20), H265NalUnitType::IdrNlp);
    assert_eq!(H265NalUnitType::from_u8(48), H265NalUnitType::Ap);
    assert_eq!(H265NalUnitType::from_u8(49), H265NalUnitType::Fu);
}

#[test]
fn h265_test_single_nal() {
    let mut reassembler = H265Reassembler::new();
    let vps_payload = vec![0x40, 0x01, 0x0C, 0x01, 0x02];
    let packet = make_packet(vps_payload, 96, 1000, true, 0);
    let au = reassembler.push_packet(&packet);
    assert!(au.is_some());
    let au = au.unwrap();
    assert!(au.data.len() > 4);
    assert!(!au.is_keyframe);
}

#[test]
fn test_fu_reassembly() {
    let mut reassembler = H265Reassembler::new();
    let pkt1 = make_packet(vec![0x62, 0x01, 0x93, 0x01, 0x02, 0x03], 96, 2000, false, 1);
    let pkt2 = make_packet(vec![0x62, 0x01, 0x13, 0x04, 0x05, 0x06], 96, 2000, false, 2);
    let pkt3 = make_packet(vec![0x62, 0x01, 0x53, 0x07, 0x08, 0x09], 96, 2000, true, 3);
    reassembler.push_packet(&pkt1);
    reassembler.push_packet(&pkt2);
    let au = reassembler.push_packet(&pkt3);
    assert!(au.is_some());
    let au = au.unwrap();
    assert!(au.is_keyframe);
    assert_eq!(&au.data[4..6], &[0x26, 0x01]);
}

#[test]
fn test_jpeg_rtp_header_parse() {
    let payload = [0x00, 0x00, 0x00, 0x00, 0x01, 0x40, 0x00, 0xF0, 0xFF, 0xD8, 0xFF, 0xE0];
    let header = JpegRtpHeader::from_payload(&payload).unwrap();
    assert_eq!(header.jpeg_type, 0);
    assert_eq!(header.q, 0);
    assert_eq!(header.offset, 0);
    assert_eq!(header.width, 320);
    assert_eq!(header.height, 240);
    assert_eq!(header.data_offset(), 8);
}

#[test]
fn test_mjpeg_reassembler() {
    let mut reassembler = MjpegReassembler::new();
    let payload1 = vec![0x00, 0x00, 0x00, 0x00, 0x01, 0x40, 0x00, 0xF0, 0xAA, 0xBB, 0xCC];
    let payload2 = vec![0x00, 0x00, 0x00, 0x03, 0x01, 0x40, 0x00, 0xF0, 0xDD, 0xEE, 0xFF];
    assert!(reassembler.push_packet(&make_packet(payload1, 26, 5000, false, 1)).is_none());
    let frame = reassembler.push_packet(&make_packet(payload2, 26, 5000, true, 2));
    let frame = frame.unwrap();
    assert_eq!(frame.timestamp, 5000);
    assert_eq!(frame.jpeg_header.width, 320);
    assert_eq!(&frame.data[..], &[0xAA, 0xBB, 0xCC, 0xDD, 0xEE, 0xFF]);
    let packet = MediaPacket::from(frame);
    assert!(packet.keyframe);
    assert_eq!(packet.codec_type, CodecType::MJPEG);
}

#[test]
fn fragments_give_back_the_nal_unit() {
    // A non-IDR slice (header 0x41) cut into uneven fragments, then a lone end.
    let nal = [0x41u8, 0x9A, 0x01, 0x02, 0x03, 0x04, 0x05];
    let mut reassembler = H264Reassembler::new();
    reassembler.push_packet(&make_packet(vec![0x5C, 0x81, 0x9A], 96, 7, false, 1));
    reassembler.push_packet(&make_packet(vec![0x5C, 0x01, 0x01, 0x02, 0x03, 0x04], 96, 7, false, 2));
    let au = reassembler.push_packet(&make_packet(vec![0x5C, 0x41, 0x05], 96, 7, true, 3)).unwrap();
    let mut expected = vec![0, 0, 0, 1];
    expected.extend_from_slice(&nal);
    assert_eq!(&au.data[..], &expected[..]);

    // One H.265 fragment with both the start and the end bit.
    let mut reassembler = H265Reassembler::new();
    let au = reassembler.push_packet(&make_packet(vec![0x62, 0x01, 0xC1, 0xAA, 0xBB], 96, 9, true, 1)).unwrap();
    assert_eq!(&au.data[..], &[0, 0, 0, 1, 0x02, 0x01, 0xAA, 0xBB]);
}

#[test]
fn jpeg_type_spec_fields() {
    // type 5 in bits 7-5, q 2 in bits 4-3, extension and restart bits set.
    let payload = [0b1011_0111u8, 0x00, 0x01, 0x02, 0x00, 0x10, 0x00, 0x08];
    let header = JpegRtpHeader::from_payload(&payload).unwrap();
    assert_eq!(header.jpeg_type, 5);
    assert_eq!(header.q, 2);
    assert_eq!(header.offset, 0x0102);
    assert_eq!((header.width, header.height), (16, 8));
}

#[test]
fn aggregation_with_an_empty_unit_is_dropped() {
    // STAP-A: a unit of length 0, then one of length 1.
    let stap = vec![0x18, 0x00, 0x00, 0x00, 0x01, 0x41];
    assert!(has_empty_aggregated_nal(&stap));
    assert!(!has_empty_aggregated_nal(&[0x18, 0x00, 0x01, 0x41]));
    let mut reassembler = H264Reassembler::new();
    assert!(reassembler.push_packet(&make_packet(stap, 96, 5, true, 1)).is_none());
    let au = reassembler.push_packet(&make_packet(vec![0x41, 0x01], 96, 6, true, 2)).unwrap();
    assert_eq!(&au.data[..], &[0, 0, 0, 1, 0x41, 0x01]);
}

#[test]
fn mjpeg_frames_carry_no_quant_tables() {
    let mut reassembler = MjpegReassembler::new();
    let payload = vec![0x00, 0x00, 0x00, 0x00, 0x01, 0x40, 0x00, 0xF0, 0xAA];
    let frame = reassembler.push_packet(&make_packet(payload, 26, 9, true, 1)).unwrap();
    assert!(frame.quant_tables.is_none());
    assert!(reassembler.frames()[0].quant_tables.is_none());
}

#[test]
fn rtp_packets_clone() {
    let packet = make_packet(vec![1, 2, 3], 96, 7, true, 9);
    let copy = packet.clone();
    assert_eq!(&copy.payload[..], &[1, 2, 3]);
    assert_eq!(copy.header.timestamp, 7);
    assert_eq!(copy.header.sequence_number, 9);
    assert!(copy.header.marker);
}
