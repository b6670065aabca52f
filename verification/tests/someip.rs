use cam_toolkit::someip::entry::SomeIPEntry;
use cam_toolkit::someip::error::SomeIPError;
use cam_toolkit::someip::header::SomeIPHeader;
use cam_toolkit::someip::message::SomeIPMessage;
use cam_toolkit::someip::method::SomeIPMethod;
use cam_toolkit::someip::payload::{
    AnyPayload, CamExclusivePayload, EmptyPayload, FindOrOfferPayload, GetCameraROIPayload,
    MediaPayload, Payload, PayloadCodec, PayloadDecoder, PayloadRegistry, SetCameraROIPayload,
    SetNetworkPayload, SubscribePayload, init_default_registry,
};
use cam_toolkit::someip::util::{
    mac_bytes_to_string, mac_string_to_bytes, mac_string_to_u64, u64_to_mac_string,
};

#[test]
fn test_module_integration() {
    let mut msg = SomeIPMessage::new(0x433F, 0x0001, 0x0001, 0x01, 0x00);
    let payload = MediaPayload::default_payload();
    let bytes = msg.build(&payload);
    assert!(!bytes.is_empty());
}

#[test]
fn test_header_to_bytes_roundtrip() {
    let mut header = SomeIPHeader::new(0x433F, 0x0172, 0x0001, 0x0001, 0x01, 0x00);
    header.set_length(32);
    let bytes = header.to_bytes();
    assert_eq!(bytes.len(), 16);
    let parsed = SomeIPHeader::from_bytes(&bytes).unwrap();
    assert_eq!(parsed.get_method_id(), SomeIPMethod::SetMedia);
    assert_eq!(parsed.get_length(), 40);
}

#[test]
fn test_entry_to_bytes_roundtrip() {
    let entry = SomeIPEntry::default_entry();
    let bytes = entry.to_bytes();
    assert_eq!(bytes.len(), 16);
    let parsed = SomeIPEntry::from_bytes(&bytes).unwrap();
    assert_eq!(parsed.service_id, 0x433F_u16.to_be());
}

#[test]
fn test_build_media_payload() {
    let mut msg = SomeIPMessage::new(0x433F, 0x0001, 0x0001, 0x01, 0x00);
    let payload = MediaPayload::default_payload();
    let bytes = msg.build(&payload);
    assert_eq!(bytes.len(), 48);
    let method_id = u16::from_be_bytes([bytes[2], bytes[3]]);
    assert_eq!(method_id, SomeIPMethod::SetMedia.code());
}

#[test]
fn test_build_get_request() {
    let mut msg = SomeIPMessage::new(0x433F, 0x0001, 0x0001, 0x01, 0x00);
    let bytes = msg.build_get(SomeIPMethod::GetMedia);
    assert_eq!(bytes.len(), 16);
    let length = u32::from_be_bytes([bytes[4], bytes[5], bytes[6], bytes[7]]);
    assert_eq!(length, 8);
}

#[test]
fn test_media_payload_to_bytes_roundtrip() {
    let payload = MediaPayload::default_payload();
    let bytes = payload.to_bytes();
    assert_eq!(bytes.len(), 32);
    let parsed = MediaPayload::from_bytes(&bytes).unwrap();
    assert_eq!(parsed.enable_mirror, payload.enable_mirror);
    assert_eq!(parsed.bitrate, payload.bitrate);
}

#[test]
fn test_subscribe_payload_to_bytes_roundtrip() {
    let payload = SubscribePayload::default_payload();
    let bytes = payload.to_bytes();
    assert_eq!(bytes.len(), 4);
    let parsed = SubscribePayload::from_bytes(&bytes).unwrap();
    assert_eq!(parsed.index, payload.index);
}

#[test]
fn test_cam_exclusive_payload_to_bytes_roundtrip() {
    let payload = CamExclusivePayload::default_payload();
    let bytes = payload.to_bytes();
    assert_eq!(bytes.len(), 4);
    let parsed = CamExclusivePayload::from_bytes(&bytes).unwrap();
    assert_eq!(parsed.index, payload.index);
}

#[test]
fn test_find_offer_payload_to_bytes_roundtrip() {
    let payload = FindOrOfferPayload::default_payload();
    let bytes = payload.to_bytes();
    assert_eq!(bytes.len(), 28);
    let parsed = FindOrOfferPayload::from_bytes(&bytes).unwrap();
    assert_eq!(parsed.flag, payload.flag);
}

#[test]
fn test_network_payload_to_bytes_roundtrip() {
    let payload = SetNetworkPayload::default_payload();
    let bytes = payload.to_bytes();
    assert_eq!(bytes.len(), 56);
    let parsed = SetNetworkPayload::from_bytes(&bytes).unwrap();
    assert_eq!(parsed.ip_address, payload.ip_address);
    assert_eq!(parsed.rtsp_port, payload.rtsp_port);
}

#[test]
fn test_set_camera_roi_payload_to_bytes_roundtrip() {
    let payload = SetCameraROIPayload::default_payload();
    let bytes = payload.to_bytes();
    assert_eq!(bytes.len(), 45);
    let parsed = SetCameraROIPayload::from_bytes(&bytes).unwrap();
    assert_eq!(parsed.width, payload.width);
}

#[test]
fn test_get_camera_roi_payload_default() {
    let payload = GetCameraROIPayload::default_payload();
    assert_eq!(payload.quad3, 1920);
    assert_eq!(payload.quad4, 1080);
}

#[test]
fn test_mac_string_to_bytes() {
    let mac = mac_string_to_bytes("aa:27:7a:9c:bd:d2").unwrap();
    assert_eq!(mac, [0xaa, 0x27, 0x7a, 0x9c, 0xbd, 0xd2]);
}

#[test]
fn test_mac_bytes_to_string() {
    let mac = [0xaa, 0x27, 0x7a, 0x9c, 0xbd, 0xd2];
    let s = mac_bytes_to_string(&mac, Some(':'), false);
    assert_eq!(s, "aa:27:7a:9c:bd:d2");
}

#[test]
fn mac_text_formats_and_errors() {
    assert_eq!(mac_string_to_bytes(" AA-27-7A-9C-BD-D2\n").unwrap(), [0xaa, 0x27, 0x7a, 0x9c, 0xbd, 0xd2]);
    assert_eq!(mac_string_to_bytes("aa27.7a9c.bdd2").unwrap(), [0xaa, 0x27, 0x7a, 0x9c, 0xbd, 0xd2]);
    assert_eq!(mac_string_to_bytes("+a0102030405").unwrap(), [0x0a, 0x01, 0x02, 0x03, 0x04, 0x05]);
    assert!(matches!(mac_string_to_bytes("aa:27:7a:9c:bd"), Err(SomeIPError::InvalidMacAddress(_))));
    assert!(matches!(mac_string_to_bytes("zz:27:7a:9c:bd:d2"), Err(SomeIPError::InvalidMacAddress(_))));
    assert!(matches!(mac_string_to_bytes("éa:27:7a:9c:bd:d2"), Err(SomeIPError::InvalidMacAddress(_))));
    assert_eq!(mac_bytes_to_string(&[0xaa, 0x27, 0x7a, 0x9c, 0xbd, 0xd2], None, true), "AA:27:7A:9C:BD:D2");
    assert_eq!(mac_bytes_to_string(&[1, 2, 3, 4, 5, 6], Some('-'), false), "01-02-03-04-05-06");
    assert_eq!(mac_string_to_u64("aa:27:7a:9c:bd:d2").unwrap(), 0xaa277a9cbdd2);
    assert_eq!(u64_to_mac_string(0xffff_aa27_7a9c_bdd2), "aa:27:7a:9c:bd:d2");
    let text = mac_bytes_to_string(&[0x10, 0x20, 0x30, 0x40, 0x50, 0x60], Some(':'), false);
    assert_eq!(mac_string_to_bytes(&text).unwrap(), [0x10, 0x20, 0x30, 0x40, 0x50, 0x60]);
}

#[test]
fn header_exact_bytes_and_short_buffer() {
    let mut header = SomeIPHeader::new(0x1234, 0x5678, 0x9abc, 0xdef0, 0x02, 0x03);
    header.set_length(4);
    assert_eq!(
        header.to_bytes(),
        vec![0x12, 0x34, 0x56, 0x78, 0, 0, 0, 12, 0x9a, 0xbc, 0xde, 0xf0, 1, 1, 2, 3]
    );
    assert_eq!(
        SomeIPHeader::from_bytes(&[0u8; 15]),
        Err(SomeIPError::InsufficientBuffer { expected: 16, actual: 15 })
    );
}

#[test]
fn message_parse_splits_payload() {
    let mut msg = SomeIPMessage::new(0x433F, 1, 2, 0, 0);
    let payload = SubscribePayload::new(7);
    let bytes = msg.build(&payload);
    let (h, p) = SomeIPMessage::parse(&bytes).unwrap();
    assert_eq!(h.get_method_id(), SomeIPMethod::Subscribe);
    assert_eq!(p, vec![0, 0, 0, 7]);
    assert_eq!(
        SomeIPMessage::parse(&bytes[..18]),
        Err(SomeIPError::InsufficientBuffer { expected: 20, actual: 18 })
    );
}

#[test]
fn payload_short_buffers_are_errors() {
    assert_eq!(
        MediaPayload::from_bytes(&[0u8; 31]),
        Err(SomeIPError::InsufficientBuffer { expected: 32, actual: 31 })
    );
    assert_eq!(
        SetNetworkPayload::from_bytes(&[0u8; 10]),
        Err(SomeIPError::InsufficientBuffer { expected: 56, actual: 10 })
    );
    assert_eq!(
        SetCameraROIPayload::from_bytes(&[0u8; 44]),
        Err(SomeIPError::InsufficientBuffer { expected: 45, actual: 44 })
    );
    assert_eq!(
        FindOrOfferPayload::from_bytes(&[0u8; 27]),
        Err(SomeIPError::InsufficientBuffer { expected: 28, actual: 27 })
    );
}

#[test]
fn media_bytes_are_big_endian_words() {
    let bytes = MediaPayload::default_payload().to_bytes();
    assert_eq!(&bytes[0..4], &[0, 0, 0, 1]);
    assert_eq!(&bytes[20..24], &[0, 0, 0x10, 0]);
    assert_eq!(&bytes[28..32], &[0, 0, 0, 30]);
}

#[test]
fn get_roi_skips_index() {
    let mut bytes = SetCameraROIPayload::default_payload().to_bytes();
    bytes[0] = 9;
    let g = GetCameraROIPayload::from_bytes(&bytes).unwrap();
    assert_eq!(g.brightness, 50);
    assert_eq!(&GetCameraROIPayload::default_payload().to_bytes()[0..4], &[0, 0, 0, 1]);
}

#[test]
fn get_roi_roundtrip() {
    let mut g = GetCameraROIPayload::default_payload();
    g.quad1 = 0x1234;
    g.quad4 = 0xABCD;
    g.brightness = 7;
    let back = GetCameraROIPayload::from_bytes(&g.to_bytes()).unwrap();
    assert_eq!(back, g);
}

#[test]
fn registry_decodes_by_method() {
    let registry = init_default_registry();
    let bytes = MediaPayload::default_payload().to_bytes();
    match registry.decode(SomeIPMethod::GetMedia, &bytes).unwrap() {
        AnyPayload::Media(p) => assert_eq!(p, MediaPayload::default_payload()),
        _ => panic!("expected a media payload"),
    }
    assert_eq!(
        registry.decode(SomeIPMethod::ResetFactory, &bytes).err(),
        Some(SomeIPError::UnknownMethod(0x0211))
    );
    assert!(matches!(
        registry.decode(SomeIPMethod::SetConfig, b"{\"camera_id\": 1}"),
        Ok(AnyPayload::Config(_))
    ));
    assert!(matches!(
        registry.decode(SomeIPMethod::SetConfig, b"not json"),
        Err(SomeIPError::CodecError(_))
    ));
    let mut r = PayloadRegistry::new();
    assert!(r.get(SomeIPMethod::Subscribe).is_none());
    r.register(SomeIPMethod::Subscribe, PayloadDecoder::Empty);
    r.register(SomeIPMethod::Subscribe, PayloadDecoder::Subscribe);
    assert_eq!(r.get(SomeIPMethod::Subscribe), Some(PayloadDecoder::Subscribe));
    let any = r.decode(SomeIPMethod::Subscribe, &[0, 0, 0, 3]).unwrap();
    assert_eq!(any.method_id(), SomeIPMethod::Subscribe);
    assert_eq!(any.encode(), vec![0, 0, 0, 3]);
}

#[test]
fn method_ids() {
    assert_eq!(SomeIPMethod::from(0x8100u16), SomeIPMethod::FindOrOffer);
    assert_eq!(SomeIPMethod::from(0x7777u16), SomeIPMethod::Unknown);
    assert_eq!(u16::from(SomeIPMethod::SetNetwork), 0x0192);
    assert!(SomeIPMethod::GetMedia.is_get_request());
    assert!(SomeIPMethod::SetMedia.has_payload());
    assert!(!SomeIPMethod::Unknown.has_payload());
    assert_eq!(SomeIPMethod::all().len(), 23);
    assert_eq!(EmptyPayload::decode(&[1, 2]).unwrap().method, SomeIPMethod::Unknown);
}

#[test]
fn defaults_go_out_big_endian() {
    let bytes = SomeIPEntry::default_entry().to_bytes();
    assert_eq!(&bytes[0..4], &[0, 0, 0, 0]);
    assert_eq!(&bytes[4..6], &[0x43, 0x3F]);
    assert_eq!(&bytes[6..8], &[0xFF, 0xFF]);
    assert_eq!(&bytes[12..16], &[0xFF, 0xFF, 0xFF, 0xFF]);

    let p = SetCameraROIPayload::default_payload();
    let r = p.to_bytes();
    assert_eq!(r.len(), 45);
    assert_eq!(&r[0..4], &[0, 0, 0, 1]);
    assert_eq!(&r[16..18], &[0x05, 0x00]);
    assert_eq!(&r[18..20], &[0x03, 0x20]);
    assert_eq!(&r[20..24], &[0x00, 0x1E, 0x00, 0x00]);
    assert_eq!(SetCameraROIPayload::from_bytes(&r), Ok(p));
}

#[test]
fn message_parse_length_and_trailing_bytes() {
    let mut msg = SomeIPMessage::new(0x433F, 1, 2, 0, 0);
    let mut bytes = msg.build(&SubscribePayload::new(7));
    bytes.extend_from_slice(&[0xAA, 0xBB]);
    let (_, p) = SomeIPMessage::parse(&bytes).unwrap();
    assert_eq!(p, vec![0, 0, 0, 7]);
    let mut bad = bytes.clone();
    bad[4..8].copy_from_slice(&[0, 0, 0, 5]);
    assert_eq!(
        SomeIPMessage::parse(&bad),
        Err(SomeIPError::ValidationError("长度字段小于 8: 5".to_string()))
    );
    assert_eq!(
        SomeIPMessage::parse(&bytes[..10]),
        Err(SomeIPError::InsufficientBuffer { expected: 16, actual: 10 })
    );
}

#[test]
fn default_registry_knows_exactly_the_payload_methods() {
    let registry = init_default_registry();
    let known = [
        SomeIPMethod::SetMedia,
        SomeIPMethod::GetMedia,
        SomeIPMethod::Subscribe,
        SomeIPMethod::SetNetwork,
        SomeIPMethod::GetNetwork,
        SomeIPMethod::SetROI,
        SomeIPMethod::GetROI,
        SomeIPMethod::SetAlgROI,
        SomeIPMethod::GetAlgROI,
        SomeIPMethod::SetCamExclusive,
        SomeIPMethod::FindOrOffer,
        SomeIPMethod::SetConfig,
        SomeIPMethod::GetConfig,
    ];
    for m in known {
        assert!(!matches!(registry.decode(m, &[]), Err(SomeIPError::UnknownMethod(_))));
    }
    assert_eq!(
        registry.decode(SomeIPMethod::ResetFactory, &[]).err(),
        Some(SomeIPError::UnknownMethod(0x0211))
    );
    let media = MediaPayload::default_payload();
    let bytes = media.to_bytes();
    match registry.decode(SomeIPMethod::SetMedia, &bytes).unwrap() {
        AnyPayload::Media(p) => {
            assert_eq!(p, media);
            assert_eq!(p.to_bytes(), bytes);
        }
        _ => panic!("expected a media payload"),
    }
}
