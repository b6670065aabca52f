use cam_toolkit::someip::error::SomeIPError;
use cam_toolkit::someip::ipv4::{ipv4_format, ipv4_parse};
use cam_toolkit::someip::payload::network::SetNetworkPayload;
use cam_toolkit::someip::util::{ip_string_to_u32_be, ip_string_to_u32_ne, u32_be_to_ip_string};

#[test]
fn test_ip_string_to_u32_be() {
    let value = ip_string_to_u32_be("192.168.66.166").unwrap();
    assert_eq!(value, 0xC0A842A6);
}

#[test]
fn test_u32_be_to_ip_string() {
    let ip = u32_be_to_ip_string(0xC0A842A6);
    assert_eq!(ip, "192.168.66.166");
}

#[test]
fn ip_text_rejects_malformed_addresses() {
    for bad in [
        "", "1.2.3", "1.2.3.4.5", "256.0.0.1", "01.2.3.4", "1..2.3", "1.2.3.4 ", " 1.2.3.4",
        "1.2.3.a", "1.2.3.1000", "+1.2.3.4", "1.2.3.", ".1.2.3",
    ] {
        assert_eq!(
            ip_string_to_u32_be(bad),
            Err(SomeIPError::InvalidIpAddress(bad.to_string())),
            "{bad}"
        );
        assert_eq!(ipv4_parse(bad), None, "{bad}");
    }
}

#[test]
fn ip_text_accepts_edges() {
    assert_eq!(ipv4_parse("0.0.0.0"), Some((0, 0, 0, 0)));
    assert_eq!(ipv4_parse("255.255.255.255"), Some((255, 255, 255, 255)));
    assert_eq!(ipv4_parse("10.0.100.9"), Some((10, 0, 100, 9)));
    assert_eq!(ipv4_format((10, 0, 100, 9)), "10.0.100.9");
    assert_eq!(ip_string_to_u32_be("255.255.255.0").unwrap(), 0xFFFFFF00);
    let ne = ip_string_to_u32_ne("1.2.3.4").unwrap();
    assert!(ne == 0x01020304 || ne == 0x04030201);
    assert_eq!(ne, u32::from_ne_bytes([1, 2, 3, 4]));
}

#[test]
fn ip_text_roundtrip_values() {
    for v in [0u32, 1, 0xC0A842A6, 0xFFFFFFFF, 0x0A000001, 0x7F000001] {
        assert_eq!(ip_string_to_u32_be(&u32_be_to_ip_string(v)).unwrap(), v);
    }
}

#[test]
fn network_payload_from_strings() {
    let p = SetNetworkPayload::from_strings(
        false,
        16,
        "192.168.66.166",
        "255.255.255.0",
        "192.168.66.1",
        "aa:27:7a:9c:bd:d2",
        554,
        80,
        true,
        0x102,
        "00-11-22-33-44-55",
        17215,
    )
    .unwrap();
    assert_eq!(p, SetNetworkPayload::default_payload());
    assert_eq!(p.get_ip_address_string(), "192.168.66.166");
    let e = SetNetworkPayload::from_strings(
        false, 16, "192.168.66.166", "255.255.255.0", "192.168.66.300", "aa:27:7a:9c:bd:d2", 554,
        80, true, 0x102, "zz", 17215,
    );
    assert_eq!(e, Err(SomeIPError::InvalidIpAddress("192.168.66.300".to_string())));
    let e = SetNetworkPayload::from_strings(
        false, 16, "192.168.66.166", "255.255.255.0", "192.168.66.1", "aa:27:7a:9c:bd:d2", 554,
        80, true, 0x102, "zz", 17215,
    );
    assert_eq!(e, Err(SomeIPError::InvalidMacAddress("zz".to_string())));
}
