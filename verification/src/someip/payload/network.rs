//! Network configuration payload.
use vstd::prelude::*;
use crate::wire::{
    be32, be64, get_be32, get_be64, holds_at, lemma_be32, lemma_be64, push_all, push_be32,
    push_be64, read_be32, read_be64,
};
use crate::someip::error::{SomeIPError, SomeIPResult};
use crate::someip::method::SomeIPMethod;
use crate::someip::payload::{Payload, PayloadCodec};
use crate::someip::payload::media::flag_word;
use crate::someip::util::{
    be_octets, ip_string_to_u32_be, mac_bytes_to_string, mac_string_to_bytes, mac_text,
    mac_text_bytes, mac_text_ok, octet_seq, u32_be_to_ip_string,
};
use crate::someip::ipv4::{ipv4_octets, ipv4_text, is_ipv4_text};

verus! {

/// Network configuration of a camera; 56 bytes on the wire, addresses held
/// as big-endian numbers.
#[derive(Debug, Clone, PartialEq, Eq)]
pub struct SetNetworkPayload {
    pub dhcp_enable: bool,
    pub dhcp_timeout: u32,
    pub ip_address: u32,
    pub subnet_mask: u32,
    pub gateway: u32,
    pub mac_address: [u8; 6],
    pub rtsp_port: u16,
    pub onvif_port: u16,
    pub onvif_discover_enable: bool,
    pub avtp_stream_id: u64,
    pub avtp_mac_address: [u8; 6],
    pub someip_port: u16,
}

/// The 56 bytes of a network payload.
pub open spec fn network_bytes(p: SetNetworkPayload) -> Seq<u8> {
    be32(flag_word(p.dhcp_enable)) + be32(p.dhcp_timeout) + be32(p.ip_address) + be32(
        p.subnet_mask,
    ) + be32(p.gateway) + p.mac_address@ + be32(p.rtsp_port as u32) + be32(p.onvif_port as u32)
        + be32(flag_word(p.onvif_discover_enable)) + be64(p.avtp_stream_id) + p.avtp_mac_address@
        + be32(p.someip_port as u32)
}

/// `p` is what the first 56 bytes of `s` decode to.
pub open spec fn network_matches(s: Seq<u8>, p: SetNetworkPayload) -> bool {
    &&& s.len() >= 56
    &&& p.dhcp_enable == (get_be32(s, 0) != 0)
    &&& p.dhcp_timeout == get_be32(s, 4)
    &&& p.ip_address == get_be32(s, 8)
    &&& p.subnet_mask == get_be32(s, 12)
    &&& p.gateway == get_be32(s, 16)
    &&& p.mac_address@ == s.subrange(20, 26)
    &&& p.rtsp_port == get_be32(s, 26) as u16
    &&& p.onvif_port == get_be32(s, 30) as u16
    &&& p.onvif_discover_enable == (get_be32(s, 34) != 0)
    &&& p.avtp_stream_id == get_be64(s, 38)
    &&& p.avtp_mac_address@ == s.subrange(46, 52)
    &&& p.someip_port == get_be32(s, 52) as u16
}

/// `r` is the result of decoding `s`.
pub open spec fn network_decodes(s: Seq<u8>, r: SomeIPResult<SetNetworkPayload>) -> bool {
    match r {
        Ok(p) => network_matches(s, p),
        Err(e) => s.len() < 56 && e == (SomeIPError::InsufficientBuffer {
            expected: 56,
            actual: s.len() as usize,
        }),
    }
}

impl SetNetworkPayload {
    pub fn new(
        dhcp_enable: bool,
        dhcp_timeout: u32,
        ip_address: u32,
        subnet_mask: u32,
        gateway: u32,
        mac_address: [u8; 6],
        rtsp_port: u16,
        onvif_port: u16,
        onvif_discover_enable: bool,
        avtp_stream_id: u64,
        avtp_mac_address: [u8; 6],
        someip_port: u16,
    ) -> (r: SetNetworkPayload)
        ensures
            r == (SetNetworkPayload {
                dhcp_enable,
                dhcp_timeout,
                ip_address,
                subnet_mask,
                gateway,
                mac_address,
                rtsp_port,
                onvif_port,
                onvif_discover_enable,
                avtp_stream_id,
                avtp_mac_address,
                someip_port,
            }),
    {
        SetNetworkPayload {
            dhcp_enable,
            dhcp_timeout,
            ip_address,
            subnet_mask,
            gateway,
            mac_address,
            rtsp_port,
            onvif_port,
            onvif_discover_enable,
            avtp_stream_id,
            avtp_mac_address,
            someip_port,
        }
    }

    /// Static address 192.168.66.166/24 with gateway 192.168.66.1, RTSP on
    /// 554, ONVIF on 80 with discovery, AVTP stream 0x102, SOME/IP on 17215.
    pub fn default_payload() -> (r: SetNetworkPayload)
        ensures
            !r.dhcp_enable && r.dhcp_timeout == 16,
            r.ip_address == 0xC0A842A6 && r.subnet_mask == 0xFFFFFF00 && r.gateway == 0xC0A84201,
            r.mac_address@ == seq![0xaau8, 0x27u8, 0x7au8, 0x9cu8, 0xbdu8, 0xd2u8],
            r.rtsp_port == 554 && r.onvif_port == 80 && r.onvif_discover_enable,
            r.avtp_stream_id == 0x102,
            r.avtp_mac_address@ == seq![0x00u8, 0x11u8, 0x22u8, 0x33u8, 0x44u8, 0x55u8],
            r.someip_port == 17215,
    {
        let r = SetNetworkPayload {
            dhcp_enable: false,
            dhcp_timeout: 16,
            ip_address: 0xC0A842A6,
            subnet_mask: 0xFFFFFF00,
            gateway: 0xC0A84201,
            mac_address: [0xaa, 0x27, 0x7a, 0x9c, 0xbd, 0xd2],
            rtsp_port: 554,
            onvif_port: 80,
            onvif_discover_enable: true,
            avtp_stream_id: 0x102,
            avtp_mac_address: [0x00, 0x11, 0x22, 0x33, 0x44, 0x55],
            someip_port: 17215,
        };
        assert(r.mac_address@ =~= seq![0xaau8, 0x27u8, 0x7au8, 0x9cu8, 0xbdu8, 0xd2u8]);
        assert(r.avtp_mac_address@ =~= seq![0x00u8, 0x11u8, 0x22u8, 0x33u8, 0x44u8, 0x55u8]);
        r
    }

    /// The 56 bytes of the payload.
    pub fn to_bytes(&self) -> (r: Vec<u8>)
        ensures
            r@ == network_bytes(*self),
    {
        let mut bytes: Vec<u8> = Vec::new();
        push_be32(&mut bytes, if self.dhcp_enable { 1 } else { 0 });
        push_be32(&mut bytes, self.dhcp_timeout);
        push_be32(&mut bytes, self.ip_address);
        push_be32(&mut bytes, self.subnet_mask);
        push_be32(&mut bytes, self.gateway);
        push_all(&mut bytes, self.mac_address.as_slice());
        push_be32(&mut bytes, self.rtsp_port as u32);
        push_be32(&mut bytes, self.onvif_port as u32);
        push_be32(&mut bytes, if self.onvif_discover_enable { 1 } else { 0 });
        push_be64(&mut bytes, self.avtp_stream_id);
        push_all(&mut bytes, self.avtp_mac_address.as_slice());
        push_be32(&mut bytes, self.someip_port as u32);
        bytes
    }

    pub fn from_bytes(bytes: &[u8]) -> (r: SomeIPResult<SetNetworkPayload>)
        ensures
            network_decodes(bytes@, r),
    {
        if bytes.len() < 56 {
            return Err(SomeIPError::insufficient_buffer(56, bytes.len()));
        }
        let mac_address: [u8; 6] = [bytes[20], bytes[21], bytes[22], bytes[23], bytes[24], bytes[25]];
        let avtp_mac_address: [u8; 6] = [
            bytes[46],
            bytes[47],
            bytes[48],
            bytes[49],
            bytes[50],
            bytes[51],
        ];
        assert(mac_address@ =~= bytes@.subrange(20, 26));
        assert(avtp_mac_address@ =~= bytes@.subrange(46, 52));
        Ok(SetNetworkPayload {
            dhcp_enable: read_be32(bytes, 0) != 0,
            dhcp_timeout: read_be32(bytes, 4),
            ip_address: read_be32(bytes, 8),
            subnet_mask: read_be32(bytes, 12),
            gateway: read_be32(bytes, 16),
            mac_address,
            rtsp_port: read_be32(bytes, 26) as u16,
            onvif_port: read_be32(bytes, 30) as u16,
            onvif_discover_enable: read_be32(bytes, 34) != 0,
            avtp_stream_id: read_be64(bytes, 38),
            avtp_mac_address,
            someip_port: read_be32(bytes, 52) as u16,
        })
    }
}

/// The big-endian number of an address text.
pub open spec fn ip_number(t: Seq<char>) -> u32 {
    get_be32(octet_seq(ipv4_octets(t)), 0)
}

/// The error of the first of the texts that is not an address of its kind:
/// the three IPv4 addresses, then the two MAC addresses.
pub open spec fn network_text_error(
    ip: Seq<char>,
    mask: Seq<char>,
    gateway: Seq<char>,
    mac: Seq<char>,
    avtp_mac: Seq<char>,
) -> Option<Seq<char>> {
    if !is_ipv4_text(ip) {
        Some(ip)
    } else if !is_ipv4_text(mask) {
        Some(mask)
    } else if !is_ipv4_text(gateway) {
        Some(gateway)
    } else if !mac_text_ok(mac) {
        Some(mac)
    } else if !mac_text_ok(avtp_mac) {
        Some(avtp_mac)
    } else {
        None
    }
}

impl SetNetworkPayload {
    /// A payload from address texts: dotted-decimal IPv4 addresses and MAC
    /// addresses; the first text that does not parse is reported.
    pub fn from_strings(
        dhcp_enable: bool,
        dhcp_timeout: u32,
        ip_address: &str,
        subnet_mask: &str,
        gateway: &str,
        mac_address: &str,
        rtsp_port: u16,
        onvif_port: u16,
        onvif_discover_enable: bool,
        avtp_stream_id: u64,
        avtp_mac_address: &str,
        someip_port: u16,
    ) -> (r: SomeIPResult<SetNetworkPayload>)
        ensures
            ({
                let err = network_text_error(
                    ip_address@,
                    subnet_mask@,
                    gateway@,
                    mac_address@,
                    avtp_mac_address@,
                );
                &&& r is Ok <==> err is None
                &&& r matches Ok(p) ==> p == (SetNetworkPayload {
                    dhcp_enable,
                    dhcp_timeout,
                    ip_address: ip_number(ip_address@),
                    subnet_mask: ip_number(subnet_mask@),
                    gateway: ip_number(gateway@),
                    mac_address: p.mac_address,
                    rtsp_port,
                    onvif_port,
                    onvif_discover_enable,
                    avtp_stream_id,
                    avtp_mac_address: p.avtp_mac_address,
                    someip_port,
                }) && p.mac_address@ == mac_text_bytes(mac_address@) && p.avtp_mac_address@
                    == mac_text_bytes(avtp_mac_address@)
                &&& r matches Err(e) ==> (err matches Some(t) && (if is_ipv4_text(ip_address@)
                    && is_ipv4_text(subnet_mask@) && is_ipv4_text(gateway@) {
                    e matches SomeIPError::InvalidMacAddress(m) && m@ == t
                } else {
                    e matches SomeIPError::InvalidIpAddress(m) && m@ == t
                }))
            }),
    {
        let ip = match ip_string_to_u32_be(ip_address) {
            Ok(v) => v,
            Err(e) => {
                return Err(e);
            },
        };
        let mask = match ip_string_to_u32_be(subnet_mask) {
            Ok(v) => v,
            Err(e) => {
                return Err(e);
            },
        };
        let gw = match ip_string_to_u32_be(gateway) {
            Ok(v) => v,
            Err(e) => {
                return Err(e);
            },
        };
        let mac = match mac_string_to_bytes(mac_address) {
            Ok(v) => v,
            Err(e) => {
                return Err(e);
            },
        };
        let avtp_mac = match mac_string_to_bytes(avtp_mac_address) {
            Ok(v) => v,
            Err(e) => {
                return Err(e);
            },
        };
        Ok(SetNetworkPayload {
            dhcp_enable,
            dhcp_timeout,
            ip_address: ip,
            subnet_mask: mask,
            gateway: gw,
            mac_address: mac,
            rtsp_port,
            onvif_port,
            onvif_discover_enable,
            avtp_stream_id,
            avtp_mac_address: avtp_mac,
            someip_port,
        })
    }

    /// The camera's IPv4 address as dotted-decimal text.
    pub fn get_ip_address_string(&self) -> (r: String)
        ensures
            r@ == ipv4_text(be_octets(self.ip_address)),
    {
        u32_be_to_ip_string(self.ip_address)
    }

    /// The camera's MAC address as lower-case text with `:` separators.
    pub fn get_mac_address_string(&self) -> (r: String)
        ensures
            r@ == mac_text(self.mac_address@, ':', false),
    {
        mac_bytes_to_string(&self.mac_address, Some(':'), false)
    }
}

impl Payload for SetNetworkPayload {
    open spec fn wire_method(&self) -> SomeIPMethod {
        SomeIPMethod::SetNetwork
    }

    open spec fn encodes_as(&self, bytes: Seq<u8>) -> bool {
        bytes == network_bytes(*self)
    }

    fn method_id(&self) -> (r: SomeIPMethod) {
        SomeIPMethod::SetNetwork
    }

    fn encode(&self) -> (r: Vec<u8>) {
        self.to_bytes()
    }
}

impl PayloadCodec for SetNetworkPayload {
    open spec fn decodes_as(data: Seq<u8>, r: SomeIPResult<Self>) -> bool {
        network_decodes(data, r)
    }

    fn decode(data: &[u8]) -> (r: SomeIPResult<Self>) {
        Self::from_bytes(data)
    }
}

proof fn lemma_word_at(s: Seq<u8>, i: int, w: Seq<u8>, x: u32)
    requires
        w == be32(x),
        0 <= i,
        i + 4 <= s.len(),
        s.subrange(i, i + 4) == w,
    ensures
        get_be32(s, i) == x,
{
    assert forall|k: int| 0 <= k < 4 implies #[trigger] s[i + k] == be32(x)[k] by {
        assert(s.subrange(i, i + 4)[k] == s[i + k]);
    }
    lemma_be32(x, s, i);
}

/// Decoding the bytes of a network payload, followed by anything, gives the
/// payload back.
#[verifier::spinoff_prover]
#[verifier::rlimit(60)]
pub proof fn lemma_network_roundtrip(p: SetNetworkPayload, rest: Seq<u8>, q: SetNetworkPayload)
    requires
        network_matches(network_bytes(p) + rest, q),
    ensures
        q == p,
{
    broadcast use vstd::array::group_array_axioms;
    let s = network_bytes(p) + rest;
    assert(s.subrange(0int, 0int + 4) =~= be32(flag_word(p.dhcp_enable)));
    lemma_word_at(s, 0, be32(flag_word(p.dhcp_enable)), flag_word(p.dhcp_enable));
    assert(s.subrange(4int, 4int + 4) =~= be32(p.dhcp_timeout));
    lemma_word_at(s, 4, be32(p.dhcp_timeout), p.dhcp_timeout);
    assert(s.subrange(8int, 8int + 4) =~= be32(p.ip_address));
    lemma_word_at(s, 8, be32(p.ip_address), p.ip_address);
    assert(s.subrange(12int, 12int + 4) =~= be32(p.subnet_mask));
    lemma_word_at(s, 12, be32(p.subnet_mask), p.subnet_mask);
    assert(s.subrange(16int, 16int + 4) =~= be32(p.gateway));
    lemma_word_at(s, 16, be32(p.gateway), p.gateway);
    assert(s.subrange(20, 26) =~= p.mac_address@);
    assert(s.subrange(26int, 26int + 4) =~= be32(p.rtsp_port as u32));
    lemma_word_at(s, 26, be32(p.rtsp_port as u32), p.rtsp_port as u32);
    assert(s.subrange(30int, 30int + 4) =~= be32(p.onvif_port as u32));
    lemma_word_at(s, 30, be32(p.onvif_port as u32), p.onvif_port as u32);
    assert(s.subrange(34int, 34int + 4) =~= be32(flag_word(p.onvif_discover_enable)));
    lemma_word_at(s, 34, be32(flag_word(p.onvif_discover_enable)), flag_word(p.onvif_discover_enable));
    assert forall|k: int| 0 <= k < 8 implies #[trigger] s[38 + k] == be64(p.avtp_stream_id)[k] by {}
    lemma_be64(p.avtp_stream_id, s, 38);
    assert(s.subrange(46, 52) =~= p.avtp_mac_address@);
    assert(s.subrange(52int, 52int + 4) =~= be32(p.someip_port as u32));
    lemma_word_at(s, 52, be32(p.someip_port as u32), p.someip_port as u32);
    assert(q.mac_address@ =~= p.mac_address@);
    assert(q.avtp_mac_address@ =~= p.avtp_mac_address@);
    assert(q.mac_address =~= p.mac_address);
    assert(q.avtp_mac_address =~= p.avtp_mac_address);
}

/// The wire layout of a network payload: big-endian 32-bit words for the
/// DHCP flag (1 or 0) at byte 0, the DHCP timeout at 4, the IP address at
/// 8, the subnet mask at 12 and the gateway at 16; the MAC address in bytes
/// 20 to 25; words for the RTSP port at 26, the ONVIF port at 30 and the
/// ONVIF discovery flag at 34; the AVTP stream id as a big-endian 64-bit
/// value at 38; the AVTP MAC address in bytes 46 to 51; and a word for the
/// SOME/IP port at 52.
pub proof fn lemma_network_layout(p: SetNetworkPayload)
    ensures
        ({
            let b = network_bytes(p);
            &&& b.len() == 56
            &&& get_be32(b, 0) == (if p.dhcp_enable { 1u32 } else { 0u32 })
            &&& get_be32(b, 4) == p.dhcp_timeout
            &&& get_be32(b, 8) == p.ip_address
            &&& get_be32(b, 12) == p.subnet_mask
            &&& get_be32(b, 16) == p.gateway
            &&& b.subrange(20, 26) == p.mac_address@
            &&& get_be32(b, 26) == p.rtsp_port as u32
            &&& get_be32(b, 30) == p.onvif_port as u32
            &&& get_be32(b, 34) == (if p.onvif_discover_enable { 1u32 } else { 0u32 })
            &&& get_be64(b, 38) == p.avtp_stream_id
            &&& b.subrange(46, 52) == p.avtp_mac_address@
            &&& get_be32(b, 52) == p.someip_port as u32
        }),
{
    let s = network_bytes(p);
    assert(s.subrange(0int, 0int + 4) =~= be32(flag_word(p.dhcp_enable)));
    lemma_word_at(s, 0, be32(flag_word(p.dhcp_enable)), flag_word(p.dhcp_enable));
    assert(s.subrange(4int, 4int + 4) =~= be32(p.dhcp_timeout));
    lemma_word_at(s, 4, be32(p.dhcp_timeout), p.dhcp_timeout);
    assert(s.subrange(8int, 8int + 4) =~= be32(p.ip_address));
    lemma_word_at(s, 8, be32(p.ip_address), p.ip_address);
    assert(s.subrange(12int, 12int + 4) =~= be32(p.subnet_mask));
    lemma_word_at(s, 12, be32(p.subnet_mask), p.subnet_mask);
    assert(s.subrange(16int, 16int + 4) =~= be32(p.gateway));
    lemma_word_at(s, 16, be32(p.gateway), p.gateway);
    assert(s.subrange(20, 26) =~= p.mac_address@);
    assert(s.subrange(26int, 26int + 4) =~= be32(p.rtsp_port as u32));
    lemma_word_at(s, 26, be32(p.rtsp_port as u32), p.rtsp_port as u32);
    assert(s.subrange(30int, 30int + 4) =~= be32(p.onvif_port as u32));
    lemma_word_at(s, 30, be32(p.onvif_port as u32), p.onvif_port as u32);
    assert(s.subrange(34int, 34int + 4) =~= be32(flag_word(p.onvif_discover_enable)));
    lemma_word_at(s, 34, be32(flag_word(p.onvif_discover_enable)), flag_word(p.onvif_discover_enable));
    assert forall|k: int| 0 <= k < 8 implies #[trigger] s[38 + k] == be64(p.avtp_stream_id)[k] by {}
    lemma_be64(p.avtp_stream_id, s, 38);
    assert(s.subrange(46, 52) =~= p.avtp_mac_address@);
    assert(s.subrange(52int, 52int + 4) =~= be32(p.someip_port as u32));
    lemma_word_at(s, 52, be32(p.someip_port as u32), p.someip_port as u32);
}

/// Decoding 56 bytes or more reads each field from its own place: the
/// same offsets as the wire layout, each word big-endian, a flag set when
/// its word is not zero, a port the low 16 bits of its word.
pub proof fn lemma_network_fields_read(s: Seq<u8>, r: SomeIPResult<SetNetworkPayload>)
    requires
        s.len() >= 56,
        network_decodes(s, r),
    ensures
        r matches Ok(q) && {
            &&& q.dhcp_enable == (get_be32(s, 0) != 0)
            &&& q.dhcp_timeout == get_be32(s, 4)
            &&& q.ip_address == get_be32(s, 8)
            &&& q.subnet_mask == get_be32(s, 12)
            &&& q.gateway == get_be32(s, 16)
            &&& q.mac_address@ == s.subrange(20, 26)
            &&& q.rtsp_port == get_be32(s, 26) as u16
            &&& q.onvif_port == get_be32(s, 30) as u16
            &&& q.onvif_discover_enable == (get_be32(s, 34) != 0)
            &&& q.avtp_stream_id == get_be64(s, 38)
            &&& q.avtp_mac_address@ == s.subrange(46, 52)
            &&& q.someip_port == get_be32(s, 52) as u16
        },
{
}

} // verus!
