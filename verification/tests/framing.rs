use tun_tap::frame::{frame_packet, parse_info_header, PROTO_IPV4, PROTO_IPV6};

#[test]
fn framing_prefixes_zero_flags_and_protocol() {
    let payload = vec![0xDE, 0xAD, 0xBE, 0xEF];
    let framed = frame_packet(PROTO_IPV4, &payload);
    assert_eq!(framed.len(), 8);
    assert_eq!(&framed[..4], &[0x00, 0x00, 0x08, 0x00]);
    assert_eq!(&framed[4..], payload.as_slice());
}

#[test]
fn framing_ipv6_protocol_bytes() {
    let payload = vec![1];
    let framed = frame_packet(PROTO_IPV6, &payload);
    assert_eq!(&framed[..4], &[0x00, 0x00, 0x86, 0xDD]);
}

#[test]
fn framing_empty_payload_is_header_alone() {
    let payload: Vec<u8> = Vec::new();
    let framed = frame_packet(PROTO_IPV4, &payload);
    assert_eq!(framed, vec![0x00, 0x00, 0x08, 0x00]);
}

#[test]
fn parsing_splits_header_and_payload() {
    let packet = vec![0x00, 0x00, 0x08, 0x00, 9, 8, 7];
    let (flags, proto, payload) = parse_info_header(&packet).expect("long enough");
    assert_eq!(flags, 0);
    assert_eq!(proto, PROTO_IPV4);
    assert_eq!(payload, vec![9, 8, 7]);
}

#[test]
fn parsing_keeps_received_flags() {
    let packet = vec![0x01, 0x02, 0x86, 0xDD];
    let (flags, proto, payload) = parse_info_header(&packet).expect("long enough");
    assert_eq!(flags, 0x0102);
    assert_eq!(proto, PROTO_IPV6);
    assert!(payload.is_empty());
}

#[test]
fn parsing_short_packet_fails() {
    assert!(parse_info_header(&vec![0x00, 0x00, 0x08]).is_none());
    assert!(parse_info_header(&Vec::new()).is_none());
}

#[test]
fn framed_payload_round_trips() {
    let payload: Vec<u8> = (0..38).collect();
    let framed = frame_packet(PROTO_IPV6, &payload);
    let (flags, proto, out) = parse_info_header(&framed).expect("long enough");
    assert_eq!(flags, 0);
    assert_eq!(proto, PROTO_IPV6);
    assert_eq!(out, payload);
}
