use ndpv6::buffer::{Buffer, Region};
use ndpv6::error::ParseError;
use ndpv6::ethernet::{Ethernet, ETHERTYPE_IPV6};
use ndpv6::icmpv6::Icmpv6;
use ndpv6::ndp::{
    NeighborAdvertisement, NeighborSolicitation, Redirect, RouterAdvertisement, RouterSolicitation,
    NEIGHBOR_ADVERTISEMENT, NEIGHBOR_SOLICITATION, REDIRECT, ROUTER_ADVERTISEMENT,
    ROUTER_SOLICITATION,
};
use ndpv6::payload::{Icmpv6Payload, NdpPayload, Overlay, Unparsed};
use ndpv6::text::{u16_to_hex4, u32_to_dec};

const ROUTER_SOLICIT_PACKET: [u8; 70] = [
    // ** ethernet header
    0x00, 0x00, 0x00, 0x00, 0x00, 0x01, 0x00, 0x00, 0x00, 0x00, 0x00, 0x02, 0x86, 0xDD,
    // ** IPv6 header
    0x60, 0x00, 0x00, 0x00, // payload length
    0x00, 0x10, 0x3a, 0xff, 0xfe, 0x80, 0x00, 0x00, 0x00, 0x00, 0x00, 0x00, 0xd4, 0xf0, 0x45,
    0xff, 0xfe, 0x0c, 0x66, 0x4b, 0xff, 0x02, 0x00, 0x00, 0x00, 0x00, 0x00, 0x00, 0x00, 0x00,
    0x00, 0x00, 0x00, 0x00, 0x00, 0x01, // ** ICMPv6 header: type
    0x85, // code
    0x00, // checksum
    0xf5, 0x0c, // ** router solicitation message: reserved
    0x00, 0x00, 0x00, 0x00, // ** source link-layer address option
    0x01, 0x01, 0x70, 0x3a, 0xcb, 0x1b, 0xf9, 0x7a,
];

fn expect_err<T>(r: Result<T, ParseError>) -> ParseError {
    match r {
        Ok(_) => panic!("expected an error"),
        Err(e) => e,
    }
}

fn parse_solicit(bytes: &[u8]) -> Icmpv6<RouterSolicitation> {
    let packet = Buffer::from_bytes(bytes);
    let region = packet.full_region();
    let ethernet = Ethernet::parse(packet, region).unwrap();
    let ipv6 = ethernet.parse_ipv6().unwrap();
    let icmpv6 = Icmpv6::parse(ipv6).unwrap();
    icmpv6.downcast::<RouterSolicitation>().unwrap()
}

#[test]
fn parse_router_solicitation_packet() {
    let packet = Buffer::from_bytes(&ROUTER_SOLICIT_PACKET);
    let region = packet.full_region();
    let ethernet = Ethernet::parse(packet, region).unwrap();
    let ipv6 = ethernet.parse_ipv6().unwrap();
    let icmpv6 = Icmpv6::parse(ipv6).unwrap();
    let solicit = icmpv6.downcast::<RouterSolicitation>().unwrap();

    assert_eq!(ROUTER_SOLICITATION, solicit.msg_type());
    assert_eq!(0, solicit.reserved());
}

#[test]
fn parse_full_frame() {
    let packet = Buffer::from_bytes(&ROUTER_SOLICIT_PACKET);
    let region = packet.full_region();
    assert_eq!(region.base, 0);
    assert_eq!(region.len, 70);

    let ethernet = Ethernet::parse(packet, region).unwrap();
    assert_eq!(ethernet.ether_type(), ETHERTYPE_IPV6);
    assert_eq!(ethernet.dst(), vec![0x00, 0x00, 0x00, 0x00, 0x00, 0x01]);
    assert_eq!(ethernet.src(), vec![0x00, 0x00, 0x00, 0x00, 0x00, 0x02]);

    let ipv6 = ethernet.parse_ipv6().unwrap();
    assert_eq!(ipv6.version(), 6);
    assert_eq!(ipv6.payload_length(), 16);
    assert_eq!(ipv6.next_header(), 58);
    assert_eq!(ipv6.hop_limit(), 255);
    assert_eq!(
        ipv6.source(),
        vec![
            0xfe, 0x80, 0x00, 0x00, 0x00, 0x00, 0x00, 0x00, 0xd4, 0xf0, 0x45, 0xff, 0xfe, 0x0c,
            0x66, 0x4b
        ]
    );
    assert_eq!(
        ipv6.destination(),
        vec![
            0xff, 0x02, 0x00, 0x00, 0x00, 0x00, 0x00, 0x00, 0x00, 0x00, 0x00, 0x00, 0x00, 0x00,
            0x00, 0x01
        ]
    );

    let icmpv6 = Icmpv6::parse(ipv6).unwrap();
    assert_eq!(icmpv6.msg_type(), 133);
    assert_eq!(icmpv6.code(), 0);
    assert_eq!(icmpv6.checksum(), 0xf50c);
    assert_eq!(icmpv6.msg_len(), 16);

    let solicit = icmpv6.downcast::<RouterSolicitation>().unwrap();
    assert_eq!(solicit.msg_type(), 133);
    assert_eq!(solicit.code(), 0);
    assert_eq!(solicit.reserved(), 0);

    // The source link-layer option bytes come back uninterpreted.
    let options = solicit.options();
    assert_eq!(options, vec![0x01, 0x01, 0x70, 0x3a, 0xcb, 0x1b, 0xf9, 0x7a]);
    assert_eq!(&options[2..8], &[0x70, 0x3a, 0xcb, 0x1b, 0xf9, 0x7a]);
}

#[test]
fn downcast_keeps_common_fields() {
    let packet = Buffer::from_bytes(&ROUTER_SOLICIT_PACKET);
    let region = packet.full_region();
    let ethernet = Ethernet::parse(packet, region).unwrap();
    let ipv6 = ethernet.parse_ipv6().unwrap();
    let icmpv6 = Icmpv6::parse(ipv6).unwrap();

    let before = (icmpv6.msg_type(), icmpv6.code(), icmpv6.checksum());
    let solicit = icmpv6.downcast::<RouterSolicitation>().unwrap();
    let after = (solicit.msg_type(), solicit.code(), solicit.checksum());
    assert_eq!(before, after);
}

#[test]
fn downcast_type_mismatch() {
    let packet = Buffer::from_bytes(&ROUTER_SOLICIT_PACKET);
    let region = packet.full_region();
    let ethernet = Ethernet::parse(packet, region).unwrap();
    let ipv6 = ethernet.parse_ipv6().unwrap();
    let icmpv6 = Icmpv6::parse(ipv6).unwrap();

    let err = expect_err(icmpv6.downcast::<RouterAdvertisement>());
    assert_eq!(err, ParseError::TypeMismatch);
}

#[test]
fn downcast_too_short_for_payload() {
    // A neighbor solicitation tag over a message whose declared length
    // only holds the common header and four payload bytes.
    let mut bytes = ROUTER_SOLICIT_PACKET.to_vec();
    bytes[54] = NEIGHBOR_SOLICITATION;
    let packet = Buffer::from_bytes(&bytes);
    let region = packet.full_region();
    let ethernet = Ethernet::parse(packet, region).unwrap();
    let ipv6 = ethernet.parse_ipv6().unwrap();
    let icmpv6 = Icmpv6::parse(ipv6).unwrap();
    assert_eq!(icmpv6.msg_type(), NEIGHBOR_SOLICITATION);

    let err = expect_err(icmpv6.downcast::<NeighborSolicitation>());
    assert_eq!(err, ParseError::TooShort);
}

#[test]
fn truncated_buffer_fails_with_too_short() {
    // Truncating inside the ICMPv6 message: the envelope parse must fail
    // with TooShort, never succeed over a zero-filled payload.
    let short = &ROUTER_SOLICIT_PACKET[..61];
    let packet = Buffer::from_bytes(short);
    let region = packet.full_region();
    let ethernet = Ethernet::parse(packet, region).unwrap();
    let ipv6 = ethernet.parse_ipv6().unwrap();
    let err = expect_err(Icmpv6::parse(ipv6));
    assert_eq!(err, ParseError::TooShort);

    // Truncating to 53 bytes cuts the IPv6 header itself, so the
    // pipeline already stops one stage earlier, again with TooShort.
    let shorter = &ROUTER_SOLICIT_PACKET[..53];
    let packet = Buffer::from_bytes(shorter);
    let region = packet.full_region();
    let ethernet = Ethernet::parse(packet, region).unwrap();
    let err = expect_err(ethernet.parse_ipv6());
    assert_eq!(err, ParseError::TooShort);

    // Fewer bytes than an Ethernet header: the first stage fails.
    let tiny = &ROUTER_SOLICIT_PACKET[..10];
    let packet = Buffer::from_bytes(tiny);
    let region = packet.full_region();
    let err = expect_err(Ethernet::parse(packet, region));
    assert_eq!(err, ParseError::TooShort);
}

#[test]
fn wrong_version_nibble_is_malformed() {
    let mut bytes = ROUTER_SOLICIT_PACKET.to_vec();
    bytes[14] = 0x40;
    let packet = Buffer::from_bytes(&bytes);
    let region = packet.full_region();
    let ethernet = Ethernet::parse(packet, region).unwrap();
    let err = expect_err(ethernet.parse_ipv6());
    assert_eq!(err, ParseError::MalformedHeader);
}

#[test]
fn wrong_next_header_is_malformed() {
    let mut bytes = ROUTER_SOLICIT_PACKET.to_vec();
    bytes[20] = 0x06;
    let packet = Buffer::from_bytes(&bytes);
    let region = packet.full_region();
    let ethernet = Ethernet::parse(packet, region).unwrap();
    let ipv6 = ethernet.parse_ipv6().unwrap();
    let err = expect_err(Icmpv6::parse(ipv6));
    assert_eq!(err, ParseError::MalformedHeader);
}

#[test]
fn declared_length_below_common_header_is_malformed() {
    let mut bytes = ROUTER_SOLICIT_PACKET.to_vec();
    bytes[18] = 0x00;
    bytes[19] = 0x03;
    let packet = Buffer::from_bytes(&bytes);
    let region = packet.full_region();
    let ethernet = Ethernet::parse(packet, region).unwrap();
    let ipv6 = ethernet.parse_ipv6().unwrap();
    let err = expect_err(Icmpv6::parse(ipv6));
    assert_eq!(err, ParseError::MalformedHeader);
}

#[test]
fn region_slice_bounds() {
    let packet = Buffer::from_bytes(&ROUTER_SOLICIT_PACKET[..10]);
    let region = packet.full_region();

    let sub = region.slice(4, 6).unwrap();
    assert_eq!(sub, Region { base: 4, len: 6 });

    assert_eq!(expect_err(region.slice(5, 6)), ParseError::OutOfBounds);
    assert_eq!(expect_err(region.slice(11, 0)), ParseError::OutOfBounds);
    assert_eq!(expect_err(region.slice(0, 11)), ParseError::OutOfBounds);

    let nested = sub.slice(2, 4).unwrap();
    assert_eq!(nested, Region { base: 6, len: 4 });
}

#[test]
fn overlay_bounds() {
    let region = Region { base: 3, len: 5 };
    let ov = Overlay::<RouterSolicitation>::overlay(region, 1).unwrap();
    assert_eq!(ov.base, 4);

    let err = expect_err(Overlay::<RouterSolicitation>::overlay(region, 2));
    assert_eq!(err, ParseError::TooShort);

    let err = expect_err(Overlay::<RouterSolicitation>::overlay(region, 9));
    assert_eq!(err, ParseError::TooShort);
}

#[test]
fn write_reserved_then_read_it_back() {
    let mut solicit = parse_solicit(&ROUTER_SOLICIT_PACKET);

    solicit.set_reserved(0xDEADBEEF);
    assert_eq!(solicit.reserved(), 0xDEADBEEF);
    assert_eq!(solicit.msg_type(), 133);
    assert_eq!(solicit.code(), 0);
    assert_eq!(solicit.checksum(), 0xf50c);
    assert_eq!(
        solicit.options(),
        vec![0x01, 0x01, 0x70, 0x3a, 0xcb, 0x1b, 0xf9, 0x7a]
    );

    solicit.set_checksum(0x1234);
    assert_eq!(solicit.checksum(), 0x1234);
    assert_eq!(solicit.reserved(), 0xDEADBEEF);

    solicit.set_reserved(0);
    assert_eq!(solicit.reserved(), 0);
}

#[test]
fn checksum_flip_detected() {
    // With the checksum recomputed for this message the validator
    // passes...
    let mut solicit = parse_solicit(&ROUTER_SOLICIT_PACKET);
    solicit.set_checksum(0xC815);
    assert!(solicit.verify_checksum());
    assert!(solicit.validate_checksum().is_ok());

    // ...and flipping one bit of the reserved field while leaving the
    // wire checksum unchanged must make verification fail.
    solicit.set_reserved(0x01000000);
    assert!(!solicit.verify_checksum());
    assert_eq!(
        expect_err(solicit.validate_checksum()),
        ParseError::ChecksumMismatch
    );
}

#[test]
fn checksum_of_unmodified_capture() {
    // The capture's wire checksum does not match its own bytes, and the
    // validator says so rather than passing it silently.
    let solicit = parse_solicit(&ROUTER_SOLICIT_PACKET);
    assert!(!solicit.verify_checksum());
    assert_eq!(
        expect_err(solicit.validate_checksum()),
        ParseError::ChecksumMismatch
    );
}

#[test]
fn ndp_variant_tags_and_sizes() {
    assert_eq!(RouterSolicitation::size(), 4);
    assert_eq!(RouterAdvertisement::size(), 12);
    assert_eq!(NeighborSolicitation::size(), 20);
    assert_eq!(NeighborAdvertisement::size(), 20);
    assert_eq!(Redirect::size(), 36);
    assert_eq!(Unparsed::size(), 0);

    assert_eq!(RouterSolicitation::msg_type(), 133);
    assert_eq!(RouterAdvertisement::msg_type(), 134);
    assert_eq!(NeighborSolicitation::msg_type(), 135);
    assert_eq!(NeighborAdvertisement::msg_type(), 136);
    assert_eq!(Redirect::msg_type(), 137);

    assert_eq!(ROUTER_SOLICITATION, 133);
    assert_eq!(ROUTER_ADVERTISEMENT, 134);
    assert_eq!(NEIGHBOR_SOLICITATION, 135);
    assert_eq!(NEIGHBOR_ADVERTISEMENT, 136);
    assert_eq!(REDIRECT, 137);
}

#[test]
fn router_solicitation_text_rendering() {
    let solicit = parse_solicit(&ROUTER_SOLICIT_PACKET);
    assert_eq!(
        solicit.to_text(),
        "type: 133 code: 0 checksum: 0xf50c reserved: 0"
    );

    assert_eq!(u32_to_dec(0), "0");
    assert_eq!(u32_to_dec(4294967295), "4294967295");
    assert_eq!(u16_to_hex4(0), "0000");
    assert_eq!(u16_to_hex4(0xf50c), "f50c");
    assert_eq!(u16_to_hex4(0xFFFF), "ffff");
}

/// Builds an Ethernet + IPv6 + ICMPv6 frame around the given message
/// type, fixed payload and options.
fn build_frame(msg_type: u8, payload: &[u8], options: &[u8]) -> Vec<u8> {
    let msg_len = 4 + payload.len() + options.len();
    let mut bytes = Vec::new();
    bytes.extend_from_slice(&[0x00, 0x00, 0x00, 0x00, 0x00, 0x01]);
    bytes.extend_from_slice(&[0x00, 0x00, 0x00, 0x00, 0x00, 0x02]);
    bytes.extend_from_slice(&[0x86, 0xDD]);
    bytes.extend_from_slice(&[0x60, 0x00, 0x00, 0x00]);
    bytes.push((msg_len >> 8) as u8);
    bytes.push((msg_len & 0xFF) as u8);
    bytes.push(0x3a);
    bytes.push(0xff);
    for i in 0..32 {
        bytes.push(i as u8);
    }
    bytes.push(msg_type);
    bytes.push(0x00);
    bytes.extend_from_slice(&[0x00, 0x00]);
    bytes.extend_from_slice(payload);
    bytes.extend_from_slice(options);
    bytes
}

fn parse_envelope(bytes: &[u8]) -> Icmpv6<Unparsed> {
    let packet = Buffer::from_bytes(bytes);
    let region = packet.full_region();
    let ethernet = Ethernet::parse(packet, region).unwrap();
    let ipv6 = ethernet.parse_ipv6().unwrap();
    Icmpv6::parse(ipv6).unwrap()
}

#[test]
fn router_advertisement_fields() {
    let payload = [
        0x40, // cur hop limit
        0xc0, // flags
        0x0e, 0x10, // router lifetime: 3600
        0x00, 0x00, 0x75, 0x30, // reachable time: 30000
        0x00, 0x00, 0x03, 0xe8, // retrans timer: 1000
    ];
    let frame = build_frame(ROUTER_ADVERTISEMENT, &payload, &[]);
    let advert = parse_envelope(&frame)
        .downcast::<RouterAdvertisement>()
        .unwrap();
    assert_eq!(advert.msg_type(), 134);
    assert_eq!(advert.cur_hop_limit(), 0x40);
    assert_eq!(advert.flags(), 0xc0);
    assert_eq!(advert.router_lifetime(), 3600);
    assert_eq!(advert.reachable_time(), 30000);
    assert_eq!(advert.retrans_timer(), 1000);
    assert_eq!(advert.options(), Vec::<u8>::new());
}

#[test]
fn neighbor_solicitation_fields() {
    let mut payload = vec![0x00, 0x00, 0x00, 0x00];
    let target: Vec<u8> = (0x10..0x20).collect();
    payload.extend_from_slice(&target);
    let frame = build_frame(NEIGHBOR_SOLICITATION, &payload, &[0x01, 0x01, 1, 2, 3, 4, 5, 6]);
    let solicit = parse_envelope(&frame)
        .downcast::<NeighborSolicitation>()
        .unwrap();
    assert_eq!(solicit.msg_type(), 135);
    assert_eq!(solicit.reserved(), 0);
    assert_eq!(solicit.target(), target);
    assert_eq!(solicit.options(), vec![0x01, 0x01, 1, 2, 3, 4, 5, 6]);
}

#[test]
fn neighbor_advertisement_fields() {
    let mut payload = vec![0xe0, 0x00, 0x00, 0x00];
    let target: Vec<u8> = (0x20..0x30).collect();
    payload.extend_from_slice(&target);
    let frame = build_frame(NEIGHBOR_ADVERTISEMENT, &payload, &[]);
    let advert = parse_envelope(&frame)
        .downcast::<NeighborAdvertisement>()
        .unwrap();
    assert_eq!(advert.msg_type(), 136);
    assert_eq!(advert.flags(), 0xe0);
    assert_eq!(advert.target(), target);
}

#[test]
fn redirect_fields() {
    let mut payload = vec![0x00, 0x00, 0x00, 0x00];
    let target: Vec<u8> = (0x30..0x40).collect();
    let destination: Vec<u8> = (0x40..0x50).collect();
    payload.extend_from_slice(&target);
    payload.extend_from_slice(&destination);
    let frame = build_frame(REDIRECT, &payload, &[]);
    let redirect = parse_envelope(&frame).downcast::<Redirect>().unwrap();
    assert_eq!(redirect.msg_type(), 137);
    assert_eq!(redirect.target(), target);
    assert_eq!(redirect.destination(), destination);
}

#[test]
fn buffer_primitives() {
    let packet = Buffer::from_bytes(&[0x12, 0x34, 0x56, 0x78]);
    assert_eq!(packet.capacity(), 4);
    assert_eq!(packet.byte(0), 0x12);
    assert_eq!(packet.byte(3), 0x78);
    assert_eq!(packet.read_u16_be(1), 0x3456);
    assert_eq!(packet.read_u32_be(0), 0x12345678);
    assert_eq!(packet.read_bytes(1, 2), vec![0x34, 0x56]);

    let mut packet = Buffer::from_bytes(&[0; 8]);
    packet.write_u16_be(0, 0xBEEF);
    assert_eq!(packet.read_u16_be(0), 0xBEEF);
    assert_eq!(packet.byte(0), 0xBE);
    assert_eq!(packet.byte(1), 0xEF);
    packet.write_u32_be(4, 0x01020304);
    assert_eq!(packet.read_u32_be(4), 0x01020304);
    assert_eq!(packet.byte(7), 0x04);
}
