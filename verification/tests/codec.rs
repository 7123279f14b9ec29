use bytecodec::{DecodeExt, EncodeExt};
use stun_binding::address::SocketAddress;
use stun_binding::codec::{
    make_binding_request, mapped_address_of, parse_binding_response, DecodedMessage, MessageKind,
    MAX_PACKET_LEN, METHOD_BINDING,
};
use stun_codec::rfc5389::attributes::{Software, XorMappedAddress};
use stun_codec::rfc5389::methods::BINDING;
use stun_codec::rfc5389::Attribute;
use stun_codec::{Message, MessageClass, MessageDecoder, MessageEncoder, Method, TransactionId};

fn encoded(message: Message<Attribute>) -> Vec<u8> {
    MessageEncoder::<Attribute>::default().encode_into_bytes(message).unwrap()
}

fn response() -> Message<Attribute> {
    Message::new(MessageClass::SuccessResponse, BINDING, TransactionId::new([3; 12]))
}

#[test]
fn request_has_the_fixed_header_and_length() {
    let request = make_binding_request();
    assert_eq!(request.len(), 20);
    assert_eq!(&request[..8], &[0x00, 0x01, 0x00, 0x00, 0x21, 0x12, 0xA4, 0x42][..]);
}

#[test]
fn request_decodes_as_a_binding_request() {
    let request = make_binding_request();
    let message = MessageDecoder::<Attribute>::default()
        .decode_from_bytes(&request)
        .unwrap()
        .unwrap();
    assert_eq!(message.class(), MessageClass::Request);
    assert_eq!(message.method(), BINDING);
    assert_eq!(message.attributes().count(), 0);
    assert_eq!(&message.transaction_id().as_bytes()[..], &request[8..]);
}

#[test]
fn parses_a_hand_written_ipv4_response() {
    let mut packet = vec![0x01, 0x01, 0x00, 0x0C, 0x21, 0x12, 0xA4, 0x42];
    packet.extend_from_slice(&[0xAB; 12]);
    packet.extend_from_slice(&[0x00, 0x20, 0x00, 0x08, 0x00, 0x01, 0xF5, 0x23]);
    packet.extend_from_slice(&[0xE7, 0x21, 0xC0, 0x45]);
    assert_eq!(
        parse_binding_response(&packet),
        Some(SocketAddress::V4 { octets: [198, 51, 100, 7], port: 54321 })
    );
}

#[test]
fn parses_an_encoded_ipv4_response() {
    let mut message = response();
    message.add_attribute(XorMappedAddress::new("192.0.2.1:1".parse().unwrap()));
    assert_eq!(
        parse_binding_response(&encoded(message)),
        Some(SocketAddress::V4 { octets: [192, 0, 2, 1], port: 1 })
    );
}

#[test]
fn parses_an_encoded_ipv6_response() {
    let mut message = response();
    message.add_attribute(XorMappedAddress::new("[2001:db8::a:1]:65535".parse().unwrap()));
    assert_eq!(
        parse_binding_response(&encoded(message)),
        Some(SocketAddress::V6 {
            octets: [0x20, 0x01, 0x0d, 0xb8, 0, 0, 0, 0, 0, 0, 0, 0, 0, 0x0a, 0, 0x01],
            port: 65535,
        })
    );
}

#[test]
fn takes_the_first_mapped_address() {
    let mut message = response();
    message.add_attribute(Software::new("probe".to_owned()).unwrap());
    message.add_attribute(XorMappedAddress::new("198.51.100.7:54321".parse().unwrap()));
    message.add_attribute(XorMappedAddress::new("198.51.100.8:54322".parse().unwrap()));
    assert_eq!(
        parse_binding_response(&encoded(message)),
        Some(SocketAddress::V4 { octets: [198, 51, 100, 7], port: 54321 })
    );
}

#[test]
fn response_without_mapped_address_gives_none() {
    assert_eq!(parse_binding_response(&encoded(response())), None);
    assert_eq!(parse_binding_response(&make_binding_request()), None);
}

#[test]
fn malformed_packets_give_none() {
    assert_eq!(parse_binding_response(&[]), None);
    assert_eq!(parse_binding_response(&[0u8; 19]), None);
    assert_eq!(parse_binding_response(&[0xFF; 64]), None);
    let mut message = response();
    message.add_attribute(XorMappedAddress::new("198.51.100.7:54321".parse().unwrap()));
    let packet = encoded(message);
    assert_eq!(parse_binding_response(&packet[..packet.len() - 1]), None);
    let mut bad_cookie = packet.clone();
    bad_cookie[4] ^= 0xFF;
    assert_eq!(parse_binding_response(&bad_cookie), None);
}

#[test]
fn truncated_and_corrupted_responses_are_answered() {
    let mut message = response();
    message.add_attribute(Software::new("probe".to_owned()).unwrap());
    message.add_attribute(XorMappedAddress::new("[2001:db8::1]:3478".parse().unwrap()));
    let packet = encoded(message);
    assert!(parse_binding_response(&packet).is_some());
    for len in 0..packet.len() {
        assert_eq!(parse_binding_response(&packet[..len]), None);
    }
    for at in 0..packet.len() {
        for bit in 0..8 {
            let mut changed = packet.clone();
            changed[at] ^= 1 << bit;
            let answer = parse_binding_response(&changed);
            if at < 8 && at != 0 && at != 1 {
                assert_eq!(answer, None);
            }
        }
    }
}

#[test]
fn items_are_reachable_from_the_crate_root() {
    let request = stun_binding::make_binding_request();
    assert_eq!(request.len(), 20);
    assert_eq!(stun_binding::parse_binding_response(&request), None);
}

fn decoded(kind: MessageKind, method: u16, mapped_address: Option<Vec<u8>>) -> DecodedMessage {
    DecodedMessage { kind, method, mapped_address }
}

#[test]
fn success_response_of_binding_reports_its_address() {
    let layout = vec![0, 1, 0xD4, 0x31, 198, 51, 100, 7];
    assert_eq!(METHOD_BINDING, 1);
    assert_eq!(
        mapped_address_of(&decoded(MessageKind::SuccessResponse, METHOD_BINDING, Some(layout))),
        Some(SocketAddress::V4 { octets: [198, 51, 100, 7], port: 54321 })
    );
}

#[test]
fn other_classes_and_methods_report_nothing() {
    let layout = vec![0, 1, 0xD4, 0x31, 198, 51, 100, 7];
    for kind in [MessageKind::Request, MessageKind::Indication, MessageKind::ErrorResponse] {
        assert_eq!(mapped_address_of(&decoded(kind, METHOD_BINDING, Some(layout.clone()))), None);
    }
    for method in [0, 2, 3, 0x0FFF] {
        assert_eq!(
            mapped_address_of(&decoded(MessageKind::SuccessResponse, method, Some(layout.clone()))),
            None
        );
    }
}

#[test]
fn response_without_attribute_or_with_a_bad_layout_reports_nothing() {
    assert_eq!(mapped_address_of(&decoded(MessageKind::SuccessResponse, METHOD_BINDING, None)), None);
    assert_eq!(
        mapped_address_of(&decoded(
            MessageKind::SuccessResponse,
            METHOD_BINDING,
            Some(vec![0, 1, 0, 80, 127, 0, 0]),
        )),
        None
    );
}

#[test]
fn only_success_responses_are_parsed() {
    for class in [MessageClass::Request, MessageClass::Indication, MessageClass::ErrorResponse] {
        let mut message = Message::<Attribute>::new(class, BINDING, TransactionId::new([3; 12]));
        message.add_attribute(XorMappedAddress::new("198.51.100.7:54321".parse().unwrap()));
        assert_eq!(parse_binding_response(&encoded(message)), None);
    }
}

#[test]
fn only_binding_responses_are_parsed() {
    let mut message = Message::<Attribute>::new(
        MessageClass::SuccessResponse,
        Method::new(3).unwrap(),
        TransactionId::new([3; 12]),
    );
    message.add_attribute(XorMappedAddress::new("198.51.100.7:54321".parse().unwrap()));
    assert_eq!(parse_binding_response(&encoded(message)), None);
}

fn response_with_filler(filler_len: u16, tail: &[u8]) -> Vec<u8> {
    let attributes_len = 4 + filler_len + tail.len() as u16;
    let mut packet = vec![0x01, 0x01];
    packet.extend_from_slice(&attributes_len.to_be_bytes());
    packet.extend_from_slice(&[0x21, 0x12, 0xA4, 0x42]);
    packet.extend_from_slice(&[0xAB; 12]);
    packet.extend_from_slice(&[0x7F, 0x00]);
    packet.extend_from_slice(&filler_len.to_be_bytes());
    packet.extend_from_slice(&vec![0u8; filler_len as usize]);
    packet.extend_from_slice(tail);
    packet
}

const MAPPED_ATTRIBUTE: [u8; 12] =
    [0x00, 0x20, 0x00, 0x08, 0x00, 0x01, 0xF5, 0x23, 0xE7, 0x21, 0xC0, 0x45];

#[test]
fn packet_bound_is_the_longest_datagram() {
    assert_eq!(MAX_PACKET_LEN, 65_535);
}

#[test]
fn over_long_packet_with_fingerprint_gives_none() {
    let fingerprint = [0x80, 0x28, 0x00, 0x04, 0x12, 0x34, 0x56, 0x78];
    let packet = response_with_filler(65_512, &fingerprint);
    assert_eq!(packet.len(), 65_544);
    assert_eq!(parse_binding_response(&packet), None);
}

#[test]
fn over_long_packets_give_none() {
    assert_eq!(parse_binding_response(&vec![0u8; 65_536]), None);
    assert_eq!(parse_binding_response(&vec![0xFF; 70_000]), None);
    let packet = response_with_filler(65_504, &MAPPED_ATTRIBUTE);
    assert_eq!(packet.len(), 65_540);
    assert_eq!(parse_binding_response(&packet), None);
}

#[test]
fn long_packet_within_the_bound_is_parsed() {
    let packet = response_with_filler(65_496, &MAPPED_ATTRIBUTE);
    assert_eq!(packet.len(), 65_532);
    assert_eq!(
        parse_binding_response(&packet),
        Some(SocketAddress::V4 { octets: [198, 51, 100, 7], port: 54321 })
    );
}

#[test]
fn long_packet_with_a_wrong_fingerprint_gives_none() {
    let fingerprint = [0x80, 0x28, 0x00, 0x04, 0x12, 0x34, 0x56, 0x78];
    let mut tail = MAPPED_ATTRIBUTE.to_vec();
    tail.extend_from_slice(&fingerprint);
    let packet = response_with_filler(65_488, &tail);
    assert_eq!(packet.len(), 65_532);
    assert_eq!(parse_binding_response(&packet), None);
}
