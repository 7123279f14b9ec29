//! Binding requests and responses on the wire.
//!
//! Framing and attribute parsing are the work of the `stun_codec` crate. This
//! module states what the library relies on and turns the codec's answers
//! into the library's own values.

use bytecodec::{DecodeExt, EncodeExt};
use stun_codec::net::SocketAddrEncoder;
use stun_codec::rfc5389::attributes::XorMappedAddress;
use stun_codec::rfc5389::methods::BINDING;
use stun_codec::rfc5389::Attribute;
use stun_codec::{Message, MessageClass, MessageDecoder, MessageEncoder, TransactionId};
use vstd::prelude::*;
use crate::address::{address_of_wire, SocketAddress};

verus! {

/// Length in bytes of a binding request without attributes.
pub const REQUEST_LEN: usize = 20;

/// The first eight bytes of every binding request without attributes: the
/// message type of a request of method Binding, a zero attribute length, and
/// the magic cookie.
pub open spec fn request_header() -> Seq<u8> {
    seq![0x00u8, 0x01u8, 0x00u8, 0x00u8, 0x21u8, 0x12u8, 0xA4u8, 0x42u8]
}

/// The binding request that carries the transaction identifier `id`.
pub open spec fn binding_request_bytes(id: Seq<u8>) -> Seq<u8> {
    request_header() + id
}

/// Whether `bytes` is a binding request without attributes, whatever its
/// transaction identifier.
pub open spec fn is_binding_request(bytes: Seq<u8>) -> bool {
    bytes.len() == REQUEST_LEN && bytes.subrange(0, 8) == request_header()
}

/// Method code of Binding.
pub const METHOD_BINDING: u16 = 0x0001;

/// Length in bytes of the longest datagram that is handed to the codec. No
/// UDP datagram is longer; what is longer is no response.
pub const MAX_PACKET_LEN: usize = 65_535;

/// The class of a STUN message.
#[derive(Clone, Copy, Debug, PartialEq, Eq, Structural)]
pub enum MessageKind {
    Request,
    Indication,
    SuccessResponse,
    ErrorResponse,
}

/// What the library reads of a decoded STUN message.
#[derive(Debug, PartialEq, Eq)]
pub struct DecodedMessage {
    pub kind: MessageKind,
    pub method: u16,
    /// The attribute layout of the first XOR-MAPPED-ADDRESS attribute, with
    /// the masking undone, where the message holds one.
    pub mapped_address: Option<Vec<u8>>,
}

/// A decoded message as a plain value.
pub struct MessageModel {
    pub kind: MessageKind,
    pub method: u16,
    pub mapped_address: Option<Seq<u8>>,
}

impl View for DecodedMessage {
    type V = MessageModel;

    open spec fn view(&self) -> MessageModel {
        MessageModel {
            kind: self.kind,
            method: self.method,
            mapped_address: match self.mapped_address {
                Some(layout) => Some(layout@),
                None => None,
            },
        }
    }
}

/// What the codec makes of `packet`, a datagram of at most `MAX_PACKET_LEN`
/// bytes: the message it decodes to, or `None` where `packet` does not decode
/// as a STUN message.
pub uninterp spec fn decoded_message(packet: Seq<u8>) -> Option<MessageModel>;

/// The address that `message` reports to a binding: that of its mapped
/// address attribute, where it is a success response of method Binding.
pub open spec fn reported_address(message: MessageModel) -> Option<SocketAddress> {
    if message.kind == MessageKind::SuccessResponse && message.method == METHOD_BINDING {
        match message.mapped_address {
            Some(layout) => address_of_wire(layout),
            None => None,
        }
    } else {
        None
    }
}

/// The mapped address that a response datagram reports, if it reports one.
/// A datagram of more than `MAX_PACKET_LEN` bytes reports none.
pub open spec fn response_address(packet: Seq<u8>) -> Option<SocketAddress> {
    if packet.len() > MAX_PACKET_LEN {
        None
    } else {
        match decoded_message(packet) {
            Some(message) => reported_address(message),
            None => None,
        }
    }
}

/// Draws twelve random bytes with `rand::random`.
///
/// Nothing is claimed of the bytes drawn.
#[verifier::external_body]
fn fresh_transaction_id() -> (id: [u8; 12]) {
    rand::random()
}

/// Encodes a request of method Binding, without attributes, through
/// `stun_codec::MessageEncoder` and `bytecodec::EncodeExt::encode_into_bytes`.
///
/// The contract claims the twenty bytes that the encoder writes for such a
/// message: the fixed header, then the transaction identifier as given. The
/// encoder fails only on attributes, of which the message has none.
#[verifier::external_body]
fn encode_binding_request(id: [u8; 12]) -> (bytes: Vec<u8>)
    ensures
        bytes@ == binding_request_bytes(id@),
{
    let request = Message::<Attribute>::new(MessageClass::Request, BINDING, TransactionId::new(id));
    MessageEncoder::<Attribute>::default().encode_into_bytes(request).unwrap()
}

/// Decodes `packet` with `stun_codec::MessageDecoder` through
/// `bytecodec::DecodeExt::decode_from_bytes`, and reads off the class, the
/// method code, and the address of the first XOR-MAPPED-ADDRESS attribute
/// (`Message::get_attribute`), the latter in the layout that
/// `stun_codec::net::SocketAddrEncoder` writes.
///
/// The contract claims only that the answer depends on the bytes of `packet`
/// alone; it gives that answer a name and says nothing of what it holds.
/// Longer datagrams are kept from the codec: where the attributes ahead of a
/// FINGERPRINT attribute take 65,536 bytes or more with the header, its
/// checksum test computes a length that does not fit.
#[verifier::external_body]
fn decode_message(packet: &[u8]) -> (decoded: Option<DecodedMessage>)
    requires
        packet@.len() <= MAX_PACKET_LEN,
    ensures
        match decoded {
            Some(message) => decoded_message(packet@) == Some(message@),
            None => decoded_message(packet@) is None,
        },
{
    let message = MessageDecoder::<Attribute>::default().decode_from_bytes(packet).ok()?.ok()?;
    let kind = match message.class() {
        MessageClass::Request => MessageKind::Request,
        MessageClass::Indication => MessageKind::Indication,
        MessageClass::SuccessResponse => MessageKind::SuccessResponse,
        MessageClass::ErrorResponse => MessageKind::ErrorResponse,
    };
    let mapped_address = match message.get_attribute::<XorMappedAddress>() {
        Some(attribute) => SocketAddrEncoder::new().encode_into_bytes(attribute.address()).ok(),
        None => None,
    };
    Some(DecodedMessage { kind, method: message.method().as_u16(), mapped_address })
}

/// Builds a binding request with a fresh, random transaction identifier.
///
/// The identifier differs from call to call; the rest of the datagram is
/// fixed.
pub fn make_binding_request() -> (request: Vec<u8>)
    ensures
        is_binding_request(request@),
{
    let id = fresh_transaction_id();
    let request = encode_binding_request(id);
    proof {
        assert(request@.subrange(0, 8) =~= request_header());
    }
    request
}

/// The address that a decoded message reports to a binding.
///
/// Only a success response of method Binding reports one, and only where its
/// mapped address attribute holds an address.
pub fn mapped_address_of(message: &DecodedMessage) -> (address: Option<SocketAddress>)
    ensures
        address == reported_address(message@),
{
    if message.kind != MessageKind::SuccessResponse || message.method != METHOD_BINDING {
        return None;
    }
    match &message.mapped_address {
        Some(layout) => SocketAddress::from_wire(layout.as_slice()),
        None => None,
    }
}

/// Extracts the mapped address from a response datagram.
///
/// Returns `None` where the datagram is longer than `MAX_PACKET_LEN`, does
/// not decode, is no success response of method Binding, or reports no
/// mapped address.
pub fn parse_binding_response(buf: &[u8]) -> (address: Option<SocketAddress>)
    ensures
        address == response_address(buf@),
{
    if buf.len() > MAX_PACKET_LEN {
        return None;
    }
    match decode_message(buf) {
        Some(message) => mapped_address_of(&message),
        None => None,
    }
}

} // verus!
