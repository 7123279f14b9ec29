//! Transport addresses and their layout inside a STUN address attribute.

use vstd::prelude::*;

verus! {

/// Address family code of an IPv4 address.
pub const FAMILY_IPV4: u8 = 1;

/// Address family code of an IPv6 address.
pub const FAMILY_IPV6: u8 = 2;

/// An IP address together with a port.
#[allow(inconsistent_fields)]
#[derive(Clone, Copy, Debug, PartialEq, Eq, Hash)]
pub enum SocketAddress {
    V4 { octets: [u8; 4], port: u16 },
    V6 { octets: [u8; 16], port: u16 },
}

impl SocketAddress {
    /// The port of the address.
    pub open spec fn port_of(self) -> u16 {
        match self {
            SocketAddress::V4 { port, .. } => port,
            SocketAddress::V6 { port, .. } => port,
        }
    }

    /// The octets of the IP address, most significant first.
    pub open spec fn octets_of(self) -> Seq<u8> {
        match self {
            SocketAddress::V4 { octets, .. } => octets@,
            SocketAddress::V6 { octets, .. } => octets@,
        }
    }

    /// The family code of the address.
    pub open spec fn family_of(self) -> u8 {
        match self {
            SocketAddress::V4 { .. } => FAMILY_IPV4,
            SocketAddress::V6 { .. } => FAMILY_IPV6,
        }
    }

    /// The attribute layout of the address: a zero byte, the family code,
    /// the port in big-endian order, then the octets of the IP address.
    pub open spec fn wire_form(self) -> Seq<u8> {
        seq![
            0u8,
            self.family_of(),
            (self.port_of() / 256) as u8,
            (self.port_of() % 256) as u8,
        ] + self.octets_of()
    }

    /// Reads an address from its attribute layout.
    ///
    /// Returns the one address whose layout is `bytes`, and `None` where
    /// `bytes` is the layout of no address.
    pub fn from_wire(bytes: &[u8]) -> (r: Option<SocketAddress>)
        ensures
            r == address_of_wire(bytes@),
    {
        let n = bytes.len();
        if n < 4 || bytes[0] != 0 {
            proof {
                lemma_wire_form_shape(bytes@);
            }
            return None;
        }
        let port: u16 = (bytes[2] as u16) * 256 + (bytes[3] as u16);
        let family = bytes[1];
        if family == FAMILY_IPV4 && n == 8 {
            let a = SocketAddress::V4 { octets: [bytes[4], bytes[5], bytes[6], bytes[7]], port };
            proof {
                assert(a.wire_form() =~= bytes@);
                lemma_address_of_wire_form(a, bytes@);
            }
            Some(a)
        } else if family == FAMILY_IPV6 && n == 20 {
            let a = SocketAddress::V6 {
                octets: [
                    bytes[4],
                    bytes[5],
                    bytes[6],
                    bytes[7],
                    bytes[8],
                    bytes[9],
                    bytes[10],
                    bytes[11],
                    bytes[12],
                    bytes[13],
                    bytes[14],
                    bytes[15],
                    bytes[16],
                    bytes[17],
                    bytes[18],
                    bytes[19],
                ],
                port,
            };
            proof {
                assert(a.wire_form() =~= bytes@);
                lemma_address_of_wire_form(a, bytes@);
            }
            Some(a)
        } else {
            proof {
                lemma_wire_form_shape(bytes@);
            }
            None
        }
    }
}

/// Whether `bytes` is the attribute layout of some address.
pub open spec fn is_wire_form(bytes: Seq<u8>) -> bool {
    exists|a: SocketAddress| #[trigger] a.wire_form() == bytes
}

/// The address whose attribute layout is `bytes`, if there is one.
pub open spec fn address_of_wire(bytes: Seq<u8>) -> Option<SocketAddress> {
    if is_wire_form(bytes) {
        Some(choose|a: SocketAddress| #[trigger] a.wire_form() == bytes)
    } else {
        None
    }
}

/// Every attribute layout starts with a zero byte and a family code, and its
/// length is the one that the family code calls for.
pub proof fn lemma_wire_form_shape(bytes: Seq<u8>)
    ensures
        is_wire_form(bytes) ==> bytes.len() >= 4 && bytes[0] == 0 && ({
            ||| bytes[1] == FAMILY_IPV4 && bytes.len() == 8
            ||| bytes[1] == FAMILY_IPV6 && bytes.len() == 20
        }),
{
    if is_wire_form(bytes) {
        let a = choose|a: SocketAddress| #[trigger] a.wire_form() == bytes;
        assert(a.wire_form().len() == 4 + a.octets_of().len());
        assert(a.wire_form()[0] == 0);
        assert(a.wire_form()[1] == a.family_of());
    }
}

/// Two addresses with the same attribute layout are the same address.
pub proof fn lemma_wire_form_unique(a: SocketAddress, b: SocketAddress)
    requires
        a.wire_form() == b.wire_form(),
    ensures
        a == b,
{
    let w = a.wire_form();
    assert(w.len() == 4 + a.octets_of().len());
    assert(w.len() == 4 + b.octets_of().len());
    assert(w[1] == a.family_of() && w[1] == b.family_of());
    assert(w[2] == (a.port_of() / 256) as u8 && w[3] == (a.port_of() % 256) as u8);
    assert(w[2] == (b.port_of() / 256) as u8 && w[3] == (b.port_of() % 256) as u8);
    assert(a.port_of() == b.port_of());
    assert forall|i: int| 0 <= i < a.octets_of().len() implies a.octets_of()[i]
        == b.octets_of()[i] by {
        assert(a.wire_form()[i + 4] == a.octets_of()[i]);
        assert(b.wire_form()[i + 4] == b.octets_of()[i]);
    }
    assert(a.octets_of() =~= b.octets_of());
    match (a, b) {
        (SocketAddress::V4 { octets: x, .. }, SocketAddress::V4 { octets: y, .. }) => {
            assert(x =~= y);
        },
        (SocketAddress::V6 { octets: x, .. }, SocketAddress::V6 { octets: y, .. }) => {
            assert(x =~= y);
        },
        _ => {},
    }
}

/// An address whose attribute layout is `bytes` is the address of `bytes`.
pub proof fn lemma_address_of_wire_form(a: SocketAddress, bytes: Seq<u8>)
    requires
        a.wire_form() == bytes,
    ensures
        address_of_wire(bytes) == Some(a),
{
    let b = choose|b: SocketAddress| #[trigger] b.wire_form() == bytes;
    lemma_wire_form_unique(a, b);
}

} // verus!
