use vstd::prelude::*;

verus! {

/// EtherType values of notable protocols, as carried in bytes 12 and 13 of
/// an Ethernet II frame.
#[derive(Clone, Debug, Copy, PartialEq, Eq, Structural)]
pub enum EtherType {
    IPv4,
    /// Neighbor Detection Protocol, a proprietary numbering.
    NDP,
    ARP,
    RARP,
    IPX,
    IPv6,
    EFC,
    /// An IEEE 802.3 length field: the payload length, at most 1500.
    IEEE802_3(u16),
    /// Any other value above 1500.
    UNKNOWN(u16),
}

/// Largest value of the field that is read as a payload length.
pub const MAX_LENGTH_FIELD: u16 = 1500;

/// The protocol, or length, that a 16-bit EtherType field stands for.
pub open spec fn decode(value: u16) -> EtherType {
    if value <= 1500 {
        EtherType::IEEE802_3(value)
    } else if value == 0x0800 {
        EtherType::IPv4
    } else if value == 0x1101 {
        EtherType::NDP
    } else if value == 0x0806 {
        EtherType::ARP
    } else if value == 0x8035 {
        EtherType::RARP
    } else if value == 0x8137 {
        EtherType::IPX
    } else if value == 0x86DD {
        EtherType::IPv6
    } else if value == 0x8808 {
        EtherType::EFC
    } else {
        EtherType::UNKNOWN(value)
    }
}

/// The 16-bit field that encodes an EtherType.
pub open spec fn encode(ethtype: EtherType) -> u16 {
    match ethtype {
        EtherType::IPv4 => 0x0800,
        EtherType::NDP => 0x1101,
        EtherType::ARP => 0x0806,
        EtherType::RARP => 0x8035,
        EtherType::IPX => 0x8137,
        EtherType::IPv6 => 0x86DD,
        EtherType::EFC => 0x8808,
        EtherType::IEEE802_3(len) => len,
        EtherType::UNKNOWN(value) => value,
    }
}

impl EtherType {
    /// A value that decoding can produce: a length field carries at most
    /// 1500, and an unknown value is above 1500 and outside the table.
    pub open spec fn is_canonical(self) -> bool {
        match self {
            EtherType::IEEE802_3(len) => len <= 1500,
            EtherType::UNKNOWN(value) => value > 1500 && value != 0x0800 && value
                != 0x1101 && value != 0x0806 && value != 0x8035 && value != 0x8137 && value
                != 0x86DD && value != 0x8808,
            _ => true,
        }
    }
}

/// The human-readable name of a protocol; none for a length field or an
/// unknown value.
pub open spec fn protocol_name(ethtype: EtherType) -> Option<&'static str> {
    match ethtype {
        EtherType::IPv4 => Some("Internet Protocol version 4"),
        EtherType::NDP => Some("Neighbor Detection Protocol"),
        EtherType::ARP => Some("Address Resolution Protocol"),
        EtherType::RARP => Some("Reverse Address Resolution Protocol"),
        EtherType::IPX => Some("Internetwork Packet Exchange"),
        EtherType::IPv6 => Some("Internet Protocol version 6"),
        EtherType::EFC => Some("Ethernet Flow Control"),
        EtherType::IEEE802_3(_) => None,
        EtherType::UNKNOWN(_) => None,
    }
}

impl EtherType {
    /// The human-readable name of the protocol, if it is a known one.
    pub fn name(&self) -> (r: Option<&'static str>)
        ensures
            r == protocol_name(*self),
            r is None <==> (*self is IEEE802_3 || *self is UNKNOWN),
    {
        match self {
            EtherType::IPv4 => Some("Internet Protocol version 4"),
            EtherType::NDP => Some("Neighbor Detection Protocol"),
            EtherType::ARP => Some("Address Resolution Protocol"),
            EtherType::RARP => Some("Reverse Address Resolution Protocol"),
            EtherType::IPX => Some("Internetwork Packet Exchange"),
            EtherType::IPv6 => Some("Internet Protocol version 6"),
            EtherType::EFC => Some("Ethernet Flow Control"),
            EtherType::IEEE802_3(_) => None,
            EtherType::UNKNOWN(_) => None,
        }
    }
}

impl From<u16> for EtherType {
    fn from(value: u16) -> (r: EtherType)
        ensures
            r == decode(value),
    {
        if value <= MAX_LENGTH_FIELD {
            EtherType::IEEE802_3(value)
        } else {
            match value {
                0x0800 => EtherType::IPv4,
                0x1101 => EtherType::NDP,
                0x0806 => EtherType::ARP,
                0x8035 => EtherType::RARP,
                0x8137 => EtherType::IPX,
                0x86DD => EtherType::IPv6,
                0x8808 => EtherType::EFC,
                _ => EtherType::UNKNOWN(value),
            }
        }
    }
}

impl vstd::std_specs::convert::FromSpecImpl<u16> for EtherType {
    open spec fn obeys_from_spec() -> bool {
        true
    }

    open spec fn from_spec(v: u16) -> EtherType {
        decode(v)
    }
}

impl From<EtherType> for u16 {
    fn from(ethtype: EtherType) -> (r: u16)
        ensures
            r == encode(ethtype),
    {
        match ethtype {
            EtherType::IPv4 => 0x0800,
            EtherType::NDP => 0x1101,
            EtherType::ARP => 0x0806,
            EtherType::RARP => 0x8035,
            EtherType::IPX => 0x8137,
            EtherType::IPv6 => 0x86DD,
            EtherType::EFC => 0x8808,
            EtherType::IEEE802_3(len) => len,
            EtherType::UNKNOWN(value) => value,
        }
    }
}

impl vstd::std_specs::convert::FromSpecImpl<EtherType> for u16 {
    open spec fn obeys_from_spec() -> bool {
        true
    }

    open spec fn from_spec(v: EtherType) -> u16 {
        encode(v)
    }
}

/// Encoding a decoded field gives back the field, for every 16-bit value.
pub proof fn lemma_encode_decode(v: u16)
    ensures
        encode(decode(v)) == v,
        decode(v).is_canonical(),
{
}

/// Decoding an encoded EtherType gives back the EtherType, for every value
/// that decoding can produce.
pub proof fn lemma_decode_encode(x: EtherType)
    requires
        x.is_canonical(),
    ensures
        decode(encode(x)) == x,
{
}

} // verus!
