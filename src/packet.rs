use vstd::prelude::*;
use std::marker::PhantomData;
use crate::checksum::{be_bytes, cksum, crc32_cksum};
use crate::error::RlinkError;
use crate::ethtype::{decode, EtherType};

verus! {

/// Smallest Ethernet frame, trailer included.
pub const MIN_FRAME_LEN: usize = 64;

/// Length of the checksum trailer.
pub const TRAILER_LEN: usize = 4;

/// What the capture layer records of a packet: when it was captured, how
/// many bytes were captured and how long it was on the wire.
#[derive(Clone, Copy, Debug, PartialEq, Eq, Structural)]
pub struct PacketHeader {
    pub ts_sec: i64,
    pub ts_usec: i64,
    pub caplen: u32,
    pub len: u32,
}

/// The processing stage of a packet.
pub trait Type {}

/// Raw data captured from the wire.
#[derive(Debug)]
pub struct Raw;

impl Type for Raw {}

/// Data validated as an Ethernet II frame.
#[derive(Debug)]
pub struct Eth;

impl Type for Eth {}

/// A packet that owns its bytes, tagged with its processing stage.
#[derive(Debug)]
pub struct Packet<T: Type> {
    /// Header of the packet
    pub header: PacketHeader,
    /// Packet content
    pub data: Vec<u8>,
    /// Hardware address of the device that received this packet
    pub mac_address: [u8; 6],
    /// The stage, fixed when the packet is made
    pub marker: PhantomData<T>,
}

/// The trailer of a frame of at least four bytes.
pub open spec fn trailer(data: Seq<u8>) -> Seq<u8> {
    data.subrange(data.len() - 4, data.len() as int)
}

/// The bytes of a frame before its trailer.
pub open spec fn before_trailer(data: Seq<u8>) -> Seq<u8> {
    data.subrange(0, data.len() - 4)
}

/// The trailer of `data` is the big-endian form of `crc`.
pub open spec fn trailer_is(data: Seq<u8>, crc: u32) -> bool {
    trailer(data) == be_bytes(crc)
}

/// A frame whose trailer is the CRC-32/CKSUM of the bytes before it.
pub open spec fn checksum_ok(data: Seq<u8>) -> bool {
    trailer_is(data, crc32_cksum(before_trailer(data)))
}

/// Compares the trailer of `data` with the big-endian bytes of `crc`.
pub fn trailer_matches(data: &[u8], crc: u32) -> (r: bool)
    requires
        data@.len() >= 4,
    ensures
        r == trailer_is(data@, crc),
{
    let n = data.len();
    let r = data[n - 4] == (crc >> 24u32) as u8 && data[n - 3] == (crc >> 16u32) as u8
        && data[n - 2] == (crc >> 8u32) as u8 && data[n - 1] == crc as u8;
    assert(r == (trailer(data@) =~= be_bytes(crc)));
    r
}

impl<T: Type> Packet<T> {
    /// The same packet at another stage.
    fn retag<U: Type>(self) -> (r: Packet<U>)
        ensures
            r.header == self.header,
            r.data == self.data,
            r.mac_address == self.mac_address,
    {
        Packet { header: self.header, data: self.data, mac_address: self.mac_address, marker: PhantomData }
    }
}

impl Packet<Raw> {
    /// A raw packet from what the capture layer delivered and the hardware
    /// address of the receiving device.
    pub fn from(header: PacketHeader, data: Vec<u8>, mac_address: [u8; 6]) -> (r: Packet<Raw>)
        ensures
            r.header == header,
            r.data == data,
            r.mac_address == mac_address,
    {
        Packet { header, data, mac_address, marker: PhantomData }
    }

    /// Validates the packet as an Ethernet II frame against an already
    /// computed checksum: `None` skips the trailer check, `Some(crc)` asks
    /// that the trailer be the big-endian bytes of `crc`. On failure the
    /// packet comes back unchanged inside the error.
    pub fn parse_eth_against(self, crc: Option<u32>) -> (r: Result<Packet<Eth>, RlinkError>)
        ensures
            self.data@.len() < MIN_FRAME_LEN ==> r == Err::<Packet<Eth>, RlinkError>(
                RlinkError::FrameTooSmall(self),
            ),
            self.data@.len() >= MIN_FRAME_LEN && crc is Some && !trailer_is(
                self.data@,
                crc->0,
            ) ==> r == Err::<Packet<Eth>, RlinkError>(RlinkError::ChecksumMismatch(self)),
            self.data@.len() >= MIN_FRAME_LEN && (crc is None || trailer_is(self.data@, crc->0))
                ==> (r matches Ok(p) && p.header == self.header && p.data == self.data
                && p.mac_address == self.mac_address),
    {
        if self.data.len() < MIN_FRAME_LEN {
            return Err(RlinkError::FrameTooSmall(self));
        }
        match crc {
            Some(c) => {
                if !trailer_matches(self.data.as_slice(), c) {
                    return Err(RlinkError::ChecksumMismatch(self));
                }
            },
            None => {},
        }
        Ok(self.retag())
    }

    /// Parses the packet as an Ethernet II frame. The minimum frame size is
    /// checked and, when `checksum` is set, that the trailer is the
    /// CRC-32/CKSUM of the bytes before it. On failure the packet comes
    /// back unchanged inside the error.
    pub fn parse_eth(self, checksum: bool) -> (r: Result<Packet<Eth>, RlinkError>)
        ensures
            self.data@.len() < MIN_FRAME_LEN ==> r == Err::<Packet<Eth>, RlinkError>(
                RlinkError::FrameTooSmall(self),
            ),
            self.data@.len() >= MIN_FRAME_LEN && checksum && !checksum_ok(self.data@) ==> r
                == Err::<Packet<Eth>, RlinkError>(RlinkError::ChecksumMismatch(self)),
            self.data@.len() >= MIN_FRAME_LEN && (!checksum || checksum_ok(self.data@)) ==> (r
                matches Ok(p) && p.header == self.header && p.data == self.data
                && p.mac_address == self.mac_address),
    {
        if self.data.len() < MIN_FRAME_LEN {
            return Err(RlinkError::FrameTooSmall(self));
        }
        let crc = if checksum {
            let n = self.data.len();
            Some(cksum(&self.data.as_slice()[0..n - TRAILER_LEN]))
        } else {
            None
        };
        self.parse_eth_against(crc)
    }
}

impl Packet<Eth> {
    /// The frame layout can be read: at least a minimal frame.
    pub open spec fn is_frame(&self) -> bool {
        self.data@.len() >= MIN_FRAME_LEN
    }

    /// Destination address, bytes 0 to 5.
    pub fn dst_addr(&self) -> (r: [u8; 6])
        requires
            self.is_frame(),
        ensures
            r@ == self.data@.subrange(0, 6),
    {
        let d = &self.data;
        let r = [d[0], d[1], d[2], d[3], d[4], d[5]];
        assert(r@ =~= self.data@.subrange(0, 6));
        r
    }

    /// Source address, bytes 6 to 11.
    pub fn src_addr(&self) -> (r: [u8; 6])
        requires
            self.is_frame(),
        ensures
            r@ == self.data@.subrange(6, 12),
    {
        let d = &self.data;
        let r = [d[6], d[7], d[8], d[9], d[10], d[11]];
        assert(r@ =~= self.data@.subrange(6, 12));
        r
    }

    /// The EtherType field, bytes 12 and 13, big-endian.
    pub fn ethtype(&self) -> (r: EtherType)
        requires
            self.is_frame(),
        ensures
            r == decode((self.data@[12] as int * 256 + self.data@[13] as int) as u16),
    {
        let hi = self.data[12] as u16;
        let lo = self.data[13] as u16;
        let value = hi * 256 + lo;
        EtherType::from(value)
    }

    /// The payload: from byte 14 up to the trailer, which is never part of it.
    pub fn data(&self) -> (r: &[u8])
        requires
            self.is_frame(),
        ensures
            r@ == self.data@.subrange(14, self.data@.len() - 4),
    {
        let n = self.data.len();
        &self.data.as_slice()[14..n - TRAILER_LEN]
    }
}

} // verus!
