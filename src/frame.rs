use vstd::prelude::*;
use crate::checksum::{be_bytes, cksum, crc32_cksum, push_be_bytes};
use crate::error::RlinkError;
use crate::ethtype::{decode, encode, lemma_decode_encode, EtherType};
use crate::packet::{before_trailer, checksum_ok, trailer};

verus! {

/// Smallest Ethernet frame before the trailer.
pub const MIN_FRAME_BODY: usize = 60;

/// Payloads of this many bytes or more do not fit into a frame.
pub const MAX_PAYLOAD: usize = 1500;

/// `f` padded with zero bytes up to the minimum frame size.
pub open spec fn pad_to_min(f: Seq<u8>) -> Seq<u8> {
    if f.len() < 60 {
        f + Seq::new((60 - f.len()) as nat, |_i: int| 0u8)
    } else {
        f
    }
}

/// The two big-endian bytes of `x`.
pub open spec fn be16(x: u16) -> Seq<u8> {
    seq![(x >> 8u16) as u8, x as u8]
}

/// An Ethernet II frame without trailer: destination, source, EtherType
/// and payload, zero-padded to 60 bytes.
pub open spec fn frame_body(
    payload: Seq<u8>,
    ethtype: EtherType,
    dest: Seq<u8>,
    src: Seq<u8>,
) -> Seq<u8> {
    pad_to_min(dest + src + be16(encode(ethtype)) + payload)
}

/// The frame as transmitted: the body, followed by its CRC-32/CKSUM when
/// `checksum` is set.
pub open spec fn wire_frame(
    payload: Seq<u8>,
    ethtype: EtherType,
    dest: Seq<u8>,
    src: Seq<u8>,
    checksum: bool,
) -> Seq<u8> {
    let body = frame_body(payload, ethtype, dest, src);
    if checksum {
        body + be_bytes(crc32_cksum(body))
    } else {
        body
    }
}

/// Builds the body of an Ethernet II frame.
pub fn build_frame(payload: &[u8], ethtype: EtherType, dest_mac: [u8; 6], src_mac: [u8; 6]) -> (r:
    Vec<u8>)
    requires
        payload@.len() < MAX_PAYLOAD,
    ensures
        r@ == frame_body(payload@, ethtype, dest_mac@, src_mac@),
{
    let mut frame: Vec<u8> = Vec::new();
    let mut i: usize = 0;
    while i < 6
        invariant
            0 <= i <= 6,
            frame@ == dest_mac@.subrange(0, i as int),
        decreases 6 - i,
    {
        frame.push(dest_mac[i]);
        i = i + 1;
        assert(frame@ =~= dest_mac@.subrange(0, i as int));
    }
    let mut i: usize = 0;
    while i < 6
        invariant
            0 <= i <= 6,
            frame@ == dest_mac@ + src_mac@.subrange(0, i as int),
        decreases 6 - i,
    {
        frame.push(src_mac[i]);
        i = i + 1;
        assert(frame@ =~= dest_mac@ + src_mac@.subrange(0, i as int));
    }
    let value: u16 = u16::from(ethtype);
    frame.push((value >> 8u16) as u8);
    frame.push(value as u8);
    let ghost head = dest_mac@ + src_mac@ + be16(encode(ethtype));
    assert(frame@ =~= head);
    let mut i: usize = 0;
    while i < payload.len()
        invariant
            0 <= i <= payload@.len(),
            payload@.len() < MAX_PAYLOAD,
            head.len() == 14,
            frame@ == head + payload@.subrange(0, i as int),
        decreases payload@.len() - i,
    {
        frame.push(payload[i]);
        i = i + 1;
        assert(frame@ =~= head + payload@.subrange(0, i as int));
    }
    assert(payload@.subrange(0, payload@.len() as int) =~= payload@);
    let ghost unpadded = frame@;
    while frame.len() < MIN_FRAME_BODY
        invariant
            unpadded.len() <= frame@.len() <= 60 || frame@ == unpadded,
            frame@.len() >= unpadded.len(),
            frame@.subrange(0, unpadded.len() as int) == unpadded,
            forall|k: int| unpadded.len() <= k < frame@.len() ==> frame@[k] == 0u8,
        decreases MIN_FRAME_BODY - frame@.len(),
    {
        frame.push(0u8);
    }
    assert(frame@ =~= pad_to_min(unpadded));
    frame
}

/// Decides what `send` puts on the wire. A length-field EtherType must carry
/// the payload's length; payloads of 1500 bytes or more are refused. A
/// length-field frame passes these checks but is not constructed: the
/// result is then `Ok(None)`, and nothing is to be sent. Otherwise the
/// result is the frame, with its CRC-32/CKSUM trailer when `checksum` is set.
pub fn frame_for_send(
    payload: &[u8],
    ethtype: EtherType,
    dest_mac: [u8; 6],
    src_mac: [u8; 6],
    checksum: bool,
) -> (r: Result<Option<Vec<u8>>, RlinkError>)
    ensures
        (ethtype matches EtherType::IEEE802_3(n) && n as int != payload@.len()) ==> r matches Err(
            RlinkError::PayloadLengthMismatch,
        ),
        !(ethtype matches EtherType::IEEE802_3(n) && n as int != payload@.len()) && payload@.len()
            >= MAX_PAYLOAD ==> r matches Err(RlinkError::PayloadTooLarge),
        payload@.len() < MAX_PAYLOAD && (ethtype matches EtherType::IEEE802_3(n) && n as int
            == payload@.len()) ==> r matches Ok(None),
        payload@.len() < MAX_PAYLOAD && !(ethtype is IEEE802_3) ==> (r matches Ok(Some(f)) && f@
            == wire_frame(payload@, ethtype, dest_mac@, src_mac@, checksum)),
{
    let len = payload.len();
    if let EtherType::IEEE802_3(n) = ethtype {
        if n as usize != len {
            return Err(RlinkError::PayloadLengthMismatch);
        }
    }
    if len >= MAX_PAYLOAD {
        return Err(RlinkError::PayloadTooLarge);
    }
    match ethtype {
        EtherType::IEEE802_3(_) => Ok(None),
        _ => {
            let mut frame = build_frame(payload, ethtype, dest_mac, src_mac);
            if checksum {
                let crc = cksum(frame.as_slice());
                push_be_bytes(&mut frame, crc);
            }
            Ok(Some(frame))
        },
    }
}

/// A frame that `frame_for_send` builds with a checksum is at least a
/// minimal frame, its trailer is the checksum of the bytes before it, and
/// its address and EtherType fields read back as given.
pub proof fn lemma_sent_frame_parses(
    payload: Seq<u8>,
    ethtype: EtherType,
    dest: Seq<u8>,
    src: Seq<u8>,
)
    requires
        payload.len() < MAX_PAYLOAD,
        dest.len() == 6,
        src.len() == 6,
        ethtype.is_canonical(),
    ensures
        ({
            let f = wire_frame(payload, ethtype, dest, src, true);
            &&& f.len() >= 64
            &&& checksum_ok(f)
            &&& f.subrange(0, 6) == dest
            &&& f.subrange(6, 12) == src
            &&& decode((f[12] as int * 256 + f[13] as int) as u16) == ethtype
        }),
{
    let head = dest + src + be16(encode(ethtype)) + payload;
    let body = frame_body(payload, ethtype, dest, src);
    let f = wire_frame(payload, ethtype, dest, src, true);
    assert(body.subrange(0, head.len() as int) == head);
    assert(before_trailer(f) =~= body);
    assert(trailer(f) =~= be_bytes(crc32_cksum(body)));
    assert(f.subrange(0, 6) =~= dest);
    assert(f.subrange(6, 12) =~= src);
    let x = encode(ethtype);
    assert(f[12] == (x >> 8u16) as u8);
    assert(f[13] == x as u8);
    assert(((x >> 8u16) as u8) as int * 256 + (x as u8) as int == x as int) by {
        assert((((x >> 8u16) as u8) as u16) * 256u16 + ((x as u8) as u16) == x) by (bit_vector);
    }
    lemma_decode_encode(ethtype);
}

} // verus!
