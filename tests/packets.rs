use rlink::packet::{trailer_matches, PacketHeader};
use rlink::{EtherType, Packet, RlinkError};

fn header(len: u32) -> PacketHeader {
    PacketHeader { ts_sec: 1, ts_usec: 2, caplen: len, len }
}

fn crc_of(bytes: &[u8]) -> u32 {
    crc::Crc::<u32>::new(&crc::CRC_32_CKSUM).checksum(bytes)
}

/// A 64-byte frame with the given trailer choice.
fn sample_frame(with_crc: bool) -> Vec<u8> {
    let mut data: Vec<u8> = vec![0x11, 0x22, 0x33, 0x44, 0x55, 0x66];
    data.extend_from_slice(&[0xAA, 0xBB, 0xCC, 0xDD, 0xEE, 0xFF]);
    data.extend_from_slice(&[0x08, 0x00]);
    for i in 0..46u8 {
        data.push(i);
    }
    let crc = if with_crc { crc_of(&data) } else { 0 };
    data.extend_from_slice(&crc.to_be_bytes());
    data
}

const MAC: [u8; 6] = [1, 2, 3, 4, 5, 6];

#[test]
fn parse_too_small_returns_packet() {
    for n in [0usize, 1, 14, 63] {
        let data: Vec<u8> = (0..n).map(|i| i as u8).collect();
        let p = Packet::from(header(n as u32), data.clone(), MAC);
        for checksum in [false, true] {
            let p = Packet::from(p.header, p.data.clone(), p.mac_address);
            match p.parse_eth(checksum) {
                Err(RlinkError::FrameTooSmall(back)) => {
                    assert_eq!(back.data, data);
                    assert_eq!(back.header, header(n as u32));
                    assert_eq!(back.mac_address, MAC);
                }
                _ => panic!("expected FrameTooSmall"),
            }
        }
    }
}

#[test]
fn parse_with_valid_checksum() {
    let data = sample_frame(true);
    let p = Packet::from(header(64), data.clone(), MAC);
    let eth = p.parse_eth(true).unwrap();
    assert_eq!(eth.data, data);
    assert_eq!(eth.mac_address, MAC);
    assert_eq!(eth.dst_addr(), [0x11, 0x22, 0x33, 0x44, 0x55, 0x66]);
    assert_eq!(eth.src_addr(), [0xAA, 0xBB, 0xCC, 0xDD, 0xEE, 0xFF]);
    assert_eq!(eth.ethtype(), EtherType::IPv4);
    let payload: Vec<u8> = (0..46u8).collect();
    assert_eq!(eth.data(), payload.as_slice());
}

#[test]
fn parse_with_bad_checksum() {
    let data = sample_frame(false);
    let p = Packet::from(header(64), data.clone(), MAC);
    match p.parse_eth(true) {
        Err(RlinkError::ChecksumMismatch(back)) => assert_eq!(back.data, data),
        _ => panic!("expected ChecksumMismatch"),
    }
}

#[test]
fn parse_without_checksum_ignores_trailer() {
    let data = sample_frame(false);
    let p = Packet::from(header(64), data.clone(), MAC);
    let eth = p.parse_eth(false).unwrap();
    assert_eq!(eth.data, data);
    assert_eq!(eth.data().len(), 46);
}

#[test]
fn single_bit_flip_is_detected() {
    let good = sample_frame(true);
    for byte in 0..60 {
        for bit in 0..8 {
            let mut data = good.clone();
            data[byte] ^= 1u8 << bit;
            let p = Packet::from(header(64), data, MAC);
            assert!(matches!(p.parse_eth(true), Err(RlinkError::ChecksumMismatch(_))));
        }
    }
}

#[test]
fn parse_against_given_checksum() {
    let data = sample_frame(true);
    let crc = crc_of(&data[..60]);
    let p = Packet::from(header(64), data.clone(), MAC);
    assert!(p.parse_eth_against(Some(crc)).is_ok());
    let p = Packet::from(header(64), data.clone(), MAC);
    assert!(matches!(
        p.parse_eth_against(Some(crc ^ 1)),
        Err(RlinkError::ChecksumMismatch(_))
    ));
    let p = Packet::from(header(64), data, MAC);
    assert!(p.parse_eth_against(None).is_ok());
}

#[test]
fn trailer_comparison() {
    assert!(trailer_matches(&[9, 0x12, 0x34, 0x56, 0x78], 0x12345678));
    assert!(!trailer_matches(&[9, 0x12, 0x34, 0x56, 0x78], 0x78563412));
    assert!(trailer_matches(&[0, 0, 0, 0], 0));
}

#[test]
fn ethtype_field_is_big_endian() {
    let mut data = sample_frame(false);
    data[12] = 0x86;
    data[13] = 0xDD;
    let eth = Packet::from(header(64), data.clone(), MAC).parse_eth(false).unwrap();
    assert_eq!(eth.ethtype(), EtherType::IPv6);
    data[12] = 0x00;
    data[13] = 0x2E;
    let eth = Packet::from(header(64), data, MAC).parse_eth(false).unwrap();
    assert_eq!(eth.ethtype(), EtherType::IEEE802_3(46));
}
