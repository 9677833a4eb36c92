use rlink::frame::frame_for_send;
use rlink::pool::{select_outcome, worker_step, WorkerStep};
use rlink::{EtherType, Packet, PacketHeader, RlinkError};

const DEST: [u8; 6] = [0x11, 0x22, 0x33, 0x44, 0x55, 0x66];
const SRC: [u8; 6] = [0xAA, 0xBB, 0xCC, 0xDD, 0xEE, 0xFF];

fn crc_of(bytes: &[u8]) -> u32 {
    crc::Crc::<u32>::new(&crc::CRC_32_CKSUM).checksum(bytes)
}

#[test]
fn largest_payload_is_sent() {
    let payload = vec![7u8; 1499];
    let frame = frame_for_send(&payload, EtherType::IPv4, DEST, SRC, false).unwrap().unwrap();
    assert_eq!(frame.len(), 14 + 1499);
    assert_eq!(&frame[14..], payload.as_slice());
}

#[test]
fn payload_of_1500_is_too_large() {
    let payload = vec![7u8; 1500];
    assert!(matches!(
        frame_for_send(&payload, EtherType::IPv4, DEST, SRC, true),
        Err(RlinkError::PayloadTooLarge)
    ));
}

#[test]
fn length_field_mismatch() {
    let payload = vec![1u8; 9];
    assert!(matches!(
        frame_for_send(&payload, EtherType::IEEE802_3(10), DEST, SRC, false),
        Err(RlinkError::PayloadLengthMismatch)
    ));
}

#[test]
fn length_field_match_sends_nothing() {
    let payload = vec![1u8; 10];
    assert!(matches!(
        frame_for_send(&payload, EtherType::IEEE802_3(10), DEST, SRC, true),
        Ok(None)
    ));
}

#[test]
fn length_field_of_large_payload_is_too_large() {
    let payload = vec![1u8; 1500];
    assert!(matches!(
        frame_for_send(&payload, EtherType::IEEE802_3(1500), DEST, SRC, false),
        Err(RlinkError::PayloadTooLarge)
    ));
}

#[test]
fn small_frame_with_checksum() {
    let frame = frame_for_send(&[0xAA], EtherType::IPv4, DEST, SRC, true).unwrap().unwrap();
    assert_eq!(frame.len(), 64);
    assert_eq!(&frame[0..6], &DEST);
    assert_eq!(&frame[6..12], &SRC);
    assert_eq!(&frame[12..14], &[0x08, 0x00]);
    assert_eq!(frame[14], 0xAA);
    assert!(frame[15..60].iter().all(|&b| b == 0));
    assert_eq!(&frame[60..64], &crc_of(&frame[..60]).to_be_bytes());
}

#[test]
fn small_frame_without_checksum() {
    let frame = frame_for_send(&[0xAA], EtherType::ARP, DEST, SRC, false).unwrap().unwrap();
    assert_eq!(frame.len(), 60);
    assert_eq!(&frame[12..14], &[0x08, 0x06]);
}

#[test]
fn sent_frame_parses_back() {
    let payload: Vec<u8> = (0..100u8).collect();
    let frame = frame_for_send(&payload, EtherType::IPv6, DEST, SRC, true).unwrap().unwrap();
    let header = PacketHeader { ts_sec: 0, ts_usec: 0, caplen: 118, len: 118 };
    let eth = Packet::from(header, frame, DEST).parse_eth(true).unwrap();
    assert_eq!(eth.ethtype(), EtherType::IPv6);
    assert_eq!(eth.src_addr(), SRC);
    assert_eq!(eth.data(), payload.as_slice());
}

#[test]
fn worker_forwards_packets_only() {
    let header = PacketHeader { ts_sec: 0, ts_usec: 0, caplen: 1, len: 1 };
    let p = Packet::from(header, vec![5], DEST);
    match worker_step(Some(Some(p))) {
        WorkerStep::Forward(q) => assert_eq!(q.data, vec![5]),
        WorkerStep::Retry => panic!("expected Forward"),
    }
    assert!(matches!(worker_step(Some(None)), WorkerStep::Retry));
    assert!(matches!(worker_step(None), WorkerStep::Retry));
}

#[test]
fn select_reports_exhausted_pool() {
    assert!(matches!(select_outcome(None), Err(RlinkError::BrokenDevicePool)));
    let header = PacketHeader { ts_sec: 0, ts_usec: 0, caplen: 1, len: 1 };
    let p = Packet::from(header, vec![9], SRC);
    assert_eq!(select_outcome(Some(p)).unwrap().data, vec![9]);
}
