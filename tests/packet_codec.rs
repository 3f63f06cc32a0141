use imu_rust::error::{ImuError, ProtocolFault};
use imu_rust::packet::{decode_header, ChannelSequences, ShtpHeader};

#[test]
fn encode_then_decode_recovers_channel_and_length() {
    let mut seqs = ChannelSequences::new();
    let body = vec![0xF9u8, 0x00, 0x11];
    let packet = seqs.encode(2, &body).unwrap();
    assert_eq!(packet, vec![7, 0, 2, 0, 0xF9, 0x00, 0x11]);
    let header = decode_header(&packet).unwrap();
    assert_eq!(header.len, 7);
    assert_eq!(header.channel, 2);
    assert_eq!(header.sequence, 0);
    assert!(!header.continuation);
}

#[test]
fn largest_body_fits_and_one_more_byte_fails() {
    let mut seqs = ChannelSequences::new();
    let body = vec![0xAAu8; 252];
    let packet = seqs.encode(3, &body).unwrap();
    assert_eq!(packet.len(), 256);
    assert_eq!(packet[0], 0);
    assert_eq!(packet[1], 1);
    assert_eq!(decode_header(&packet).unwrap().len, 256);
    let too_long = vec![0u8; 253];
    assert_eq!(seqs.encode(3, &too_long), Err(ImuError::Protocol(ProtocolFault::PacketTooLong)));
    // a refused packet consumes no sequence number
    assert_eq!(seqs.next_sequence(3), 1);
}

#[test]
fn empty_body_gives_header_only_packet() {
    let mut seqs = ChannelSequences::new();
    let packet = seqs.encode(0, &[]).unwrap();
    assert_eq!(packet, vec![4, 0, 0, 0]);
}

#[test]
fn decode_rejects_short_buffer() {
    assert_eq!(decode_header(&[1, 2, 3]), Err(ImuError::Protocol(ProtocolFault::ShortPacket)));
    assert_eq!(decode_header(&[]), Err(ImuError::Protocol(ProtocolFault::ShortPacket)));
}

#[test]
fn parse_masks_continuation_bit() {
    let h = ShtpHeader::parse([0x14, 0x81, 3, 9]);
    assert_eq!(h.len, 0x0114);
    assert!(h.continuation);
    assert_eq!(h.channel, 3);
    assert_eq!(h.sequence, 9);
    let plain = ShtpHeader::parse([0xFF, 0x7F, 0, 0]);
    assert_eq!(plain.len, 0x7FFF);
    assert!(!plain.continuation);
}

#[test]
fn sequence_numbers_increase_per_channel_and_wrap() {
    let mut seqs = ChannelSequences::new();
    for expected in 0..=255u8 {
        let p = seqs.encode(1, &[1]).unwrap();
        assert_eq!(p[3], expected);
    }
    let p = seqs.encode(1, &[1]).unwrap();
    assert_eq!(p[3], 0);
}

#[test]
fn sequence_numbers_are_independent_across_channels() {
    let mut seqs = ChannelSequences::new();
    seqs.encode(2, &[0]).unwrap();
    seqs.encode(2, &[0]).unwrap();
    let on_exec = seqs.encode(1, &[0]).unwrap();
    assert_eq!(on_exec[3], 0);
    let on_hub = seqs.encode(2, &[0]).unwrap();
    assert_eq!(on_hub[3], 2);
    assert_eq!(seqs.next_sequence(0), 0);
    assert_eq!(seqs.next_sequence(5), 0);
}
