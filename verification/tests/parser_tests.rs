use ccsds_router::header::decode_header;
use ccsds_router::parser::{CcsdsParser, CcsdsParserConfig, PullResult};

/// A 6-byte primary header: version 0, type 1, secondary-header flag 1,
/// sequence flags 3 (unsegmented), and the given APID, sequence count and
/// length field.
fn header_bytes(apid: u16, seq: u16, length_field: u16) -> Vec<u8> {
    let w0: u16 = 0x1800 | (apid & 0x7FF);
    let w1: u16 = 0xC000 | (seq & 0x3FFF);
    let w2: u16 = length_field;
    vec![
        (w0 >> 8) as u8,
        (w0 & 0xFF) as u8,
        (w1 >> 8) as u8,
        (w1 & 0xFF) as u8,
        (w2 >> 8) as u8,
        (w2 & 0xFF) as u8,
    ]
}

/// A whole packet: header plus `length_field + 1` data bytes.
fn packet_bytes(apid: u16, seq: u16, payload: &[u8]) -> Vec<u8> {
    assert!(!payload.is_empty());
    let mut v = header_bytes(apid, seq, (payload.len() - 1) as u16);
    v.extend_from_slice(payload);
    v
}

fn swap_words(bytes: &[u8]) -> Vec<u8> {
    let mut v = Vec::new();
    let mut i = 0;
    while i < bytes.len() {
        if i + 1 < bytes.len() {
            v.push(bytes[i + 1]);
            v.push(bytes[i]);
        } else {
            v.push(bytes[i]);
        }
        i += 2;
    }
    v
}

const S1_INPUT: [u8; 12] = [
    0x18, 0x03, 0xC0, 0x00, 0x00, 0x04, 0xDE, 0xAD, 0xBE, 0xEF, 0xCA, 0xFE,
];
const S1_PACKET: [u8; 11] = [0x18, 0x03, 0xC0, 0x00, 0x00, 0x04, 0xDE, 0xAD, 0xBE, 0xEF, 0xCA];

#[test]
fn s1_passthrough() {
    let mut parser = CcsdsParser::with_config(CcsdsParserConfig::default());
    parser.append(&S1_INPUT);
    match parser.pull() {
        PullResult::Packet { bytes, header } => {
            assert_eq!(bytes, S1_PACKET.to_vec());
            assert_eq!(header.apid, 3);
            assert_eq!(header.seq_count, 0);
            assert_eq!(header.length_field, 4);
        }
        other => panic!("expected a packet, got {:?}", other),
    }
    // Only the stray 0xFE remains: not enough for another packet.
    assert!(matches!(parser.pull(), PullResult::NeedMore));
}

#[test]
fn pull_on_empty_is_idempotent() {
    let mut parser = CcsdsParser::with_config(CcsdsParserConfig::default());
    assert!(matches!(parser.pull(), PullResult::NeedMore));
    assert!(matches!(parser.pull(), PullResult::NeedMore));
    // A partial packet changes nothing either.
    parser.append(&S1_INPUT[..7]);
    assert!(matches!(parser.pull(), PullResult::NeedMore));
    assert!(matches!(parser.pull(), PullResult::NeedMore));
    // The rest completes the packet.
    parser.append(&S1_INPUT[7..11]);
    assert!(matches!(parser.pull(), PullResult::Packet { .. }));
}

#[test]
fn chunking_does_not_change_the_parse() {
    let p1 = packet_bytes(1, 10, &[0xAA, 0xBB]);
    let p2 = packet_bytes(2, 11, &[0xCC]);
    let mut stream = p1.clone();
    stream.extend_from_slice(&p2);

    for chunk in [1usize, 2, 5, stream.len()] {
        let mut parser = CcsdsParser::with_config(CcsdsParserConfig::default());
        let mut got: Vec<Vec<u8>> = Vec::new();
        for piece in stream.chunks(chunk) {
            parser.append(piece);
            loop {
                match parser.pull() {
                    PullResult::Packet { bytes, .. } => got.push(bytes),
                    PullResult::NeedMore => break,
                    PullResult::Dropped(h) => panic!("unexpected drop of apid {}", h.apid),
                }
            }
        }
        assert_eq!(got, vec![p1.clone(), p2.clone()], "chunk size {}", chunk);
    }
}

#[test]
fn s2_endian_swap() {
    // The same packet with the header's 16-bit words byte-swapped on disk.
    let mut swapped = swap_words(&S1_PACKET[..6]);
    swapped.extend_from_slice(&S1_PACKET[6..]);
    let config = CcsdsParserConfig { little_endian_header: true, ..CcsdsParserConfig::default() };
    let mut parser = CcsdsParser::with_config(config);
    parser.append(&swapped);
    match parser.pull() {
        PullResult::Packet { bytes, header } => {
            // The decoded fields match the big-endian parse of the original.
            let plain = decode_header(&S1_PACKET, 0, false);
            assert_eq!(header, plain);
            assert_eq!(header.apid, 3);
            // The emitted bytes keep the wire order.
            assert_eq!(bytes, swapped);
        }
        other => panic!("expected a packet, got {:?}", other),
    }
}

#[test]
fn endian_swap_involution_on_header_fields() {
    let original = header_bytes(0x2A5, 123, 7);
    let swapped = swap_words(&original);
    assert_eq!(decode_header(&swapped, 0, true), decode_header(&original, 0, false));
    assert_eq!(decode_header(&swapped, 0, false), decode_header(&original, 0, true));
    assert_eq!(swap_words(&swapped), original);
}

#[test]
fn s3_framed() {
    let prefix = [0xAAu8, 0xBB, 0xCC, 0xDD];
    let postfix = [0xEEu8, 0xFF];
    let mut stream = Vec::new();
    for _ in 0..3 {
        stream.extend_from_slice(&prefix);
        stream.extend_from_slice(&S1_PACKET);
        stream.extend_from_slice(&postfix);
    }
    let config = CcsdsParserConfig {
        header_bytes: 4,
        keep_header: false,
        footer_bytes: 2,
        keep_footer: true,
        ..CcsdsParserConfig::default()
    };
    let mut parser = CcsdsParser::with_config(config);
    parser.append(&stream);
    let mut expected = S1_PACKET.to_vec();
    expected.extend_from_slice(&postfix);
    for _ in 0..3 {
        match parser.pull() {
            PullResult::Packet { bytes, header } => {
                assert_eq!(bytes, expected);
                assert_eq!(header.apid, 3);
            }
            other => panic!("expected a packet, got {:?}", other),
        }
    }
    assert!(matches!(parser.pull(), PullResult::NeedMore));
}

#[test]
fn frame_wrapper_keep_flags() {
    let prefix = [0x01u8, 0x02];
    let postfix = [0x03u8];
    let packet = packet_bytes(5, 0, &[0x99]);
    let mut stream = Vec::new();
    stream.extend_from_slice(&prefix);
    stream.extend_from_slice(&packet);
    stream.extend_from_slice(&postfix);

    let config = CcsdsParserConfig {
        header_bytes: 2,
        keep_header: true,
        footer_bytes: 1,
        keep_footer: false,
        ..CcsdsParserConfig::default()
    };
    let mut parser = CcsdsParser::with_config(config);
    parser.append(&stream);
    match parser.pull() {
        PullResult::Packet { bytes, .. } => {
            let mut expected = prefix.to_vec();
            expected.extend_from_slice(&packet);
            assert_eq!(bytes, expected);
        }
        other => panic!("expected a packet, got {:?}", other),
    }
}

#[test]
fn apid_filter_emits_subsequence_and_reports_drops() {
    let p_a = packet_bytes(3, 0, &[0x11]);
    let p_b = packet_bytes(5, 1, &[0x22, 0x33]);
    let p_c = packet_bytes(3, 2, &[0x44]);
    let mut stream = p_a.clone();
    stream.extend_from_slice(&p_b);
    stream.extend_from_slice(&p_c);

    let config =
        CcsdsParserConfig { allowed_apids: Some(vec![3]), ..CcsdsParserConfig::default() };
    let mut parser = CcsdsParser::with_config(config);
    parser.append(&stream);

    let mut emitted = Vec::new();
    let mut dropped = Vec::new();
    loop {
        match parser.pull() {
            PullResult::Packet { bytes, .. } => emitted.push(bytes),
            PullResult::Dropped(h) => dropped.push(h),
            PullResult::NeedMore => break,
        }
    }
    assert_eq!(emitted, vec![p_a, p_c]);
    assert_eq!(dropped.len(), 1);
    assert_eq!(dropped[0].apid, 5);
    assert_eq!(dropped[0].length_field, 1);
}

#[test]
fn pull_all_drains_in_order() {
    let p_a = packet_bytes(3, 0, &[0x11]);
    let p_b = packet_bytes(5, 1, &[0x22, 0x33]);
    let p_c = packet_bytes(3, 2, &[0x44]);
    let mut stream = p_a.clone();
    stream.extend_from_slice(&p_b);
    stream.extend_from_slice(&p_c);
    stream.extend_from_slice(&p_a[..4]); // an incomplete trailer stays buffered

    let config =
        CcsdsParserConfig { allowed_apids: Some(vec![3]), ..CcsdsParserConfig::default() };
    let mut parser = CcsdsParser::with_config(config);
    parser.append(&stream);
    let results = parser.pull_all();
    assert_eq!(results.len(), 3);
    assert!(matches!(&results[0], PullResult::Packet { bytes, .. } if *bytes == p_a));
    assert!(matches!(&results[1], PullResult::Dropped(h) if h.apid == 5));
    assert!(matches!(&results[2], PullResult::Packet { bytes, .. } if *bytes == p_c));
    // The incomplete trailer is still there: completing it yields the packet.
    assert!(parser.pull_all().is_empty());
    parser.append(&p_a[4..]);
    assert_eq!(parser.pull_all().len(), 1);
}

#[test]
fn fixed_size_mode_ignores_length_field() {
    // Length field claims 4 data bytes, but fixed sizing takes 8 bytes total.
    let mut stream = header_bytes(7, 0, 3);
    stream.extend_from_slice(&[0xA1, 0xA2, 0xA3, 0xA4]);
    let config =
        CcsdsParserConfig { max_packet_length: Some(8), ..CcsdsParserConfig::default() };
    let mut parser = CcsdsParser::with_config(config);
    parser.append(&stream);
    match parser.pull() {
        PullResult::Packet { bytes, header } => {
            assert_eq!(bytes.len(), 8);
            assert_eq!(bytes, stream[..8].to_vec());
            assert_eq!(header.apid, 7);
        }
        other => panic!("expected a packet, got {:?}", other),
    }
    assert!(matches!(parser.pull(), PullResult::NeedMore));
}

#[test]
fn length_field_max_means_65536_data_bytes() {
    let payload = vec![0x5Au8; 65536];
    let stream = packet_bytes(1, 0, &payload);
    assert_eq!(stream.len(), 65542);
    let mut parser = CcsdsParser::with_config(CcsdsParserConfig::default());
    // Everything but the last byte: not yet a whole packet.
    parser.append(&stream[..stream.len() - 1]);
    assert!(matches!(parser.pull(), PullResult::NeedMore));
    parser.append(&stream[stream.len() - 1..]);
    match parser.pull() {
        PullResult::Packet { bytes, header } => {
            assert_eq!(header.length_field, 0xFFFF);
            assert_eq!(bytes.len(), 65542);
        }
        other => panic!("expected a packet, got {:?}", other),
    }
}

#[test]
fn length_field_zero_means_one_data_byte() {
    let stream = packet_bytes(9, 4, &[0x55]);
    assert_eq!(stream.len(), 7);
    let mut parser = CcsdsParser::with_config(CcsdsParserConfig::default());
    parser.append(&stream);
    match parser.pull() {
        PullResult::Packet { bytes, header } => {
            assert_eq!(header.length_field, 0);
            assert_eq!(bytes.len(), 7);
        }
        other => panic!("expected a packet, got {:?}", other),
    }
}
