//! Tests of the byte-level codecs: varints, protocol-buffer fields, frame
//! encoding and decoding, fragmentation, and reassembly.

use android_auto::bytes::{push_be16, push_be32, push_be64, read_be16, read_be32, read_be64};
use android_auto::frame::{decode_frame, AndroidAutoFrame, FrameHeader, FrameHeaderType};
use android_auto::proto::{parse_fields, parse_varint, push_len_field, push_varint, push_varint_field,
    FieldValue};
use android_auto::receiver::{AndroidAutoFrameReceiver, FrameHeaderReceiver};

fn header(channel: u8, ft: FrameHeaderType, control: bool, encryption: bool) -> FrameHeader {
    FrameHeader { channel_id: channel, frame_type: ft, control, encryption }
}

#[test]
fn be_roundtrips() {
    let mut b: Vec<u8> = Vec::new();
    push_be16(&mut b, 0x1234);
    push_be32(&mut b, 0xDEADBEEF);
    push_be64(&mut b, 0x0123456789ABCDEF);
    assert_eq!(b, vec![0x12, 0x34, 0xDE, 0xAD, 0xBE, 0xEF, 0x01, 0x23, 0x45, 0x67, 0x89, 0xAB, 0xCD, 0xEF]);
    assert_eq!(read_be16(&b, 0), 0x1234);
    assert_eq!(read_be32(&b, 2), 0xDEADBEEF);
    assert_eq!(read_be64(&b, 6), 0x0123456789ABCDEF);
}

#[test]
fn varint_roundtrips() {
    for v in [0u64, 1, 127, 128, 300, 16383, 16384, 0xFFFF_FFFF, u64::MAX] {
        let mut b: Vec<u8> = Vec::new();
        push_varint(&mut b, v);
        let (parsed, end) = parse_varint(&b, 0).expect("varint parses");
        assert_eq!(parsed, v);
        assert_eq!(end, b.len());
    }
}

#[test]
fn varint_encoding_bytes() {
    let mut b: Vec<u8> = Vec::new();
    push_varint(&mut b, 300);
    assert_eq!(b, vec![0xAC, 0x02]);
}

#[test]
fn varint_rejects_unterminated() {
    let b = vec![0x80u8, 0x80, 0x80];
    assert!(parse_varint(&b, 0).is_none());
}

#[test]
fn varint_rejects_non_minimal() {
    // 0x80 0x00 would decode to zero but wastes a continuation byte.
    let b = vec![0x80u8, 0x00];
    assert!(parse_varint(&b, 0).is_none());
}

#[test]
fn fields_roundtrip() {
    let mut b: Vec<u8> = Vec::new();
    push_varint_field(&mut b, 1, 42);
    let payload = vec![1u8, 2, 3];
    push_len_field(&mut b, 2, &payload);
    let fields = parse_fields(&b).expect("fields parse");
    assert_eq!(fields.len(), 2);
    assert_eq!(fields[0].0, 1);
    assert!(matches!(fields[0].1, FieldValue::VInt(42)));
    assert_eq!(fields[1].0, 2);
    match &fields[1].1 {
        FieldValue::VBytes(p) => assert_eq!(*p, vec![1u8, 2, 3]),
        _ => panic!("expected bytes field"),
    }
}

#[test]
fn frame_roundtrip_single() {
    let f = AndroidAutoFrame {
        header: header(3, FrameHeaderType::Single, false, false),
        data: vec![9, 8, 7, 6],
        first_total: None,
    };
    let bytes = f.build_vec();
    assert_eq!(bytes, vec![3, 3, 0, 4, 9, 8, 7, 6]);
    let (g, used) = decode_frame(&bytes, 0).expect("frame decodes");
    assert_eq!(used, bytes.len());
    assert_eq!(g.header, f.header);
    assert_eq!(g.data, f.data);
    assert_eq!(g.first_total, None);
    // Encoding the decoded frame gives back the original wire bytes.
    assert_eq!(g.build_vec(), bytes);
}

#[test]
fn frame_roundtrip_first_keeps_total() {
    let f = AndroidAutoFrame {
        header: header(1, FrameHeaderType::First, false, true),
        data: vec![0xAA; 5],
        first_total: Some(40000),
    };
    let bytes = f.build_vec();
    // channel, flags (encrypted First = 0b1001), length 5, total 40000.
    assert_eq!(&bytes[..8], &[1, 0x09, 0, 5, 0, 0, 0x9C, 0x40]);
    let (g, used) = decode_frame(&bytes, 0).expect("frame decodes");
    assert_eq!(used, bytes.len());
    assert_eq!(g.first_total, Some(40000));
    assert_eq!(g.build_vec(), bytes);
}

#[test]
fn frame_decode_incomplete() {
    let f = AndroidAutoFrame {
        header: header(2, FrameHeaderType::Single, false, false),
        data: vec![1, 2, 3],
        first_total: None,
    };
    let bytes = f.build_vec();
    for cut in 0..bytes.len() {
        let partial = bytes[..cut].to_vec();
        assert!(decode_frame(&partial, 0).is_none());
    }
}

#[test]
fn multi_frame_split_and_concat() {
    let data = vec![0x5Au8; 40000];
    let frames = AndroidAutoFrame::build_multi_frame(
        header(3, FrameHeaderType::Single, false, true),
        data.clone(),
    );
    assert_eq!(frames.len(), 3);
    assert_eq!(frames[0].header.frame_type, FrameHeaderType::First);
    assert_eq!(frames[0].data.len(), 16384);
    assert_eq!(frames[0].first_total, Some(40000));
    assert_eq!(frames[1].header.frame_type, FrameHeaderType::Middle);
    assert_eq!(frames[1].data.len(), 16384);
    assert_eq!(frames[2].header.frame_type, FrameHeaderType::Last);
    assert_eq!(frames[2].data.len(), 7232);
    let mut combined = Vec::new();
    for f in &frames {
        combined.extend_from_slice(&f.data);
    }
    assert_eq!(combined, data);
}

#[test]
fn small_message_stays_single() {
    let data = vec![1u8, 2, 3];
    let frames = AndroidAutoFrame::build_multi_frame(
        header(0, FrameHeaderType::Single, true, false),
        data.clone(),
    );
    assert_eq!(frames.len(), 1);
    assert_eq!(frames[0].header.frame_type, FrameHeaderType::Single);
    assert_eq!(frames[0].data, data);
}

#[test]
fn header_receiver_resumes() {
    let mut hr = FrameHeaderReceiver::new();
    assert!(hr.read(5).is_none());
    let h = hr.read(0x0B).expect("header complete");
    assert_eq!(h.channel_id, 5);
    assert_eq!(h.frame_type, FrameHeaderType::Single);
    assert!(!h.control);
    assert!(h.encryption);
}

#[test]
fn reassembly_concatenates_fragments() {
    // A First, Middle, Last run on channel 3 rebuilds one 40000-byte message.
    let mut rx = AndroidAutoFrameReceiver::new();
    let h_first = header(3, FrameHeaderType::First, false, false);
    let h_mid = header(3, FrameHeaderType::Middle, false, false);
    let h_last = header(3, FrameHeaderType::Last, false, false);

    assert_eq!(rx.needed(&h_first), 6);
    rx.read_length(&h_first, &vec![0x40, 0x00, 0x00, 0x00, 0x9C, 0x40]);
    assert_eq!(rx.needed(&h_first), 16384);
    assert!(rx.read_payload(&h_first, vec![1u8; 16384]).is_none());

    assert_eq!(rx.needed(&h_mid), 2);
    rx.read_length(&h_mid, &vec![0x40, 0x00]);
    assert!(rx.read_payload(&h_mid, vec![2u8; 16384]).is_none());

    rx.read_length(&h_last, &vec![0x1C, 0x40]);
    let msg = rx.read_payload(&h_last, vec![3u8; 7232]).expect("message complete");
    assert_eq!(msg.data.len(), 40000);
    assert_eq!(msg.header.channel_id, 3);
    assert!(msg.data[..16384].iter().all(|b| *b == 1));
    assert!(msg.data[16384..32768].iter().all(|b| *b == 2));
    assert!(msg.data[32768..].iter().all(|b| *b == 3));
}

#[test]
fn reassembly_is_per_channel() {
    let mut rx = AndroidAutoFrameReceiver::new();
    let h3_first = header(3, FrameHeaderType::First, false, false);
    let h4_single = header(4, FrameHeaderType::Single, false, false);
    let h3_last = header(3, FrameHeaderType::Last, false, false);

    rx.read_length(&h3_first, &vec![0x00, 0x02, 0x00, 0x00, 0x00, 0x04]);
    assert!(rx.read_payload(&h3_first, vec![1, 2]).is_none());
    // A whole message on another channel does not disturb channel 3.
    rx.read_length(&h4_single, &vec![0x00, 0x01]);
    let other = rx.read_payload(&h4_single, vec![9]).expect("single completes");
    assert_eq!(other.data, vec![9]);
    rx.read_length(&h3_last, &vec![0x00, 0x02]);
    let msg = rx.read_payload(&h3_last, vec![3, 4]).expect("message completes");
    assert_eq!(msg.data, vec![1, 2, 3, 4]);
}

#[test]
fn flags_byte_packs_fields() {
    let h = header(0, FrameHeaderType::First, true, true);
    // bits 0-1 fragment type, bit 2 control, bit 3 encryption.
    assert_eq!(h.flags(), 0b1101);
    let g = FrameHeader::from_bytes(0, 0b1101);
    assert_eq!(g, h);
}
