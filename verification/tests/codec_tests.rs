use mcping::codec::{
    read_raknet_string, read_string, read_u16_be, read_u64_be, read_varint,
    varint_prefix_complete, write_i64_be, write_payload, write_string, write_u16_be,
    write_u64_be, write_varint, CodecError,
};

fn varint_bytes(v: i32) -> Vec<u8> {
    let mut out = Vec::new();
    write_varint(&mut out, v).unwrap();
    out
}

#[test]
fn varint_small_values_encode_to_one_byte() {
    assert_eq!(varint_bytes(0), vec![0x00]);
    assert_eq!(varint_bytes(1), vec![0x01]);
    assert_eq!(varint_bytes(127), vec![0x7f]);
}

#[test]
fn varint_multi_byte_encodings_are_exact() {
    assert_eq!(varint_bytes(128), vec![0x80, 0x01]);
    assert_eq!(varint_bytes(300), vec![0xac, 0x02]);
    assert_eq!(varint_bytes(2097151), vec![0xff, 0xff, 0x7f]);
    assert_eq!(varint_bytes(i32::MAX), vec![0xff, 0xff, 0xff, 0xff, 0x07]);
}

#[test]
fn varint_encodings_never_exceed_five_bytes() {
    for v in [0, 1, 127, 128, 300, 16384, 2097151, 268435455, i32::MAX] {
        assert!(varint_bytes(v).len() <= 5);
    }
}

#[test]
fn varint_round_trips_across_the_range() {
    for v in [0, 1, 127, 128, 255, 300, 16383, 16384, 2097151, 2097152, i32::MAX] {
        let buf = varint_bytes(v);
        let (back, used) = read_varint(&buf, 0).unwrap();
        assert_eq!(back, v);
        assert_eq!(used, buf.len());
    }
}

#[test]
fn varint_write_rejects_negative_values() {
    let mut out = Vec::new();
    assert_eq!(write_varint(&mut out, -1), Err(CodecError::VarIntTooLarge));
    assert!(out.is_empty());
}

#[test]
fn varint_sixth_byte_is_too_large() {
    let buf = vec![0x80, 0x80, 0x80, 0x80, 0x80, 0x01];
    assert_eq!(read_varint(&buf, 0), Err(CodecError::VarIntTooLarge));
}

#[test]
fn varint_truncated_input_is_unexpected_end() {
    let buf = vec![0x80, 0x80];
    assert_eq!(read_varint(&buf, 0), Err(CodecError::UnexpectedEnd));
}

#[test]
fn varint_fifth_byte_sign_extends() {
    // 0xFF in the fifth byte puts bits into 28..31, making the value negative.
    let buf = vec![0xff, 0xff, 0xff, 0xff, 0x0f];
    let (v, used) = read_varint(&buf, 0).unwrap();
    assert_eq!(v, -1);
    assert_eq!(used, 5);
}

#[test]
fn string_wire_form_is_length_then_utf8() {
    let mut out = Vec::new();
    write_string(&mut out, "hello");
    assert_eq!(out, vec![5, b'h', b'e', b'l', b'l', b'o']);
}

#[test]
fn string_round_trips() {
    for s in ["", "hello", "héllo wörld", "a;b:c", "ünïcødé ✓"] {
        let mut out = Vec::new();
        write_string(&mut out, s);
        let (back, used) = read_string(&out, 0).unwrap();
        assert_eq!(back, s);
        assert_eq!(used, out.len());
    }
}

#[test]
fn string_wire_length_is_varint_len_plus_byte_len() {
    let s = "héllo";
    let mut out = Vec::new();
    write_string(&mut out, s);
    assert_eq!(out.len(), 1 + s.len());
}

#[test]
fn string_invalid_utf8_is_rejected() {
    let buf = vec![2, 0xff, 0xfe];
    assert_eq!(read_string(&buf, 0), Err(CodecError::InvalidUtf8));
}

#[test]
fn string_truncated_body_is_unexpected_end() {
    let buf = vec![5, b'h', b'i'];
    assert_eq!(read_string(&buf, 0), Err(CodecError::UnexpectedEnd));
}

#[test]
fn string_negative_length_is_unexpected_end() {
    // A VarInt reading as a negative i32 can never be satisfied.
    let buf = vec![0xff, 0xff, 0xff, 0xff, 0x0f, b'x'];
    assert_eq!(read_string(&buf, 0), Err(CodecError::UnexpectedEnd));
}

#[test]
fn u16_big_endian_is_exact() {
    let mut out = Vec::new();
    write_u16_be(&mut out, 1234);
    assert_eq!(out, vec![0x04, 0xd2]);
    let (v, used) = read_u16_be(&out, 0).unwrap();
    assert_eq!(v, 1234);
    assert_eq!(used, 2);
}

#[test]
fn u64_big_endian_is_exact() {
    let mut out = Vec::new();
    write_u64_be(&mut out, 0x0102030405060708);
    assert_eq!(out, vec![1, 2, 3, 4, 5, 6, 7, 8]);
    let (v, used) = read_u64_be(&out, 0).unwrap();
    assert_eq!(v, 0x0102030405060708);
    assert_eq!(used, 8);
}

#[test]
fn i64_zero_writes_eight_zero_bytes() {
    let mut out = Vec::new();
    write_i64_be(&mut out, 0);
    assert_eq!(out, vec![0; 8]);
}

#[test]
fn i64_negative_writes_twos_complement() {
    let mut out = Vec::new();
    write_i64_be(&mut out, -1);
    assert_eq!(out, vec![0xff; 8]);
}

#[test]
fn payload_frame_prefixes_the_length() {
    let body = vec![0x00, 0x2f];
    let mut out = Vec::new();
    write_payload(&mut out, &body);
    assert_eq!(out, vec![2, 0x00, 0x2f]);
}

#[test]
fn raknet_string_reads_u16_prefixed_utf8() {
    let mut buf = vec![0x00, 0x04];
    buf.extend_from_slice(b"MCPE");
    let (s, used) = read_raknet_string(&buf, 0).unwrap();
    assert_eq!(s, "MCPE");
    assert_eq!(used, 6);
}

#[test]
fn raknet_string_truncated_is_unexpected_end() {
    let buf = vec![0x00, 0x10, b'a'];
    assert_eq!(read_raknet_string(&buf, 0), Err(CodecError::UnexpectedEnd));
}

#[test]
fn varint_prefix_completion_follows_the_continuation_bit() {
    assert!(!varint_prefix_complete(&vec![]));
    assert!(varint_prefix_complete(&vec![0x05]));
    assert!(!varint_prefix_complete(&vec![0x85]));
    assert!(!varint_prefix_complete(&vec![0x85, 0x80]));
    assert!(varint_prefix_complete(&vec![0x85, 0x01]));
    assert!(varint_prefix_complete(&vec![0x80, 0x80, 0x80, 0x80, 0x80]));
}
