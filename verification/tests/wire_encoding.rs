//! Wire encoding of process identifiers: agreement with the protobuf
//! encoders, round trips, and each decoding error.

use protoactor::pid::Pid;
use protoactor::wire::{decode, WireError};

fn pid(address: &str, id: &str, request_id: u32) -> Pid {
    Pid {
        address: address.to_string(),
        id: id.to_string(),
        request_id,
    }
}

fn encoded(p: &Pid) -> Vec<u8> {
    let mut buf: Vec<u8> = Vec::new();
    p.encode_raw(&mut buf);
    buf
}

#[test]
fn encoding_matches_the_protobuf_reference() {
    let p = pid("nohost", "worker/$17", 7);
    let mine = encoded(&p);

    let mut reference: Vec<u8> = Vec::new();
    prost::encoding::string::encode(1, &"nohost".to_string(), &mut reference);
    prost::encoding::string::encode(2, &"worker/$17".to_string(), &mut reference);
    prost::encoding::uint32::encode(3, &7, &mut reference);
    assert_eq!(mine, reference);

    let expected_len = prost::encoding::string::encoded_len(1, &"nohost".to_string())
        + prost::encoding::string::encoded_len(2, &"worker/$17".to_string())
        + prost::encoding::uint32::encoded_len(3, &7);
    assert_eq!(p.encoded_len(), expected_len);
    assert_eq!(p.encoded_len(), mine.len());
}

#[test]
fn default_fields_are_omitted() {
    let p = Pid::default();
    assert_eq!(encoded(&p), Vec::<u8>::new());
    assert_eq!(p.encoded_len(), 0);

    let p = pid("", "x", 0);
    let bytes = encoded(&p);
    // only the id field: key 0x12, length 1, byte 'x'
    assert_eq!(bytes, vec![0x12, 0x01, b'x']);
}

#[test]
fn round_trips_through_bytes() {
    let cases = vec![
        pid("", "", 0),
        pid("nohost", "$0", 0),
        pid("host-a", "pong/$3", 42),
        pid("", "only-id", u32::MAX),
        pid("naïve héros", "ü", 1),
    ];
    for p in cases {
        let bytes = encoded(&p);
        let back = decode(&bytes).expect("decoding an encoded identifier");
        assert_eq!(back.address, p.address);
        assert_eq!(back.id, p.id);
        assert_eq!(back.request_id, p.request_id);
    }
}

#[test]
fn merge_lets_the_last_occurrence_win_and_skips_unknown_fields() {
    let mut bytes = Vec::new();
    prost::encoding::string::encode(2, &"first".to_string(), &mut bytes);
    // an unknown varint field (tag 5) must be skipped
    prost::encoding::uint64::encode(5, &300, &mut bytes);
    prost::encoding::string::encode(2, &"second".to_string(), &mut bytes);
    let p = decode(&bytes).expect("decoding");
    assert_eq!(p.id, "second");
    assert_eq!(p.address, "");

    let mut p2 = pid("kept", "overwritten", 9);
    p2.merge(&bytes).expect("merging");
    assert_eq!(p2.address, "kept");
    assert_eq!(p2.id, "second");
    assert_eq!(p2.request_id, 9);
}

#[test]
fn request_id_keeps_its_low_32_bits() {
    let mut bytes = Vec::new();
    prost::encoding::uint64::encode(3, &0x1_0000_0002u64, &mut bytes);
    let p = decode(&bytes).expect("decoding");
    assert_eq!(p.request_id, 2);
}

#[test]
fn reports_an_unterminated_varint() {
    assert_eq!(decode(&[0x80]), Err(WireError::InvalidVarint));
    assert_eq!(decode(&[0xff; 11]), Err(WireError::InvalidVarint));
}

#[test]
fn reports_a_tag_of_zero() {
    assert_eq!(decode(&[0x00]), Err(WireError::InvalidTag));
}

#[test]
fn reports_a_wire_type_its_tag_does_not_take() {
    // tag 1 with varint wire type instead of length-delimited
    assert_eq!(decode(&[0x08, 0x01]), Err(WireError::WrongWireType));
    // an unknown tag with the reserved group wire type
    assert_eq!(decode(&[0x23]), Err(WireError::WrongWireType));
}

#[test]
fn reports_a_length_past_the_end() {
    assert_eq!(decode(&[0x0a, 0x05, b'a']), Err(WireError::Truncated));
}

#[test]
fn reports_bytes_that_are_not_utf8() {
    assert_eq!(decode(&[0x0a, 0x01, 0xff]), Err(WireError::InvalidUtf8));
}
