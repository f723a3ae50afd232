use bento::protocol::{decode_bool, encode_bool};

#[test]
fn bool_round_trip_true() {
    assert_eq!(decode_bool(encode_bool(true)), true);
}

#[test]
fn bool_round_trip_false() {
    assert_eq!(decode_bool(encode_bool(false)), false);
}

#[test]
fn wire_bytes_are_exact() {
    assert_eq!(encode_bool(true), 1);
    assert_eq!(encode_bool(false), 0);
}

#[test]
fn any_nonzero_byte_reads_true() {
    assert_eq!(decode_bool(0), false);
    assert_eq!(decode_bool(1), true);
    assert_eq!(decode_bool(255), true);
}
