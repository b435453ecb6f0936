use mumblebot::varint::{varint_decode, varint_encode};

fn round_trips(val: u64) {
    let bytes = varint_encode(val);
    let decoded = varint_decode(&bytes);
    assert_eq!(decoded, Some((val, bytes.len())));
}

#[test]
fn encodes_zero() {
    assert_eq!(varint_encode(0), vec![0x00]);
    round_trips(0);
}

#[test]
fn encodes_one_byte_boundary() {
    assert_eq!(varint_encode(0x7F), vec![0x7F]);
    round_trips(0x7F);
}

#[test]
fn encodes_two_byte_boundaries() {
    assert_eq!(varint_encode(0x80), vec![0x80, 0x80]);
    assert_eq!(varint_encode(0x3FFF), vec![0xBF, 0xFF]);
    round_trips(0x80);
    round_trips(0x3FFF);
}

#[test]
fn encodes_three_byte_boundaries() {
    assert_eq!(varint_encode(0x4000), vec![0xC0, 0x40, 0x00]);
    assert_eq!(varint_encode(0x1FFFFF), vec![0xDF, 0xFF, 0xFF]);
    round_trips(0x4000);
    round_trips(0x1FFFFF);
}

#[test]
fn encodes_four_byte_boundaries() {
    assert_eq!(varint_encode(0x200000), vec![0xE0, 0x20, 0x00, 0x00]);
    assert_eq!(varint_encode(0xFFFFFFF), vec![0xEF, 0xFF, 0xFF, 0xFF]);
    round_trips(0x200000);
    round_trips(0xFFFFFFF);
}

#[test]
fn encodes_five_byte_boundaries() {
    assert_eq!(varint_encode(0x10000000), vec![0xF0, 0x10, 0x00, 0x00, 0x00]);
    assert_eq!(varint_encode(0xFFFFFFFF), vec![0xF0, 0xFF, 0xFF, 0xFF, 0xFF]);
    round_trips(0x10000000);
    round_trips(0xFFFFFFFF);
}

#[test]
fn encodes_nine_byte_boundary() {
    assert_eq!(
        varint_encode(0x100000000),
        vec![0xF4, 0x00, 0x00, 0x00, 0x01, 0x00, 0x00, 0x00, 0x00]
    );
    round_trips(0x100000000);
    round_trips(u64::MAX / 2 + 1);
}

#[test]
fn encodes_small_negative_magnitudes() {
    assert_eq!(varint_encode((-1i64) as u64), vec![0xFC]);
    assert_eq!(varint_encode((-2i64) as u64), vec![0xFD]);
    assert_eq!(varint_encode((-3i64) as u64), vec![0xFE]);
    assert_eq!(varint_encode((-4i64) as u64), vec![0xFF]);
    round_trips((-1i64) as u64);
    round_trips((-2i64) as u64);
    round_trips((-3i64) as u64);
    round_trips((-4i64) as u64);
}

#[test]
fn encodes_larger_negative_magnitudes() {
    // -5 complements to 4, which takes the one-byte positive form.
    assert_eq!(varint_encode((-5i64) as u64), vec![0xF8, 0x04]);
    // -300 complements to 299 = 0x12B, a two-byte positive form.
    assert_eq!(varint_encode((-300i64) as u64), vec![0xF8, 0x81, 0x2B]);
    round_trips((-5i64) as u64);
    round_trips((-300i64) as u64);
    round_trips((-0xFFFFFFFFi64) as u64);
}

#[test]
fn negative_form_stops_at_32_bits() {
    // The complement of this value no longer fits in 32 bits, so it is
    // written in the nine-byte positive form, not the negative form.
    let v = (-0x100000001i64) as u64;
    let bytes = varint_encode(v);
    assert_eq!(bytes[0], 0xF4);
    assert_eq!(bytes.len(), 9);
    round_trips(v);
}

#[test]
fn decode_rejects_malformed_heads() {
    assert_eq!(varint_decode(&vec![]), None);
    // A byte no encoder emits as a head.
    assert_eq!(varint_decode(&vec![0xF1]), None);
    // Truncated multi-byte forms.
    assert_eq!(varint_decode(&vec![0x80]), None);
    assert_eq!(varint_decode(&vec![0xF0, 0x01, 0x02]), None);
    assert_eq!(varint_decode(&vec![0xF8]), None);
}
