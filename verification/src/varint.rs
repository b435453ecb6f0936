//! The wire protocol's variable-length integer encoding.
//!
//! A 64-bit value is written in one to nine bytes. Values whose top bit is
//! set and whose bitwise complement fits in 32 bits are treated as small
//! negative numbers: magnitudes one to four fit in a single byte whose top
//! six bits are all ones, larger magnitudes follow a `0xF8` flag byte as the
//! positive encoding of the complement. All other values are written in a
//! prefix-coded positive form whose first byte announces the width.

use vstd::prelude::*;

verus! {

/// The positive encoding: the first byte's leading bits select one of six
/// widths, and the remaining payload bits follow in big-endian order.
pub open spec fn pos_varint_bytes(i: u64) -> Seq<u8> {
    if i < 0x80 {
        seq![i as u8]
    } else if i < 0x4000 {
        seq![((i >> 8) | 0x80) as u8, (i & 0xFF) as u8]
    } else if i < 0x200000 {
        seq![((i >> 16) | 0xC0) as u8, ((i >> 8) & 0xFF) as u8, (i & 0xFF) as u8]
    } else if i < 0x10000000 {
        seq![
            ((i >> 24) | 0xE0) as u8,
            ((i >> 16) & 0xFF) as u8,
            ((i >> 8) & 0xFF) as u8,
            (i & 0xFF) as u8,
        ]
    } else if i < 0x100000000 {
        seq![
            0xF0u8,
            ((i >> 24) & 0xFF) as u8,
            ((i >> 16) & 0xFF) as u8,
            ((i >> 8) & 0xFF) as u8,
            (i & 0xFF) as u8,
        ]
    } else {
        seq![
            0xF4u8,
            ((i >> 56) & 0xFF) as u8,
            ((i >> 48) & 0xFF) as u8,
            ((i >> 40) & 0xFF) as u8,
            ((i >> 32) & 0xFF) as u8,
            ((i >> 24) & 0xFF) as u8,
            ((i >> 16) & 0xFF) as u8,
            ((i >> 8) & 0xFF) as u8,
            (i & 0xFF) as u8,
        ]
    }
}

/// A value is written in the negative form when its top bit is set and its
/// bitwise complement (the magnitude minus one of the two's-complement
/// reading) fits in 32 bits.
pub open spec fn is_negative_form(val: u64) -> bool {
    &&& val & 0x8000000000000000 > 0
    &&& !val < 0x100000000
}

/// The exact byte sequence the encoder produces for `val`.
pub open spec fn varint_bytes(val: u64) -> Seq<u8> {
    if is_negative_form(val) {
        let m = !val;
        if m <= 3 {
            seq![(0xFC | m) as u8]
        } else {
            seq![0xF8u8] + pos_varint_bytes(m)
        }
    } else {
        pos_varint_bytes(val)
    }
}

/// Encode a 64-bit value as a wire varint.
pub fn varint_encode(val: u64) -> (v: Vec<u8>)
    ensures
        v@ == varint_bytes(val),
        1 <= v@.len() <= 9,
{
    let mut v: Vec<u8> = Vec::new();
    let mut i: u64 = val;

    if ((i & 0x8000000000000000) > 0) && (!i < 0x100000000) {
        i = !i;
        if i <= 0x3 {
            v.push(0xFC | (i as u8));
            assert(v@ =~= varint_bytes(val));
            return v;
        } else {
            v.push(0xF8);
        }
    }

    if i < 0x80 {
        v.push(i as u8);
    } else if i < 0x4000 {
        v.push(((i >> 8) | 0x80) as u8);
        v.push((i & 0xFF) as u8);
    } else if i < 0x200000 {
        v.push(((i >> 16) | 0xC0) as u8);
        v.push(((i >> 8) & 0xFF) as u8);
        v.push((i & 0xFF) as u8);
    } else if i < 0x10000000 {
        v.push(((i >> 24) | 0xE0) as u8);
        v.push(((i >> 16) & 0xFF) as u8);
        v.push(((i >> 8) & 0xFF) as u8);
        v.push((i & 0xFF) as u8);
    } else if i < 0x100000000 {
        v.push(0xF0);
        v.push(((i >> 24) & 0xFF) as u8);
        v.push(((i >> 16) & 0xFF) as u8);
        v.push(((i >> 8) & 0xFF) as u8);
        v.push((i & 0xFF) as u8);
    } else {
        v.push(0xF4);
        v.push(((i >> 56) & 0xFF) as u8);
        v.push(((i >> 48) & 0xFF) as u8);
        v.push(((i >> 40) & 0xFF) as u8);
        v.push(((i >> 32) & 0xFF) as u8);
        v.push(((i >> 24) & 0xFF) as u8);
        v.push(((i >> 16) & 0xFF) as u8);
        v.push(((i >> 8) & 0xFF) as u8);
        v.push((i & 0xFF) as u8);
    }

    assert(v@ =~= varint_bytes(val));
    v
}

/// What a byte sequence beginning with a positive-form varint denotes:
/// the value and the number of bytes it occupies, or `None` when the
/// sequence is too short or starts with a byte no encoder emits.
pub open spec fn pos_varint_decoded(b: Seq<u8>) -> Option<(u64, int)> {
    if b.len() == 0 {
        None
    } else {
        let b0 = b[0];
        if b0 < 0x80 {
            Some((b0 as u64, 1int))
        } else if b0 < 0xC0 {
            if b.len() >= 2 {
                Some(((((b0 & 0x3F) as u64) << 8) | (b[1] as u64), 2int))
            } else {
                None
            }
        } else if b0 < 0xE0 {
            if b.len() >= 3 {
                Some((
                    (((b0 & 0x1F) as u64) << 16) | ((b[1] as u64) << 8) | (b[2] as u64),
                    3int,
                ))
            } else {
                None
            }
        } else if b0 < 0xF0 {
            if b.len() >= 4 {
                Some((
                    (((b0 & 0x0F) as u64) << 24) | ((b[1] as u64) << 16) | ((b[2] as u64) << 8)
                        | (b[3] as u64),
                    4int,
                ))
            } else {
                None
            }
        } else if b0 == 0xF0 {
            if b.len() >= 5 {
                Some((
                    ((b[1] as u64) << 24) | ((b[2] as u64) << 16) | ((b[3] as u64) << 8) | (
                    b[4] as u64),
                    5int,
                ))
            } else {
                None
            }
        } else if b0 == 0xF4 {
            if b.len() >= 9 {
                Some((
                    ((b[1] as u64) << 56) | ((b[2] as u64) << 48) | ((b[3] as u64) << 40) | ((
                    b[4] as u64) << 32) | ((b[5] as u64) << 24) | ((b[6] as u64) << 16) | ((
                    b[7] as u64) << 8) | (b[8] as u64),
                    9int,
                ))
            } else {
                None
            }
        } else {
            None
        }
    }
}

/// What a byte sequence beginning with any varint denotes.
pub open spec fn varint_decoded(b: Seq<u8>) -> Option<(u64, int)> {
    if b.len() == 0 {
        None
    } else if b[0] >= 0xFC {
        Some((!((b[0] & 0x3) as u64), 1int))
    } else if b[0] == 0xF8 {
        match pos_varint_decoded(b.skip(1)) {
            Some((m, n)) => Some((!m, n + 1)),
            None => None,
        }
    } else {
        pos_varint_decoded(b)
    }
}

/// Decode the varint at the head of `bytes`: the value and how many bytes
/// it took, or `None` on a short or malformed head.
pub fn varint_decode(bytes: &Vec<u8>) -> (r: Option<(u64, usize)>)
    ensures
        match r {
            Some((val, used)) => varint_decoded(bytes@) == Some((val, used as int)),
            None => varint_decoded(bytes@) is None,
        },
{
    if bytes.len() == 0 {
        return None;
    }
    let b0: u8 = bytes[0];
    if b0 >= 0xFC {
        return Some((!((b0 & 0x3) as u64), 1));
    }
    if b0 == 0xF8 {
        let rest = pos_varint_decode(bytes, 1);
        return match rest {
            Some((m, n)) => Some((!m, n + 1)),
            None => None,
        };
    }
    pos_varint_decode(bytes, 0)
}

/// Decode the positive-form varint starting at `start`.
fn pos_varint_decode(bytes: &Vec<u8>, start: usize) -> (r: Option<(u64, usize)>)
    requires
        start <= bytes@.len(),
        start <= 1,
    ensures
        match r {
            Some((val, used)) => pos_varint_decoded(bytes@.skip(start as int)) == Some(
                (val, used as int),
            ),
            None => pos_varint_decoded(bytes@.skip(start as int)) is None,
        },
{
    let n = bytes.len();
    if start >= n {
        return None;
    }
    let b0: u8 = bytes[start];
    if b0 < 0x80 {
        Some((b0 as u64, 1))
    } else if b0 < 0xC0 {
        if n - start >= 2 {
            Some(((((b0 & 0x3F) as u64) << 8u64) | (bytes[start + 1] as u64), 2))
        } else {
            None
        }
    } else if b0 < 0xE0 {
        if n - start >= 3 {
            Some((
                (((b0 & 0x1F) as u64) << 16u64) | ((bytes[start + 1] as u64) << 8u64) | (
                bytes[start + 2] as u64),
                3,
            ))
        } else {
            None
        }
    } else if b0 < 0xF0 {
        if n - start >= 4 {
            Some((
                (((b0 & 0x0F) as u64) << 24u64) | ((bytes[start + 1] as u64) << 16u64) | ((
                bytes[start + 2] as u64) << 8u64) | (bytes[start + 3] as u64),
                4,
            ))
        } else {
            None
        }
    } else if b0 == 0xF0 {
        if n - start >= 5 {
            Some((
                ((bytes[start + 1] as u64) << 24u64) | ((bytes[start + 2] as u64) << 16u64) | ((
                bytes[start + 3] as u64) << 8u64) | (bytes[start + 4] as u64),
                5,
            ))
        } else {
            None
        }
    } else if b0 == 0xF4 {
        if n - start >= 9 {
            Some((
                ((bytes[start + 1] as u64) << 56u64) | ((bytes[start + 2] as u64) << 48u64) | ((
                bytes[start + 3] as u64) << 40u64) | ((bytes[start + 4] as u64) << 32u64) | ((
                bytes[start + 5] as u64) << 24u64) | ((bytes[start + 6] as u64) << 16u64) | ((
                bytes[start + 7] as u64) << 8u64) | (bytes[start + 8] as u64),
                9,
            ))
        } else {
            None
        }
    } else {
        None
    }
}

/// Decoding the positive encoding of `i` gives back `i` and its width.
proof fn lemma_pos_round_trip(i: u64)
    ensures
        pos_varint_decoded(pos_varint_bytes(i)) == Some((i, pos_varint_bytes(i).len() as int)),
{
    let b = pos_varint_bytes(i);
    if i < 0x80 {
        assert((i as u8) < 0x80 && (i as u8) as u64 == i) by (bit_vector)
            requires i < 0x80;
    } else if i < 0x4000 {
        let b0 = ((i >> 8) | 0x80) as u8;
        let b1 = (i & 0xFF) as u8;
        assert(0x80 <= b0 < 0xC0 && ((((b0 & 0x3F) as u64) << 8) | (b1 as u64)) == i)
            by (bit_vector)
            requires
                0x80 <= i < 0x4000,
                b0 == ((i >> 8) | 0x80) as u8,
                b1 == (i & 0xFF) as u8;
    } else if i < 0x200000 {
        let b0 = ((i >> 16) | 0xC0) as u8;
        let b1 = ((i >> 8) & 0xFF) as u8;
        let b2 = (i & 0xFF) as u8;
        assert(0xC0 <= b0 < 0xE0 && ((((b0 & 0x1F) as u64) << 16) | ((b1 as u64) << 8) | (
        b2 as u64)) == i)
            by (bit_vector)
            requires
                0x4000 <= i < 0x200000,
                b0 == ((i >> 16) | 0xC0) as u8,
                b1 == ((i >> 8) & 0xFF) as u8,
                b2 == (i & 0xFF) as u8;
    } else if i < 0x10000000 {
        let b0 = ((i >> 24) | 0xE0) as u8;
        let b1 = ((i >> 16) & 0xFF) as u8;
        let b2 = ((i >> 8) & 0xFF) as u8;
        let b3 = (i & 0xFF) as u8;
        assert(0xE0 <= b0 < 0xF0 && ((((b0 & 0x0F) as u64) << 24) | ((b1 as u64) << 16) | ((
        b2 as u64) << 8) | (b3 as u64)) == i)
            by (bit_vector)
            requires
                0x200000 <= i < 0x10000000,
                b0 == ((i >> 24) | 0xE0) as u8,
                b1 == ((i >> 16) & 0xFF) as u8,
                b2 == ((i >> 8) & 0xFF) as u8,
                b3 == (i & 0xFF) as u8;
    } else if i < 0x100000000 {
        let b1 = ((i >> 24) & 0xFF) as u8;
        let b2 = ((i >> 16) & 0xFF) as u8;
        let b3 = ((i >> 8) & 0xFF) as u8;
        let b4 = (i & 0xFF) as u8;
        assert((((b1 as u64) << 24) | ((b2 as u64) << 16) | ((b3 as u64) << 8) | (b4 as u64))
            == i)
            by (bit_vector)
            requires
                0x10000000 <= i < 0x100000000,
                b1 == ((i >> 24) & 0xFF) as u8,
                b2 == ((i >> 16) & 0xFF) as u8,
                b3 == ((i >> 8) & 0xFF) as u8,
                b4 == (i & 0xFF) as u8;
    } else {
        let b1 = ((i >> 56) & 0xFF) as u8;
        let b2 = ((i >> 48) & 0xFF) as u8;
        let b3 = ((i >> 40) & 0xFF) as u8;
        let b4 = ((i >> 32) & 0xFF) as u8;
        let b5 = ((i >> 24) & 0xFF) as u8;
        let b6 = ((i >> 16) & 0xFF) as u8;
        let b7 = ((i >> 8) & 0xFF) as u8;
        let b8 = (i & 0xFF) as u8;
        assert((((b1 as u64) << 56) | ((b2 as u64) << 48) | ((b3 as u64) << 40) | ((b4 as u64)
            << 32) | ((b5 as u64) << 24) | ((b6 as u64) << 16) | ((b7 as u64) << 8) | (
        b8 as u64)) == i)
            by (bit_vector)
            requires
                0x100000000 <= i,
                b1 == ((i >> 56) & 0xFF) as u8,
                b2 == ((i >> 48) & 0xFF) as u8,
                b3 == ((i >> 40) & 0xFF) as u8,
                b4 == ((i >> 32) & 0xFF) as u8,
                b5 == ((i >> 24) & 0xFF) as u8,
                b6 == ((i >> 16) & 0xFF) as u8,
                b7 == ((i >> 8) & 0xFF) as u8,
                b8 == (i & 0xFF) as u8;
    }
}

/// The encoding is exact for every 64-bit value: decoding what the encoder
/// wrote yields the value back and consumes the whole encoding.
pub proof fn lemma_varint_round_trip(val: u64)
    ensures
        varint_decoded(varint_bytes(val)) == Some((val, varint_bytes(val).len() as int)),
{
    if is_negative_form(val) {
        let m = !val;
        assert(m == !val ==> !m == val) by (bit_vector);
        if m <= 3 {
            let b0 = (0xFC | m) as u8;
            assert(b0 >= 0xFC && !((b0 & 0x3) as u64) == val) by (bit_vector)
                requires
                    val & 0x8000000000000000 > 0,
                    m == !val,
                    m <= 3,
                    b0 == (0xFC | m) as u8;
        } else {
            assert(3 < m < 0x100000000) by (bit_vector)
                requires m == !val && !val < 0x100000000 && m > 3;
            lemma_pos_round_trip(m);
            let tail = pos_varint_bytes(m);
            let b = varint_bytes(val);
            assert(b == seq![0xF8u8] + tail);
            assert(b[0] == 0xF8 && b[0] < 0xFC);
            assert(b.skip(1) =~= tail);
        }
    } else {
        lemma_pos_round_trip(val);
        let b = pos_varint_bytes(val);
        // The first byte of a positive encoding is never 0xF8 nor 0xFC or above.
        if val < 0x80 {
            assert((val as u8) < 0x80) by (bit_vector)
                requires val < 0x80;
        } else if val < 0x4000 {
            assert((((val >> 8) | 0x80) as u8) < 0xC0) by (bit_vector)
                requires val < 0x4000;
        } else if val < 0x200000 {
            assert((((val >> 16) | 0xC0) as u8) < 0xE0) by (bit_vector)
                requires val < 0x200000;
        } else if val < 0x10000000 {
            assert((((val >> 24) | 0xE0) as u8) < 0xF0) by (bit_vector)
                requires val < 0x10000000;
        }
    }
}

} // verus!
