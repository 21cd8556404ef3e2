//! Text crossing the boundary: nul-terminated byte payloads decoded as UTF-8
//! with lossy substitution, and the symmetric re-encoding.
//!
//! The decoder is verified against vstd's UTF-8 theory: on a valid UTF-8
//! payload it yields exactly [`vstd::utf8::decode_utf8`] of the bytes, and on
//! an invalid payload each offending byte becomes the replacement character.

use vstd::prelude::*;
use vstd::utf8::*;

verus! {

/// The payload of a nul-terminated buffer: the bytes before the first zero
/// byte, or all of them when no zero byte occurs.
pub open spec fn nul_prefix(bytes: Seq<u8>) -> Seq<u8>
    decreases bytes.len(),
{
    if bytes.len() == 0 || bytes[0] == 0 {
        seq![]
    } else {
        seq![bytes[0]] + nul_prefix(bytes.drop_first())
    }
}

/// Lossy UTF-8 decoding: scalars are decoded in order, and each byte that
/// does not begin a well-formed scalar encoding is replaced by U+FFFD.
pub open spec fn lossy_decode(bytes: Seq<u8>) -> Seq<char>
    decreases bytes.len(),
{
    if bytes.len() == 0 {
        seq![]
    } else if valid_first_scalar(bytes) {
        seq![decode_first_scalar(bytes) as char] + lossy_decode(pop_first_scalar(bytes))
    } else {
        seq!['\u{fffd}'] + lossy_decode(bytes.drop_first())
    }
}

/// On a valid UTF-8 byte sequence, lossy decoding performs no substitution:
/// it agrees with plain UTF-8 decoding.
pub proof fn lemma_lossy_decode_of_valid(bytes: Seq<u8>)
    requires
        valid_utf8(bytes),
    ensures
        lossy_decode(bytes) == decode_utf8(bytes),
    decreases bytes.len(),
{
    if bytes.len() != 0 {
        lemma_lossy_decode_of_valid(pop_first_scalar(bytes));
    }
}

/// Decoding a valid UTF-8 byte sequence and re-encoding the resulting
/// characters gives back exactly the original bytes.
pub proof fn lemma_decode_then_encode_identity(bytes: Seq<u8>)
    requires
        valid_utf8(bytes),
    ensures
        encode_utf8(lossy_decode(bytes)) == bytes,
{
    lemma_lossy_decode_of_valid(bytes);
    broadcast use decode_utf8_encode_utf8;

}

/// Encoding any character sequence and decoding the bytes again gives back
/// exactly the original characters.
pub proof fn lemma_encode_then_decode_identity(chars: Seq<char>)
    ensures
        lossy_decode(encode_utf8(chars)) == chars,
{
    broadcast use encode_utf8_valid_utf8, encode_utf8_decode_utf8;

    lemma_lossy_decode_of_valid(encode_utf8(chars));
}

/// The round trip of the whole text pipeline: a nul-free, valid-UTF-8 buffer
/// that is decoded as a payload and re-encoded comes back unchanged — lossy
/// substitution triggers only on invalid input.
pub proof fn lemma_text_round_trip(bytes: Seq<u8>)
    requires
        valid_utf8(bytes),
        forall|i: int| 0 <= i < bytes.len() ==> bytes[i] != 0,
    ensures
        encode_utf8(lossy_decode(nul_prefix(bytes))) == bytes,
{
    lemma_nul_prefix_of_nul_free(bytes);
    lemma_decode_then_encode_identity(bytes);
}

/// A byte sequence without zero bytes is its own nul payload.
pub proof fn lemma_nul_prefix_of_nul_free(bytes: Seq<u8>)
    requires
        forall|i: int| 0 <= i < bytes.len() ==> bytes[i] != 0,
    ensures
        nul_prefix(bytes) == bytes,
    decreases bytes.len(),
{
    if bytes.len() != 0 {
        lemma_nul_prefix_of_nul_free(bytes.drop_first());
        assert(seq![bytes[0]] + bytes.drop_first() =~= bytes);
    }
}

/// Copies the payload of a nul-terminated buffer: everything before the
/// first zero byte.
pub fn before_nul(bytes: &Vec<u8>) -> (r: Vec<u8>)
    ensures
        r@ == nul_prefix(bytes@),
{
    let mut out: Vec<u8> = Vec::new();
    let mut i: usize = 0;
    proof {
        assert(bytes@.skip(0) =~= bytes@);
        assert(out@ + nul_prefix(bytes@) =~= nul_prefix(bytes@));
    }
    while i < bytes.len()
        invariant
            i <= bytes@.len(),
            nul_prefix(bytes@) == out@ + nul_prefix(bytes@.skip(i as int)),
            forall|j: int| 0 <= j < i ==> bytes@[j] != 0,
        decreases bytes@.len() - i,
    {
        let b = bytes[i];
        let ghost rest = bytes@.skip(i as int);
        if b == 0 {
            assert(nul_prefix(rest) =~= seq![]);
            assert(out@ + nul_prefix(rest) =~= out@);
            return out;
        }
        out.push(b);
        i += 1;
        proof {
            assert(rest[0] == b);
            assert(rest.drop_first() =~= bytes@.skip(i as int));
            assert(nul_prefix(rest) == seq![b] + nul_prefix(bytes@.skip(i as int)));
            assert(out@ + nul_prefix(bytes@.skip(i as int)) =~= (out@.drop_last() + (seq![b]
                + nul_prefix(bytes@.skip(i as int)))));
        }
    }
    proof {
        assert(bytes@.skip(i as int) =~= seq![]);
        assert(out@ + nul_prefix(bytes@.skip(i as int)) =~= out@);
    }
    out
}

/// Relies on `char::from_u32` of core: it returns the character of the given
/// scalar value, and `None` exactly on values that are no Unicode scalar.
pub assume_specification[ char::from_u32 ](v: u32) -> (r: Option<char>)
    ensures
        is_scalar(v) <==> r is Some,
        r is Some ==> r->0 == v as char,
;

/// Decodes bytes as UTF-8, replacing each byte that does not begin a
/// well-formed scalar encoding with U+FFFD.
pub fn decode_utf8_lossy(bytes: &Vec<u8>) -> (r: Vec<char>)
    ensures
        r@ == lossy_decode(bytes@),
{
    let len = bytes.len();
    let mut out: Vec<char> = Vec::new();
    let mut i: usize = 0;
    proof {
        assert(bytes@.skip(0) =~= bytes@);
        assert(out@ + lossy_decode(bytes@) =~= lossy_decode(bytes@));
    }
    while i < len
        invariant
            i <= len,
            len == bytes@.len(),
            lossy_decode(bytes@) == out@ + lossy_decode(bytes@.skip(i as int)),
        decreases len - i,
    {
        let ghost rest = bytes@.skip(i as int);
        let b0 = bytes[i];
        assert(rest[0] == b0);
        let mut width: usize = 1;
        let mut scalar: u32 = 0;
        let mut ok: bool = false;
        if b0 < 0x80 {
            assert(b0 & 0x7f == b0) by (bit_vector)
                requires
                    b0 < 0x80,
            ;
            width = 1;
            scalar = (b0 & 0x7f) as u32;
            ok = true;
            assert(scalar == codepoint_width_1(rest[0]));
            assert(valid_first_scalar(rest));
        } else if 0xc0 <= b0 && b0 <= 0xdf {
            if i + 1 < len {
                let b1 = bytes[i + 1];
                assert(rest[1] == b1);
                if 0x80 <= b1 && b1 <= 0xbf {
                    let cp: u32 = (((b0 & 0x1f) as u32) << 6) | ((b1 & 0x3f) as u32);
                    assert(cp == codepoint_width_2(rest[0], rest[1]));
                    assert(cp <= 0x7ff) by (bit_vector)
                        requires
                            cp == (((b0 & 0x1f) as u32) << 6) | ((b1 & 0x3f) as u32),
                    ;
                    if cp >= 0x80 {
                        width = 2;
                        scalar = cp;
                        ok = true;
                        assert(valid_first_scalar(rest));
                    }
                }
            }
            assert(!ok ==> !valid_first_scalar(rest));
        } else if 0xe0 <= b0 && b0 <= 0xef {
            if len - i > 2 {
                let b1 = bytes[i + 1];
                let b2 = bytes[i + 2];
                assert(rest[1] == b1 && rest[2] == b2);
                if 0x80 <= b1 && b1 <= 0xbf && 0x80 <= b2 && b2 <= 0xbf {
                    let cp: u32 = (((b0 & 0x0f) as u32) << 12) | (((b1 & 0x3f) as u32) << 6) | ((b2
                        & 0x3f) as u32);
                    assert(cp == codepoint_width_3(rest[0], rest[1], rest[2]));
                    assert(cp <= 0xffff) by (bit_vector)
                        requires
                            cp == (((b0 & 0x0f) as u32) << 12) | (((b1 & 0x3f) as u32) << 6) | ((b2
                                & 0x3f) as u32),
                    ;
                    if cp >= 0x800 && !(0xd800 <= cp && cp <= 0xdfff) {
                        width = 3;
                        scalar = cp;
                        ok = true;
                        assert(valid_first_scalar(rest));
                    }
                }
            }
            assert(!ok ==> !valid_first_scalar(rest));
        } else if 0xf0 <= b0 && b0 <= 0xf7 {
            if len - i > 3 {
                let b1 = bytes[i + 1];
                let b2 = bytes[i + 2];
                let b3 = bytes[i + 3];
                assert(rest[1] == b1 && rest[2] == b2 && rest[3] == b3);
                if 0x80 <= b1 && b1 <= 0xbf && 0x80 <= b2 && b2 <= 0xbf && 0x80 <= b3 && b3
                    <= 0xbf {
                    let cp: u32 = (((b0 & 0x07) as u32) << 18) | (((b1 & 0x3f) as u32) << 12) | (((
                    b2 & 0x3f) as u32) << 6) | ((b3 & 0x3f) as u32);
                    assert(cp == codepoint_width_4(rest[0], rest[1], rest[2], rest[3]));
                    if 0x10000 <= cp && cp <= 0x10ffff {
                        width = 4;
                        scalar = cp;
                        ok = true;
                        assert(valid_first_scalar(rest));
                    }
                }
            }
            assert(!ok ==> !valid_first_scalar(rest));
        } else {
            assert(!valid_first_scalar(rest));
        }
        if ok {
            assert(scalar == decode_first_scalar(rest));
            assert(width == length_of_first_scalar(rest));
            assert(is_scalar(scalar));
            let c = char::from_u32(scalar).unwrap();
            out.push(c);
            proof {
                assert(pop_first_scalar(rest) =~= bytes@.skip(i as int + width as int));
                assert(lossy_decode(rest) == seq![scalar as char] + lossy_decode(
                    bytes@.skip(i as int + width as int),
                ));
                assert(out@ + lossy_decode(bytes@.skip(i as int + width as int)) =~= out@.drop_last()
                    + lossy_decode(rest));
            }
            i += width;
        } else {
            out.push('\u{fffd}');
            proof {
                assert(rest.drop_first() =~= bytes@.skip(i as int + 1));
                assert(lossy_decode(rest) == seq!['\u{fffd}'] + lossy_decode(
                    bytes@.skip(i as int + 1),
                ));
                assert(out@ + lossy_decode(bytes@.skip(i as int + 1)) =~= out@.drop_last()
                    + lossy_decode(rest));
            }
            i += 1;
        }
    }
    proof {
        assert(bytes@.skip(i as int) =~= seq![]);
        assert(out@ + lossy_decode(bytes@.skip(i as int)) =~= out@);
    }
    out
}

/// Relies on `String`'s `FromIterator<char>` impl of alloc: collecting a
/// sequence of characters yields the string of exactly those characters.
#[verifier::external_body]
pub(crate) fn chars_to_string(chars: &Vec<char>) -> (s: String)
    ensures
        s@ == chars@,
{
    chars.iter().collect()
}

/// Decodes the payload of a nul-terminated buffer into an owned string,
/// with lossy substitution for bytes that are not valid UTF-8.
pub fn decode_text(bytes: &Vec<u8>) -> (s: String)
    ensures
        s@ == lossy_decode(nul_prefix(bytes@)),
{
    let payload = before_nul(bytes);
    let chars = decode_utf8_lossy(&payload);
    chars_to_string(&chars)
}

/// Re-encodes a string as the UTF-8 bytes it stands for.
pub fn encode_text(s: &str) -> (r: Vec<u8>)
    ensures
        r@ == encode_utf8(s@),
{
    s.as_bytes_vec()
}

} // verus!
