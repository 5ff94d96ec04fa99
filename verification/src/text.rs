//! Decoder for the format's modified multi-byte text encoding.
//!
//! A byte range is turned into a sequence of Unicode scalar values. Each
//! scalar is encoded in 1, 2, 3 or 6 bytes, classified by the high bits of
//! the leading byte. The plain zero byte is excluded from the single-byte
//! form, there is no four-byte form, and supplementary-plane scalars use a
//! six-byte surrogate-pair form. Any byte sequence outside these shapes,
//! and any combined value that is not a valid scalar, is `InvalidText`.

use vstd::prelude::*;

use crate::error::{DecodeError, ErrorKind};

verus! {

broadcast use vstd::utf8::char_u32_cast;

/// A valid Unicode scalar value: any code point outside the surrogate
/// range and below 0x110000.
pub open spec fn is_text_scalar(v: int) -> bool {
    (0 <= v < 0xD800) || (0xE000 <= v < 0x110000)
}

/// A continuation byte of the form `10xxxxxx`.
pub open spec fn is_continuation(b: u8) -> bool {
    b / 64 == 2
}

/// The scalar value and encoded width of the unit that starts at `i`, or
/// `None` when the bytes at `i` match none of the four encoded shapes or
/// combine to a value that is not a scalar.
pub open spec fn first_scalar(s: Seq<u8>, i: int) -> Option<(int, int)>
    recommends
        0 <= i < s.len(),
{
    let b1 = s[i];
    if b1 <= 0x7F {
        if b1 == 0 {
            None
        } else {
            Some((b1 as int, 1))
        }
    } else if b1 == 0xED && i + 1 < s.len() && s[i + 1] / 16 == 10 {
        // Six-byte surrogate-pair form: 11101101 1010xxxx 10xxxxxx
        // followed by 11101101 1011xxxx 10xxxxxx.
        if i + 6 <= s.len() && is_continuation(s[i + 2]) && s[i + 3] == 0xED && s[i + 4] / 16 == 11
            && is_continuation(s[i + 5]) {
            Some(
                (
                    0x10000 + (s[i + 1] % 16) * 0x10000 + (s[i + 2] % 64) * 0x400 + (s[i + 4] % 16)
                        * 0x40 + (s[i + 5] % 64),
                    6,
                ),
            )
        } else {
            None
        }
    } else if 0xC0 <= b1 <= 0xDF {
        if i + 2 <= s.len() && is_continuation(s[i + 1]) {
            Some(((b1 % 32) * 64 + s[i + 1] % 64, 2))
        } else {
            None
        }
    } else if 0xE0 <= b1 <= 0xEF {
        if i + 3 <= s.len() && is_continuation(s[i + 1]) && is_continuation(s[i + 2]) {
            let v = (b1 % 16) * 0x1000 + (s[i + 1] % 64) * 64 + s[i + 2] % 64;
            if is_text_scalar(v) {
                Some((v, 3))
            } else {
                None
            }
        } else {
            None
        }
    } else {
        None
    }
}

/// Model of the text decoder from position `i` to the end of the range:
/// the decoded scalar sequence, or the first failure.
pub open spec fn decode_text_from(s: Seq<u8>, i: int) -> Result<Seq<char>, ErrorKind>
    decreases s.len() - i,
{
    if i < 0 || i >= s.len() {
        Ok(Seq::empty())
    } else {
        match first_scalar(s, i) {
            None => Err(ErrorKind::InvalidText),
            Some((v, w)) => {
                if 1 <= w && i + w <= s.len() {
                    match decode_text_from(s, i + w) {
                        Ok(rest) => Ok(seq![(v as u32) as char] + rest),
                        Err(k) => Err(k),
                    }
                } else {
                    Err(ErrorKind::InvalidText)
                }
            },
        }
    }
}

/// Relies on `char::from_u32` of std: it returns the character with the
/// given code point exactly when the value is a Unicode scalar value
/// (not a surrogate, below 0x110000), and `None` otherwise.
pub assume_specification[ char::from_u32 ](v: u32) -> (r: Option<char>)
    ensures
        is_text_scalar(v as int) ==> r == Some(v as char),
        !is_text_scalar(v as int) ==> r is None,
;

/// Decodes the single encoded unit that starts at `i`: the scalar as a
/// `char` and the position after the unit, or `InvalidText`.
fn decode_one(bytes: &[u8], i: usize) -> (r: Result<(char, usize), DecodeError>)
    requires
        i < bytes@.len(),
    ensures
        match r {
            Ok((c, n)) => {
                &&& first_scalar(bytes@, i as int) matches Some((v, w))
                &&& n == i + w
                &&& i < n <= bytes@.len()
                &&& c == (v as u32) as char
            },
            Err(e) => {
                &&& first_scalar(bytes@, i as int) is None
                &&& e.kind == ErrorKind::InvalidText
                &&& e.offset == i
            },
        },
{
    let b1 = bytes[i];
    let invalid = DecodeError { kind: ErrorKind::InvalidText, offset: i };
    if b1 <= 0x7F {
        if b1 == 0 {
            Err(invalid)
        } else {
            Ok((b1 as char, i + 1))
        }
    } else if b1 == 0xED && i + 1 < bytes.len() && bytes[i + 1] / 16 == 10 {
        if bytes.len() - i >= 6 && bytes[i + 2] / 64 == 2 && bytes[i + 3] == 0xED && bytes[i + 4]
            / 16 == 11 && bytes[i + 5] / 64 == 2 {
            let v: u32 = 0x10000 + (bytes[i + 1] % 16) as u32 * 0x10000 + (bytes[i + 2] % 64) as u32
                * 0x400 + (bytes[i + 4] % 16) as u32 * 0x40 + (bytes[i + 5] % 64) as u32;
            match char::from_u32(v) {
                Some(c) => Ok((c, i + 6)),
                None => Err(invalid),
            }
        } else {
            Err(invalid)
        }
    } else if 0xC0 <= b1 && b1 <= 0xDF {
        if bytes.len() - i >= 2 && bytes[i + 1] / 64 == 2 {
            let v: u32 = (b1 % 32) as u32 * 64 + (bytes[i + 1] % 64) as u32;
            match char::from_u32(v) {
                Some(c) => Ok((c, i + 2)),
                None => Err(invalid),
            }
        } else {
            Err(invalid)
        }
    } else if 0xE0 <= b1 && b1 <= 0xEF {
        if bytes.len() - i >= 3 && bytes[i + 1] / 64 == 2 && bytes[i + 2] / 64 == 2 {
            let v: u32 = (b1 % 16) as u32 * 0x1000 + (bytes[i + 1] % 64) as u32 * 64 + (bytes[i + 2]
                % 64) as u32;
            match char::from_u32(v) {
                Some(c) => Ok((c, i + 3)),
                None => Err(invalid),
            }
        } else {
            Err(invalid)
        }
    } else {
        Err(invalid)
    }
}

/// Decodes a whole byte range as modified multi-byte text.
///
/// On success the returned characters are exactly the model's decode of
/// the range; on failure the model fails with the same kind, and the
/// reported offset lies within the range.
pub fn decode_text(bytes: &[u8]) -> (r: Result<Vec<char>, DecodeError>)
    ensures
        match r {
            Ok(v) => decode_text_from(bytes@, 0) == Ok::<Seq<char>, ErrorKind>(v@),
            Err(e) => decode_text_from(bytes@, 0) == Err::<Seq<char>, ErrorKind>(e.kind)
                && e.offset <= bytes@.len(),
        },
{
    let mut out: Vec<char> = Vec::new();
    let mut i: usize = 0;
    while i < bytes.len()
        invariant
            i <= bytes@.len(),
            decode_text_from(bytes@, 0) == (match decode_text_from(bytes@, i as int) {
                Ok(rest) => Ok::<Seq<char>, ErrorKind>(out@ + rest),
                Err(k) => Err::<Seq<char>, ErrorKind>(k),
            }),
        decreases bytes@.len() - i,
    {
        match decode_one(bytes, i) {
            Ok((c, n)) => {
                proof {
                    match first_scalar(bytes@, i as int) {
                        Some((v, w)) => {
                            assert(n == i + w && 1 <= w && i + w <= bytes@.len());
                            assert(decode_text_from(bytes@, i as int) == (
                            match decode_text_from(bytes@, i + w) {
                                Ok(rest) => Ok::<Seq<char>, ErrorKind>(
                                    seq![(v as u32) as char] + rest,
                                ),
                                Err(k) => Err::<Seq<char>, ErrorKind>(k),
                            }));
                            match decode_text_from(bytes@, n as int) {
                                Ok(rest) => {
                                    assert(out@.push(c) + rest =~= out@ + (seq![c] + rest));
                                },
                                Err(_) => {},
                            }
                        },
                        None => {
                            assert(false);
                        },
                    }
                }
                out.push(c);
                i = n;
            },
            Err(e) => {
                return Err(e);
            },
        }
    }
    proof {
        assert(out@ + Seq::<char>::empty() =~= out@);
    }
    Ok(out)
}

/// A byte in the `0xf8`-`0xff` range at a position where a leading byte
/// is expected makes the whole decode fail with `InvalidText`.
pub proof fn lemma_high_lead_byte_invalid(s: Seq<u8>, i: int)
    requires
        0 <= i < s.len(),
        0xf8 <= s[i],
    ensures
        decode_text_from(s, i) == Err::<Seq<char>, ErrorKind>(ErrorKind::InvalidText),
{
}

} // verus!
