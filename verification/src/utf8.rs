//! Validation of caller-supplied bytes as well-formed UTF-8 text.
//!
//! The detector accepts only valid UTF-8, so the boundary must decide, for an
//! arbitrary byte sequence, whether it is well-formed. The rules are the
//! standard ones: one- to four-byte sequences, no overlong encodings, no
//! surrogate code points, nothing above U+10FFFF.

use vstd::prelude::*;

verus! {

/// A continuation byte: the second, third or fourth byte of a multi-byte
/// sequence, always of the form `10xxxxxx`.
pub open spec fn is_cont_byte(b: u8) -> bool {
    0x80 <= b <= 0xBF
}

/// The leading byte of a two-byte sequence. `0xC0` and `0xC1` are excluded:
/// they could only start an overlong encoding of a one-byte code point.
pub open spec fn is_two_byte_head(b0: u8) -> bool {
    0xC2 <= b0 <= 0xDF
}

/// The first two bytes of a three-byte sequence. After `0xE0` the second
/// byte starts at `0xA0` (no overlong encodings), and after `0xED` it stops
/// at `0x9F` (no surrogate code points).
pub open spec fn is_three_byte_head(b0: u8, b1: u8) -> bool {
    ||| b0 == 0xE0 && 0xA0 <= b1 <= 0xBF
    ||| 0xE1 <= b0 <= 0xEC && is_cont_byte(b1)
    ||| b0 == 0xED && 0x80 <= b1 <= 0x9F
    ||| 0xEE <= b0 <= 0xEF && is_cont_byte(b1)
}

/// The first two bytes of a four-byte sequence. After `0xF0` the second byte
/// starts at `0x90` (no overlong encodings), and after `0xF4` it stops at
/// `0x8F` (nothing above U+10FFFF).
pub open spec fn is_four_byte_head(b0: u8, b1: u8) -> bool {
    ||| b0 == 0xF0 && 0x90 <= b1 <= 0xBF
    ||| 0xF1 <= b0 <= 0xF3 && is_cont_byte(b1)
    ||| b0 == 0xF4 && 0x80 <= b1 <= 0x8F
}

/// The length of the well-formed UTF-8 sequence that `s` starts with, or 0
/// if `s` is empty or starts with no well-formed sequence.
pub open spec fn utf8_head_len(s: Seq<u8>) -> int {
    if s.len() >= 1 && s[0] < 0x80 {
        1
    } else if s.len() >= 2 && is_two_byte_head(s[0]) && is_cont_byte(s[1]) {
        2
    } else if s.len() >= 3 && is_three_byte_head(s[0], s[1]) && is_cont_byte(s[2]) {
        3
    } else if s.len() >= 4 && is_four_byte_head(s[0], s[1]) && is_cont_byte(s[2]) && is_cont_byte(
        s[3],
    ) {
        4
    } else {
        0
    }
}

/// A byte sequence is valid UTF-8 when it is a concatenation of well-formed
/// one- to four-byte sequences.
pub open spec fn is_valid_utf8(s: Seq<u8>) -> bool
    decreases s.len(),
{
    if s.len() == 0 {
        true
    } else {
        let k = utf8_head_len(s);
        0 < k && is_valid_utf8(s.skip(k))
    }
}

/// Whether `b` is a continuation byte; the executable mirror of
/// [`is_cont_byte`].
fn check_cont_byte(b: u8) -> (r: bool)
    ensures
        r == is_cont_byte(b),
{
    0x80 <= b && b <= 0xBF
}

/// Decides whether `bytes` is well-formed UTF-8 text.
pub fn validate_utf8(bytes: &[u8]) -> (ok: bool)
    ensures
        ok == is_valid_utf8(bytes@),
{
    let n: usize = bytes.len();
    let mut i: usize = 0;
    assert(bytes@.skip(0) =~= bytes@);
    while i < n
        invariant
            i <= n,
            n == bytes@.len(),
            is_valid_utf8(bytes@) == is_valid_utf8(bytes@.skip(i as int)),
        decreases n - i,
    {
        let ghost s = bytes@.skip(i as int);
        let b0 = bytes[i];
        let k: usize = if b0 < 0x80 {
            1
        } else if 0xC2 <= b0 && b0 <= 0xDF {
            if n - i >= 2 && check_cont_byte(bytes[i + 1]) {
                2
            } else {
                0
            }
        } else if 0xE0 <= b0 && b0 <= 0xEF {
            if n - i >= 3 {
                let b1 = bytes[i + 1];
                let head_ok: bool = if b0 == 0xE0 {
                    0xA0 <= b1 && b1 <= 0xBF
                } else if b0 == 0xED {
                    0x80 <= b1 && b1 <= 0x9F
                } else {
                    check_cont_byte(b1)
                };
                if head_ok && check_cont_byte(bytes[i + 2]) {
                    3
                } else {
                    0
                }
            } else {
                0
            }
        } else if 0xF0 <= b0 && b0 <= 0xF4 {
            if n - i >= 4 {
                let b1 = bytes[i + 1];
                let head_ok: bool = if b0 == 0xF0 {
                    0x90 <= b1 && b1 <= 0xBF
                } else if b0 == 0xF4 {
                    0x80 <= b1 && b1 <= 0x8F
                } else {
                    check_cont_byte(b1)
                };
                if head_ok && check_cont_byte(bytes[i + 2]) && check_cont_byte(bytes[i + 3]) {
                    4
                } else {
                    0
                }
            } else {
                0
            }
        } else {
            0
        };
        if k == 0 {
            assert(!is_valid_utf8(s));
            return false;
        }
        assert(s.skip(k as int) =~= bytes@.skip(i as int + k as int));
        i = i + k;
    }
    assert(bytes@.skip(n as int) =~= Seq::<u8>::empty());
    true
}

} // verus!
