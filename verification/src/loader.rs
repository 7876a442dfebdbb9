//! Assembly of an initial program image from raw bytes: consecutive
//! 4-byte groups become words, least significant byte first, and a
//! trailing partial group is padded with zero bytes on the right.

use vstd::prelude::*;

verus! {

/// The byte at an index, with zero beyond the end.
pub open spec fn byte_at(s: Seq<u8>, i: int) -> u8 {
    if 0 <= i < s.len() {
        s[i]
    } else {
        0u8
    }
}

/// The word read from four bytes, least significant first.
pub open spec fn word_from_le(b0: u8, b1: u8, b2: u8, b3: u8) -> u32 {
    (b0 + b1 * 0x100 + b2 * 0x10000 + b3 * 0x1000000) as u32
}

/// The words of a program image, one per 4-byte group of the input,
/// least significant byte first; a trailing partial group reads as if
/// padded with zero bytes.
pub fn scroll_from_bytes(bytes: &Vec<u8>) -> (r: Vec<u32>)
    requires
        bytes@.len() + 3 <= usize::MAX,
    ensures
        r@.len() == (bytes@.len() + 3) / 4,
        forall|w: int|
            0 <= w < r@.len() ==> r@[w] == word_from_le(
                byte_at(bytes@, 4 * w),
                byte_at(bytes@, 4 * w + 1),
                byte_at(bytes@, 4 * w + 2),
                byte_at(bytes@, 4 * w + 3),
            ),
{
    let n = bytes.len();
    let words = n / 4 + (if n % 4 != 0 { 1 } else { 0 });
    proof {
        assert(words == (n + 3) / 4);
    }
    let mut r: Vec<u32> = Vec::new();
    let mut w: usize = 0;
    while w < words
        invariant
            n == bytes@.len(),
            n + 3 <= usize::MAX,
            words == (n + 3) / 4,
            w <= words,
            r@.len() == w as nat,
            forall|k: int|
                0 <= k < w ==> r@[k] == word_from_le(
                    byte_at(bytes@, 4 * k),
                    byte_at(bytes@, 4 * k + 1),
                    byte_at(bytes@, 4 * k + 2),
                    byte_at(bytes@, 4 * k + 3),
                ),
        decreases words - w,
    {
        let base = w * 4;
        let b0 = if base < n {
            bytes[base]
        } else {
            0
        };
        let b1 = if base + 1 < n {
            bytes[base + 1]
        } else {
            0
        };
        let b2 = if base + 2 < n {
            bytes[base + 2]
        } else {
            0
        };
        let b3 = if base + 3 < n {
            bytes[base + 3]
        } else {
            0
        };
        let word = (b0 as u32) + (b1 as u32) * 0x100 + (b2 as u32) * 0x10000 + (b3 as u32)
            * 0x1000000;
        r.push(word);
        w = w + 1;
    }
    r
}

} // verus!
