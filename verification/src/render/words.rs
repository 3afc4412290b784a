//! 32-bit words and the bytes that the device reads them from.
//!
//! A device buffer holds every scalar, a float too, as a 32-bit word in the
//! byte order of the host. Floats enter this library as their bit patterns.

use vstd::prelude::*;

verus! {

/// The bytes of `word`, lowest first.
pub open spec fn le_bytes(word: u32) -> Seq<u8> {
    seq![
        (word & 0xff) as u8,
        ((word >> 8) & 0xff) as u8,
        ((word >> 16) & 0xff) as u8,
        ((word >> 24) & 0xff) as u8,
    ]
}

/// The bytes of `words` with each word laid out lowest byte first.
pub open spec fn le_image(words: Seq<u32>) -> Seq<u8> {
    Seq::new(4 * words.len(), |i: int| le_bytes(words[i / 4])[i % 4])
}

/// The bytes of `words` with each word laid out highest byte first.
pub open spec fn be_image(words: Seq<u32>) -> Seq<u8> {
    Seq::new(4 * words.len(), |i: int| le_bytes(words[i / 4])[3 - i % 4])
}

/// `bytes` is `words` as a host lays them out in memory: every word lowest
/// byte first, or every word highest byte first.
pub open spec fn is_native_image(bytes: Seq<u8>, words: Seq<u32>) -> bool {
    bytes == le_image(words) || bytes == be_image(words)
}

/// A part of the bytes is the part of the words that it holds, in the same
/// byte order: the bytes from `4 * from` to `4 * to` hold the words from
/// `from` to `to`.
pub proof fn lemma_image_part(bytes: Seq<u8>, words: Seq<u32>, from: int, to: int)
    requires
        is_native_image(bytes, words),
        0 <= from <= to <= words.len(),
    ensures
        bytes.len() == 4 * words.len(),
        is_native_image(bytes.subrange(4 * from, 4 * to), words.subrange(from, to)),
{
    let part = words.subrange(from, to);
    let cut = bytes.subrange(4 * from, 4 * to);
    let little = bytes == le_image(words);
    let image = if little {
        le_image(part)
    } else {
        be_image(part)
    };
    assert forall|i: int| 0 <= i < cut.len() implies #[trigger] cut[i] == image[i] by {
        assert((4 * from + i) / 4 == from + i / 4 && (4 * from + i) % 4 == i % 4 && 0 <= i / 4 < to
            - from) by (nonlinear_arith)
            requires
                0 <= i < 4 * (to - from),
                0 <= from,
        ;
        assert(part[i / 4] == words[from + i / 4]);
    }
    assert(cut =~= image);
}

/// Calls `bytemuck::cast_slice` from `u32` to `u8`, which hands out the
/// memory of the words as bytes: four bytes for each word, in the byte order
/// of the host. Which order that is is not stated, only that it is one of
/// the two. The cast to bytes cannot fail: bytes need no alignment and leave
/// no rest.
#[verifier::external_body]
pub(crate) fn words_as_bytes(words: &[u32]) -> (bytes: &[u8])
    ensures
        is_native_image(bytes@, words@),
{
    bytemuck::cast_slice::<u32, u8>(words)
}

/// The bytes of `words` in the byte order of the host.
pub fn native_bytes(words: &[u32]) -> (bytes: Vec<u8>)
    ensures
        is_native_image(bytes@, words@),
        bytes@.len() == 4 * words@.len(),
{
    let image = words_as_bytes(words);
    let mut bytes: Vec<u8> = Vec::new();
    bytes.extend_from_slice(image);
    assert(bytes@ =~= image@);
    bytes
}

} // verus!
