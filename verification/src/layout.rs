//! How 32-bit words lie in the bytes of a device buffer.
//!
//! Every buffer that a draw call reads (vertices, indices, per-instance
//! data) is a run of 32-bit words. The device reads them as the host wrote
//! them, so a buffer holds each word in the byte order of the machine.

use vstd::endian::{endianness, Endian};
use vstd::prelude::*;

verus! {

/// Bytes taken by one word.
pub const WORD_BYTES: usize = 4;

/// Byte number `place` of `word`, where place 0 is the least significant
/// byte and place 3 the most significant one.
pub open spec fn byte_at(word: u32, place: int) -> u8 {
    if place == 0 {
        (word % 256) as u8
    } else if place == 1 {
        (word / 256 % 256) as u8
    } else if place == 2 {
        (word / 65536 % 256) as u8
    } else {
        (word / 16777216 % 256) as u8
    }
}

/// The byte found `offset` bytes into a word that is stored in `order`.
pub open spec fn stored_byte(word: u32, offset: int, order: Endian) -> u8 {
    match order {
        Endian::Little => byte_at(word, offset),
        Endian::Big => byte_at(word, 3 - offset),
    }
}

/// The bytes of `words`, one word after the other without gaps, each word
/// stored in `order`.
pub open spec fn layout(words: Seq<u32>, order: Endian) -> Seq<u8> {
    Seq::new(4 * words.len(), |i: int| stored_byte(words[i / 4], i % 4, order))
}

/// The bytes of `words` as they lie in this machine's memory.
pub open spec fn native_layout(words: Seq<u32>) -> Seq<u8> {
    layout(words, endianness())
}

/// A layout takes four bytes per word, and byte `offset` of word `k` is
/// found at `4 * k + offset`.
pub proof fn lemma_layout_places(words: Seq<u32>, order: Endian, k: int, offset: int)
    requires
        0 <= k < words.len(),
        0 <= offset < 4,
    ensures
        layout(words, order).len() == 4 * words.len(),
        layout(words, order)[4 * k + offset] == stored_byte(words[k], offset, order),
{
    assert((4 * k + offset) / 4 == k);
    assert((4 * k + offset) % 4 == offset);
}

/// Two runs of words with the same layout are the same words: no two
/// words share their four bytes.
pub proof fn lemma_layout_injective(a: Seq<u32>, b: Seq<u32>, order: Endian)
    requires
        layout(a, order) == layout(b, order),
    ensures
        a == b,
{
    assert(4 * a.len() == layout(a, order).len());
    assert(4 * b.len() == layout(b, order).len());
    assert forall|k: int| 0 <= k < a.len() implies a[k] == b[k] by {
        assert forall|place: int| 0 <= place < 4 implies byte_at(a[k], place) == byte_at(
            b[k],
            place,
        ) by {
            let offset = if order is Little {
                place
            } else {
                3 - place
            };
            lemma_layout_places(a, order, k, offset);
            lemma_layout_places(b, order, k, offset);
        }
        lemma_bytes_fix_word(a[k], b[k]);
    }
    assert(a =~= b);
}

/// A word is fixed by its four bytes.
pub proof fn lemma_bytes_fix_word(x: u32, y: u32)
    requires
        forall|place: int| 0 <= place < 4 ==> byte_at(x, place) == byte_at(y, place),
    ensures
        x == y,
{
    assert(byte_at(x, 0) == byte_at(y, 0));
    assert(byte_at(x, 1) == byte_at(y, 1));
    assert(byte_at(x, 2) == byte_at(y, 2));
    assert(byte_at(x, 3) == byte_at(y, 3));
}

/// The bytes behind a slice of words.
///
/// Calls `bytemuck::cast_slice` from `u32` to `u8` and copies what it
/// borrows. That function hands out the memory of the slice as bytes: four
/// per word, the words in their order, each in the byte order of the
/// machine. It cannot fail in this direction, since a byte needs no
/// alignment and every length is a whole number of bytes. Not proved here:
/// that the bytes are those of `native_layout`.
#[verifier::external_body]
pub(crate) fn cast_words(words: &[u32]) -> (bytes: Vec<u8>)
    ensures
        bytes@ == native_layout(words@),
{
    bytemuck::cast_slice::<u32, u8>(words).to_vec()
}

} // verus!
