//! Shader modules arrive as blobs of bytes; the device wants 32-bit words.

use crate::layout::native_layout;
use vstd::prelude::*;

verus! {

/// The word that four bytes of memory hold.
///
/// Calls `u32::from_ne_bytes`, which reads the bytes in the byte order of
/// the machine. Not proved here: that laying the result out again gives
/// the four bytes back.
#[verifier::external_body]
fn word_from_memory(bytes: [u8; 4]) -> (word: u32)
    ensures
        native_layout(seq![word]) == bytes@,
{
    u32::from_ne_bytes(bytes)
}

/// The words of a compiled shader module, read from the bytes of its file
/// as they come. A module is a whole number of words.
pub fn spirv_words(source: &[u8]) -> (words: Vec<u32>)
    requires
        source@.len() % 4 == 0,
    ensures
        native_layout(words@) == source@,
{
    let mut words: Vec<u32> = Vec::new();
    let mut at: usize = 0;
    while at < source.len()
        invariant
            source@.len() % 4 == 0,
            at <= source@.len(),
            at == 4 * words@.len(),
            native_layout(words@) == source@.subrange(0, at as int),
        decreases source@.len() - at,
    {
        let word = word_from_memory([source[at], source[at + 1], source[at + 2], source[at + 3]]);
        let ghost before = words@;
        words.push(word);
        proof {
            assert(native_layout(words@) =~= source@.subrange(0, at + 4)) by {
                assert forall|i: int| 0 <= i < at + 4 implies native_layout(words@)[i]
                    == source@[i] by {
                    if i < at {
                        assert(native_layout(before)[i] == source@.subrange(0, at as int)[i]);
                        assert(words@[i / 4] == before[i / 4]);
                    } else {
                        assert(i / 4 == before.len());
                        assert(native_layout(seq![word])[i - at] == source@[i]);
                        assert((i - at) / 4 == 0 && (i - at) % 4 == i % 4);
                    }
                }
            }
        }
        at = at + 4;
    }
    assert(source@.subrange(0, at as int) =~= source@);
    words
}

} // verus!
