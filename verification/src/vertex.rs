//! The vertex record.

use crate::layout::{native_layout, WORD_BYTES};
use vstd::prelude::*;

verus! {

/// Words in one vertex record: three of position, then three of colour.
pub const VERTEX_WORDS: usize = 6;

/// Bytes from one vertex record to the next.
pub const VERTEX_STRIDE: usize = VERTEX_WORDS * WORD_BYTES;

/// Byte offset of the colour inside a vertex record.
pub const COLOR_OFFSET: usize = 3 * WORD_BYTES;

/// One vertex: a position and a colour, three 32-bit components each.
///
/// A component is kept as the bit pattern of its single-precision value
/// (`f32::to_bits`), which is what the vertex buffer holds.
#[derive(Clone, Copy, Debug, PartialEq, Eq)]
pub struct PureVertex {
    pub position: [u32; 3],
    pub color: [u32; 3],
}

impl PureVertex {
    /// The six words of the record in buffer order.
    pub open spec fn words(self) -> Seq<u32> {
        self.position@ + self.color@
    }
}

/// The words of a run of vertices: record after record, no padding.
pub open spec fn vertex_words(vertices: Seq<PureVertex>) -> Seq<u32> {
    Seq::new(6 * vertices.len(), |k: int| vertices[k / 6].words()[k % 6])
}

/// The contents of the vertex buffer that mirrors `vertices`.
pub open spec fn vertex_bytes(vertices: Seq<PureVertex>) -> Seq<u8> {
    native_layout(vertex_words(vertices))
}

/// Flattens vertices into the words of their records.
pub fn flatten_vertices(vertices: &Vec<PureVertex>) -> (words: Vec<u32>)
    ensures
        words@ == vertex_words(vertices@),
{
    let mut words: Vec<u32> = Vec::new();
    let mut i: usize = 0;
    while i < vertices.len()
        invariant
            i <= vertices.len(),
            words@.len() == 6 * i,
            forall|k: int| 0 <= k < 6 * i ==> words@[k] == vertices@[k / 6].words()[k % 6],
        decreases vertices.len() - i,
    {
        let v = &vertices[i];
        let ghost before = words@;
        words.push(v.position[0]);
        words.push(v.position[1]);
        words.push(v.position[2]);
        words.push(v.color[0]);
        words.push(v.color[1]);
        words.push(v.color[2]);
        proof {
            assert(words@ == before + v.words());
            assert forall|k: int| 0 <= k < 6 * (i + 1) implies words@[k] == vertices@[k
                / 6].words()[k % 6] by {
                if k >= 6 * i {
                    assert(k / 6 == i);
                    assert(k % 6 == k - 6 * i);
                }
            }
        }
        i = i + 1;
    }
    assert(words@ =~= vertex_words(vertices@));
    words
}

/// The vertex buffer is one 24-byte record per vertex: component `j` of
/// the position of vertex `k` starts at byte `24 * k + 4 * j`, component `j`
/// of its colour twelve bytes later.
pub proof fn lemma_vertex_record(vertices: Seq<PureVertex>, k: int, j: int)
    requires
        0 <= k < vertices.len(),
        0 <= j < 3,
    ensures
        vertex_bytes(vertices).len() == 24 * vertices.len(),
        vertex_bytes(vertices).subrange(24 * k + 4 * j, 24 * k + 4 * j + 4) == native_layout(
            seq![vertices[k].position[j]],
        ),
        vertex_bytes(vertices).subrange(24 * k + 12 + 4 * j, 24 * k + 12 + 4 * j + 4)
            == native_layout(seq![vertices[k].color[j]]),
{
    let words = vertex_words(vertices);
    let bytes = vertex_bytes(vertices);
    let p = 6 * k + j;
    let c = 6 * k + 3 + j;
    assert(p / 6 == k && p % 6 == j);
    assert(c / 6 == k && c % 6 == 3 + j);
    assert(words[p] == vertices[k].position[j]);
    assert(words[c] == vertices[k].color[j]);
    assert forall|b: int| 0 <= b < 4 implies bytes[4 * p + b] == native_layout(
        seq![vertices[k].position[j]],
    )[b] by {
        assert((4 * p + b) / 4 == p && (4 * p + b) % 4 == b);
    }
    assert forall|b: int| 0 <= b < 4 implies bytes[4 * c + b] == native_layout(
        seq![vertices[k].color[j]],
    )[b] by {
        assert((4 * c + b) / 4 == c && (4 * c + b) % 4 == b);
    }
    assert(bytes.subrange(24 * k + 4 * j, 24 * k + 4 * j + 4) =~= native_layout(
        seq![vertices[k].position[j]],
    ));
    assert(bytes.subrange(24 * k + 12 + 4 * j, 24 * k + 12 + 4 * j + 4) =~= native_layout(
        seq![vertices[k].color[j]],
    ));
}

} // verus!
