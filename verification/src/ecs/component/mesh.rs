//! The mesh component: geometry, the buffers that mirror it, and two weak
//! links into the scene.

use crate::ecs::component::{Component, ComponentView, Renderable};
use crate::layout::{cast_words, native_layout};
use crate::vertex::{flatten_vertices, vertex_bytes, PureVertex};
use vstd::prelude::*;

verus! {

/// The contents of the index buffer that mirrors `indices`: 32-bit indices
/// one after the other.
pub open spec fn index_bytes(indices: Seq<u32>) -> Seq<u8> {
    native_layout(indices)
}

/// Geometry that a mesh accepts: a flat triangle list whose every index
/// names one of the vertices, and whose length a draw call can carry.
pub open spec fn valid_geometry(vertices: Seq<PureVertex>, indices: Seq<u32>) -> bool {
    &&& indices.len() <= u32::MAX
    &&& indices.len() % 3 == 0
    &&& forall|k: int| 0 <= k < indices.len() ==> indices[k] < vertices.len()
}

/// Why geometry was turned down.
#[derive(Clone, Copy, Debug, PartialEq, Eq)]
pub enum GeometryError {
    /// There are more indices than a draw call can count.
    TooManyIndices { count: usize },
    /// The indices do not come in threes.
    NotTriangles { count: usize },
    /// The index at `position` names no vertex; it is the first that does not.
    IndexOutOfRange { position: usize, index: u32 },
}

impl GeometryError {
    /// Whether this error is the verdict on the given geometry. The three
    /// faults are looked for in the order of the variants, and an index out
    /// of range is reported at its first occurrence.
    pub open spec fn rejects(self, vertices: Seq<PureVertex>, indices: Seq<u32>) -> bool {
        match self {
            GeometryError::TooManyIndices { count } => {
                &&& count == indices.len()
                &&& indices.len() > u32::MAX
            },
            GeometryError::NotTriangles { count } => {
                &&& count == indices.len()
                &&& indices.len() <= u32::MAX
                &&& indices.len() % 3 != 0
            },
            GeometryError::IndexOutOfRange { position, index } => {
                &&& indices.len() <= u32::MAX
                &&& indices.len() % 3 == 0
                &&& position < indices.len()
                &&& index == indices[position as int]
                &&& index >= vertices.len()
                &&& forall|k: int| 0 <= k < position ==> indices[k] < vertices.len()
            },
        }
    }
}

/// Geometry is turned down only when it is not valid, and there is one
/// verdict on it at most.
pub proof fn lemma_verdict(
    vertices: Seq<PureVertex>,
    indices: Seq<u32>,
    e1: GeometryError,
    e2: GeometryError,
)
    requires
        e1.rejects(vertices, indices),
        e2.rejects(vertices, indices),
    ensures
        !valid_geometry(vertices, indices),
        e1 == e2,
{
    if let GeometryError::IndexOutOfRange { position: here, .. } = e1 {
        if let GeometryError::IndexOutOfRange { position: there, .. } = e2 {
            if here < there {
                assert(indices[here as int] < vertices.len());
            }
            if there < here {
                assert(indices[there as int] < vertices.len());
            }
        }
    }
}

/// The bit pattern of the single-precision number 0.
pub const ZERO: u32 = 0x0000_0000;

/// The bit pattern of the single-precision number 1.
pub const ONE: u32 = 0x3F80_0000;

/// The bit pattern of the single-precision number 2.
pub const TWO: u32 = 0x4000_0000;

/// The bit pattern of the single-precision number `n`, for the three whole
/// numbers that the default geometry is made of.
pub open spec fn whole_bits(n: int) -> u32 {
    if n == 0 {
        ZERO
    } else if n == 1 {
        ONE
    } else {
        TWO
    }
}

/// Vertex `k` of the default geometry: four unit squares that tile the
/// square from (0, 0) to (2, 2) row by row, each made of two triangles
/// with corners of its own, six vertices to a square. Within a square the
/// corners run (0, 0), (1, 1), (0, 1), then (0, 0), (1, 0), (1, 1); the
/// first corner of each triangle is red, the corner at (1, 1) green, the
/// remaining one blue.
pub open spec fn default_vertex(k: int) -> PureVertex {
    let square = k / 6;
    let corner = k % 6;
    let right: int = if corner == 1 || corner == 4 || corner == 5 {
        1
    } else {
        0
    };
    let up: int = if corner == 1 || corner == 2 || corner == 5 {
        1
    } else {
        0
    };
    let red: int = if corner == 0 || corner == 3 {
        1
    } else {
        0
    };
    let green: int = if corner == 1 || corner == 5 {
        1
    } else {
        0
    };
    let blue: int = if corner == 2 || corner == 4 {
        1
    } else {
        0
    };
    PureVertex {
        position: [whole_bits(square % 2 + right), whole_bits(square / 2 + up), whole_bits(0)],
        color: [whole_bits(red), whole_bits(green), whole_bits(blue)],
    }
}

/// The vertices of the default geometry.
pub open spec fn default_vertices() -> Seq<PureVertex> {
    Seq::new(24, |k: int| default_vertex(k))
}

/// The indices of the default geometry: every vertex once, in order.
pub open spec fn default_indices() -> Seq<u32> {
    Seq::new(24, |k: int| k as u32)
}

/// The default geometry is valid.
pub proof fn lemma_default_geometry_valid()
    ensures
        valid_geometry(default_vertices(), default_indices()),
{
}

/// A mesh as contracts see it.
pub struct MeshView {
    pub desc: Seq<char>,
    pub vertices: Seq<PureVertex>,
    pub indices: Seq<u32>,
    pub vertex_buffer: Seq<u8>,
    pub index_buffer: Seq<u8>,
    pub parent_index: usize,
    pub instance_component_index: usize,
}

impl MeshView {
    /// The mesh that construction from these values gives: the buffers are
    /// built from the geometry and from nothing else.
    pub open spec fn fresh(
        desc: Seq<char>,
        vertices: Seq<PureVertex>,
        indices: Seq<u32>,
        parent_index: usize,
        instance_component_index: usize,
    ) -> MeshView {
        MeshView {
            desc,
            vertices,
            indices,
            vertex_buffer: vertex_bytes(vertices),
            index_buffer: index_bytes(indices),
            parent_index,
            instance_component_index,
        }
    }

    /// What holds of every mesh: its geometry is valid and its two buffers
    /// mirror it byte for byte.
    pub open spec fn wf(self) -> bool {
        &&& valid_geometry(self.vertices, self.indices)
        &&& self.vertex_buffer == vertex_bytes(self.vertices)
        &&& self.index_buffer == index_bytes(self.indices)
    }
}

/// The buffers of a mesh are fixed by its geometry. However a mesh came by
/// its buffers, by construction or by a rebuild, they are byte for byte
/// those of any other mesh of the same vertices and indices.
pub proof fn lemma_buffers_fixed_by_geometry(a: MeshView, b: MeshView)
    requires
        a.wf(),
        b.wf(),
        a.vertices == b.vertices,
        a.indices == b.indices,
    ensures
        a.vertex_buffer == b.vertex_buffer,
        a.index_buffer == b.index_buffer,
{
}

/// Geometry with the buffers that a draw call reads, and the positions of
/// the object that the mesh belongs to and of the instance component that
/// places its copies. The two positions are weak: nothing is known of what
/// they point at until a frame resolves them.
pub struct MeshComponent {
    desc: String,
    vertices: Vec<PureVertex>,
    indices: Vec<u32>,
    vertex_buffer: Vec<u8>,
    index_buffer: Vec<u8>,
    num_indices: u32,
    parent_index: usize,
    instance_component_index: usize,
}

impl View for MeshComponent {
    type V = MeshView;

    closed spec fn view(&self) -> MeshView {
        MeshView {
            desc: self.desc@,
            vertices: self.vertices@,
            indices: self.indices@,
            vertex_buffer: self.vertex_buffer@,
            index_buffer: self.index_buffer@,
            parent_index: self.parent_index,
            instance_component_index: self.instance_component_index,
        }
    }
}

impl MeshComponent {
    #[verifier::type_invariant]
    spec fn inv(self) -> bool {
        &&& self@.wf()
        &&& self.num_indices == self.indices@.len()
    }

    /// A mesh of the given geometry, or the reason why the geometry is not
    /// one. The two links are taken as they are: what they point at may not
    /// exist yet.
    pub fn new(
        desc: String,
        vertices: Vec<PureVertex>,
        indices: Vec<u32>,
        parent_index: usize,
        instance_component_index: usize,
    ) -> (r: Result<Self, GeometryError>)
        ensures
            r is Ok <==> valid_geometry(vertices@, indices@),
            match r {
                Ok(mesh) => mesh@ == MeshView::fresh(
                    desc@,
                    vertices@,
                    indices@,
                    parent_index,
                    instance_component_index,
                ),
                Err(e) => e.rejects(vertices@, indices@),
            },
    {
        match Self::check_geometry(&vertices, &indices) {
            Err(e) => Err(e),
            Ok(num_indices) => {
                let (vertex_buffer, index_buffer) = Self::generate_buffers(&vertices, &indices);
                Ok(
                    MeshComponent {
                        desc,
                        vertices,
                        indices,
                        vertex_buffer,
                        index_buffer,
                        num_indices,
                        parent_index,
                        instance_component_index,
                    },
                )
            },
        }
    }

    /// The default mesh: four coloured unit squares side by side, two
    /// triangles each.
    pub fn default(parent_index: usize, instance_component_index: usize) -> (mesh: Self)
        ensures
            mesh@ == MeshView::fresh(
                "DEFAULT"@,
                default_vertices(),
                default_indices(),
                parent_index,
                instance_component_index,
            ),
    {
        let vertices = vec![
            PureVertex { position: [ZERO, ZERO, ZERO], color: [ONE, ZERO, ZERO] },
            PureVertex { position: [ONE, ONE, ZERO], color: [ZERO, ONE, ZERO] },
            PureVertex { position: [ZERO, ONE, ZERO], color: [ZERO, ZERO, ONE] },
            PureVertex { position: [ZERO, ZERO, ZERO], color: [ONE, ZERO, ZERO] },
            PureVertex { position: [ONE, ZERO, ZERO], color: [ZERO, ZERO, ONE] },
            PureVertex { position: [ONE, ONE, ZERO], color: [ZERO, ONE, ZERO] },
            PureVertex { position: [ONE, ZERO, ZERO], color: [ONE, ZERO, ZERO] },
            PureVertex { position: [TWO, ONE, ZERO], color: [ZERO, ONE, ZERO] },
            PureVertex { position: [ONE, ONE, ZERO], color: [ZERO, ZERO, ONE] },
            PureVertex { position: [ONE, ZERO, ZERO], color: [ONE, ZERO, ZERO] },
            PureVertex { position: [TWO, ZERO, ZERO], color: [ZERO, ZERO, ONE] },
            PureVertex { position: [TWO, ONE, ZERO], color: [ZERO, ONE, ZERO] },
            PureVertex { position: [ZERO, ONE, ZERO], color: [ONE, ZERO, ZERO] },
            PureVertex { position: [ONE, TWO, ZERO], color: [ZERO, ONE, ZERO] },
            PureVertex { position: [ZERO, TWO, ZERO], color: [ZERO, ZERO, ONE] },
            PureVertex { position: [ZERO, ONE, ZERO], color: [ONE, ZERO, ZERO] },
            PureVertex { position: [ONE, ONE, ZERO], color: [ZERO, ZERO, ONE] },
            PureVertex { position: [ONE, TWO, ZERO], color: [ZERO, ONE, ZERO] },
            PureVertex { position: [ONE, ONE, ZERO], color: [ONE, ZERO, ZERO] },
            PureVertex { position: [TWO, TWO, ZERO], color: [ZERO, ONE, ZERO] },
            PureVertex { position: [ONE, TWO, ZERO], color: [ZERO, ZERO, ONE] },
            PureVertex { position: [ONE, ONE, ZERO], color: [ONE, ZERO, ZERO] },
            PureVertex { position: [TWO, ONE, ZERO], color: [ZERO, ZERO, ONE] },
            PureVertex { position: [TWO, TWO, ZERO], color: [ZERO, ONE, ZERO] },
        ];
        let indices: Vec<u32> = vec![
            0, 1, 2, 3, 4, 5, 6, 7, 8, 9, 10, 11, 12, 13, 14, 15, 16, 17, 18, 19, 20, 21, 22, 23,
        ];
        proof {
            assert(vertices@.len() == 24);
            assert forall|k: int| 0 <= k < 24 implies vertices@[k] == default_vertex(k) by {
                assert(vertices@[k].position@ =~= default_vertex(k).position@);
                assert(vertices@[k].color@ =~= default_vertex(k).color@);
            }
            assert(vertices@ =~= default_vertices());
            assert(indices@ =~= default_indices());
        }
        match Self::new(
            "DEFAULT".to_owned(),
            vertices,
            indices,
            parent_index,
            instance_component_index,
        ) {
            Ok(mesh) => mesh,
            Err(_) => {
                proof {
                    lemma_default_geometry_valid();
                }
                unreached()
            },
        }
    }

    /// A mesh without geometry, linked to position 0 both ways.
    pub fn empty() -> (mesh: Self)
        ensures
            mesh@ == MeshView::fresh("EMPTY"@, Seq::empty(), Seq::empty(), 0, 0),
    {
        match Self::new("EMPTY".to_owned(), Vec::new(), Vec::new(), 0, 0) {
            Ok(mesh) => mesh,
            Err(_) => unreached(),
        }
    }

    /// Takes new geometry in place of the old and rebuilds both buffers
    /// from it. Geometry that is not valid is turned down, and the mesh
    /// stays as it was.
    pub fn update_geometry(&mut self, new_vertices: Vec<PureVertex>, new_indices: Vec<u32>) -> (r:
        Result<(), GeometryError>)
        ensures
            r is Ok <==> valid_geometry(new_vertices@, new_indices@),
            match r {
                Ok(()) => final(self)@ == MeshView::fresh(
                    old(self)@.desc,
                    new_vertices@,
                    new_indices@,
                    old(self)@.parent_index,
                    old(self)@.instance_component_index,
                ),
                Err(e) => e.rejects(new_vertices@, new_indices@) && final(self)@ == old(self)@,
            },
    {
        match Self::check_geometry(&new_vertices, &new_indices) {
            Err(e) => Err(e),
            Ok(num_indices) => {
                let (vertex_buffer, index_buffer) = Self::generate_buffers(
                    &new_vertices,
                    &new_indices,
                );
                *self = MeshComponent {
                    desc: self.desc.clone(),
                    vertices: new_vertices,
                    indices: new_indices,
                    vertex_buffer,
                    index_buffer,
                    num_indices,
                    parent_index: self.parent_index,
                    instance_component_index: self.instance_component_index,
                };
                Ok(())
            },
        }
    }

    /// Rebuilds both buffers from the geometry that the mesh holds. The
    /// mesh comes out as a fresh one made of the same data: its buffers
    /// are, byte for byte, what they were.
    pub fn update_buffers(&mut self)
        ensures
            final(self)@ == MeshView::fresh(
                old(self)@.desc,
                old(self)@.vertices,
                old(self)@.indices,
                old(self)@.parent_index,
                old(self)@.instance_component_index,
            ),
            final(self)@ == old(self)@,
    {
        proof {
            use_type_invariant(&*self);
        }
        let (vertex_buffer, index_buffer) = Self::generate_buffers(&self.vertices, &self.indices);
        self.vertex_buffer = vertex_buffer;
        self.index_buffer = index_buffer;
    }

    /// The number of indices as a draw call carries it, if there can be
    /// that many indices in a triangle list.
    pub fn check_index_count(count: usize) -> (r: Result<u32, GeometryError>)
        ensures
            r is Ok <==> count <= u32::MAX && count % 3 == 0,
            match r {
                Ok(n) => n == count,
                Err(GeometryError::TooManyIndices { count: found }) => {
                    &&& found == count
                    &&& count > u32::MAX
                },
                Err(GeometryError::NotTriangles { count: found }) => {
                    &&& found == count
                    &&& count <= u32::MAX
                    &&& count % 3 != 0
                },
                Err(GeometryError::IndexOutOfRange { .. }) => false,
            },
    {
        if count > u32::MAX as usize {
            Err(GeometryError::TooManyIndices { count })
        } else if count % 3 != 0 {
            Err(GeometryError::NotTriangles { count })
        } else {
            Ok(count as u32)
        }
    }

    /// The number of indices if the geometry is valid, else the verdict on it.
    pub fn check_geometry(vertices: &Vec<PureVertex>, indices: &Vec<u32>) -> (r: Result<
        u32,
        GeometryError,
    >)
        ensures
            r is Ok <==> valid_geometry(vertices@, indices@),
            match r {
                Ok(n) => n == indices@.len(),
                Err(e) => e.rejects(vertices@, indices@),
            },
    {
        let count = match Self::check_index_count(indices.len()) {
            Ok(count) => count,
            Err(e) => {
                proof {
                    lemma_verdict(vertices@, indices@, e, e);
                }
                return Err(e);
            },
        };
        let mut position: usize = 0;
        while position < indices.len()
            invariant
                count == indices@.len(),
                count % 3 == 0,
                position <= indices@.len(),
                forall|k: int| 0 <= k < position ==> indices@[k] < vertices@.len(),
            decreases indices@.len() - position,
        {
            let index = indices[position];
            if index as usize >= vertices.len() {
                return Err(GeometryError::IndexOutOfRange { position, index });
            }
            position = position + 1;
        }
        Ok(count)
    }

    /// The vertex buffer and the index buffer of the given geometry.
    fn generate_buffers(vertices: &Vec<PureVertex>, indices: &Vec<u32>) -> (buffers: (
        Vec<u8>,
        Vec<u8>,
    ))
        ensures
            buffers.0@ == vertex_bytes(vertices@),
            buffers.1@ == index_bytes(indices@),
    {
        let words = flatten_vertices(vertices);
        let vertex_buffer = cast_words(words.as_slice());
        let index_buffer = cast_words(indices.as_slice());
        (vertex_buffer, index_buffer)
    }

    /// The name that the mesh goes by in diagnostics.
    pub fn desc(&self) -> (desc: &str)
        ensures
            desc@ == self@.desc,
    {
        self.desc.as_str()
    }

    /// The vertices.
    pub fn vertices(&self) -> (vertices: &[PureVertex])
        ensures
            vertices@ == self@.vertices,
    {
        self.vertices.as_slice()
    }

    /// The indices: a flat triangle list into the vertices.
    pub fn indices(&self) -> (indices: &[u32])
        ensures
            indices@ == self@.indices,
            valid_geometry(self@.vertices, self@.indices),
    {
        proof {
            use_type_invariant(self);
        }
        self.indices.as_slice()
    }

    /// The contents of the vertex buffer: the vertices as the device reads
    /// them.
    pub fn vertex_buffer(&self) -> (bytes: &[u8])
        ensures
            bytes@ == self@.vertex_buffer,
            bytes@ == vertex_bytes(self@.vertices),
    {
        proof {
            use_type_invariant(self);
        }
        self.vertex_buffer.as_slice()
    }

    /// The contents of the index buffer: the indices as the device reads
    /// them.
    pub fn index_buffer(&self) -> (bytes: &[u8])
        ensures
            bytes@ == self@.index_buffer,
            bytes@ == index_bytes(self@.indices),
    {
        proof {
            use_type_invariant(self);
        }
        self.index_buffer.as_slice()
    }

    /// Position, in the scene's object list, of the object that this mesh
    /// belongs to.
    pub fn parent_index(&self) -> (index: usize)
        ensures
            index == self@.parent_index,
    {
        self.parent_index
    }

    /// Position, in the scene's component list, of the instance component
    /// that places the copies of this mesh.
    pub fn instance_component_index(&self) -> (index: usize)
        ensures
            index == self@.instance_component_index,
    {
        self.instance_component_index
    }

    /// How many vertices the mesh has: the length of `vertices()`.
    pub fn num_vertices(&self) -> (n: usize)
        ensures
            n == self@.vertices.len(),
    {
        self.vertices.len()
    }

    /// How many indices a draw of this mesh runs through.
    pub fn num_indices(&self) -> (n: u32)
        ensures
            n == self@.indices.len(),
            self@.wf(),
    {
        proof {
            use_type_invariant(self);
        }
        self.num_indices
    }
}

impl Component for MeshComponent {
    open spec fn renderable(&self) -> ComponentView {
        ComponentView::Mesh(self@)
    }

    fn as_renderable(&self) -> (r: Renderable<'_>) {
        proof {
            use_type_invariant(self);
        }
        Renderable::Mesh(self)
    }
}

} // verus!
