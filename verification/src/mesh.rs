//! Layout of the textured quad on which the output image is drawn.
//!
//! Each vertex is five floats: a position (three floats) followed by a
//! texture coordinate (two floats). Attribute 0 reads the position and
//! attribute 1 the texture coordinate, both with a stride of one vertex.

use vstd::prelude::*;

verus! {

/// Size of an `f32` or an `i32`, in bytes.
pub const SCALAR_BYTES: usize = 4;
/// Floats per vertex.
pub const FLOATS_PER_VERTEX: usize = 5;
/// Floats of the position that starts each vertex.
pub const POSITION_FLOATS: usize = 3;
/// Floats of the texture coordinate that follows the position.
pub const TEXCOORD_FLOATS: usize = 2;

/// One vertex attribute: where its components lie in the vertex buffer.
#[derive(Clone, Copy, Debug, PartialEq, Eq)]
pub struct AttribPointer {
    pub index: u32,
    pub components: i32,
    pub stride_bytes: i32,
    pub offset_bytes: usize,
}

/// What uploading a mesh needs to know of its data.
#[derive(Debug)]
pub struct MeshLayout {
    /// Length of the vertex data, in floats.
    pub num_vertices: i32,
    /// Number of indices, which a draw call reads.
    pub num_indices: i32,
    /// Size of the index data, in bytes.
    pub index_bytes: isize,
    /// Size of the vertex data, in bytes.
    pub vertex_bytes: isize,
    /// The vertex attributes, to be enabled in order.
    pub attributes: Vec<AttribPointer>,
}

/// The two attributes of a vertex: position then texture coordinate.
pub open spec fn quad_attributes() -> Seq<AttribPointer> {
    seq![
        AttribPointer { index: 0, components: 3, stride_bytes: 20, offset_bytes: 0 },
        AttribPointer { index: 1, components: 2, stride_bytes: 20, offset_bytes: 12 },
    ]
}

/// The layout of a mesh with `vertex_floats` floats of vertex data and
/// `index_count` indices. The counts are converted to the GL integer types
/// as Rust's `as` does, wrapping past their range.
pub fn mesh_layout(vertex_floats: usize, index_count: usize) -> (m: MeshLayout)
    requires
        vertex_floats * SCALAR_BYTES <= usize::MAX,
        index_count * SCALAR_BYTES <= usize::MAX,
    ensures
        m.num_vertices == vertex_floats as i32,
        m.num_indices == index_count as i32,
        m.index_bytes == (index_count * SCALAR_BYTES) as isize,
        m.vertex_bytes == (vertex_floats * SCALAR_BYTES) as isize,
        m.attributes@ == quad_attributes(),
{
    let stride: i32 = (SCALAR_BYTES * FLOATS_PER_VERTEX) as i32;
    let mut attributes: Vec<AttribPointer> = Vec::new();
    attributes.push(AttribPointer { index: 0, components: POSITION_FLOATS as i32, stride_bytes: stride, offset_bytes: 0 });
    attributes.push(AttribPointer {
        index: 1,
        components: TEXCOORD_FLOATS as i32,
        stride_bytes: stride,
        offset_bytes: SCALAR_BYTES * POSITION_FLOATS,
    });
    proof {
        assert(attributes@ =~= quad_attributes());
    }
    MeshLayout {
        num_vertices: vertex_floats as i32,
        num_indices: index_count as i32,
        index_bytes: (index_count * SCALAR_BYTES) as isize,
        vertex_bytes: (vertex_floats * SCALAR_BYTES) as isize,
        attributes,
    }
}

/// Each vertex is five floats (20 bytes): attribute 0 reads three of them
/// from its start, attribute 1 the next two, 12 bytes in.
pub proof fn lemma_quad_attribute_layout()
    ensures
        quad_attributes().len() == 2,
        quad_attributes()[0].index == 0 && quad_attributes()[1].index == 1,
        quad_attributes()[0].components + quad_attributes()[1].components == FLOATS_PER_VERTEX,
        quad_attributes()[0].components == POSITION_FLOATS,
        quad_attributes()[0].stride_bytes == SCALAR_BYTES * FLOATS_PER_VERTEX,
        quad_attributes()[1].stride_bytes == SCALAR_BYTES * FLOATS_PER_VERTEX,
        quad_attributes()[0].offset_bytes == 0,
        quad_attributes()[1].offset_bytes == SCALAR_BYTES * POSITION_FLOATS,
{
}

} // verus!
