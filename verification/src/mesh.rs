//! The buffer set a build call produces, and its well-formedness invariant:
//! parallel attribute arrays of equal length, an optional color array that is
//! present exactly when vertex colors were requested, and a triangle index
//! buffer whose entries all refer to existing vertices.
//!
//! The element types are generic: the verified core guarantees the structure
//! of the buffers, while the embedding application chooses the concrete
//! vector and color representations and fills them per vertex.

use vstd::prelude::*;

verus! {

/// The mesh output of one build call: ordered parallel attribute arrays and
/// a flat triangle-list index buffer. Normals are not part of the set; as in
/// the builders' contract they are recomputed from the final displaced
/// geometry by the consuming rendering layer.
#[derive(Debug)]
pub struct MeshBuffers<P, U, C> {
    /// One entry per vertex: the displaced position.
    pub positions: Vec<P>,
    /// One entry per vertex: the UV coordinate, parallel to `positions`.
    pub uvs: Vec<U>,
    /// One entry per vertex when vertex colors were requested, else absent.
    pub colors: Option<Vec<C>>,
    /// Triangle list: each consecutive triple refers to three vertices.
    pub indices: Vec<u32>,
}

impl<P, U, C> MeshBuffers<P, U, C> {
    /// The structural invariant of a buffer set: parallel arrays match the
    /// vertex count, the index count is a multiple of three, and every index
    /// refers to an existing vertex.
    pub open spec fn wf(self) -> bool {
        &&& self.uvs@.len() == self.positions@.len()
        &&& match self.colors {
            Some(c) => c@.len() == self.positions@.len(),
            None => true,
        }
        &&& self.indices@.len() % 3 == 0
        &&& forall|k: int|
            0 <= k < self.indices@.len() ==> (self.indices@[k] as int) < self.positions@.len()
    }
}

/// Why an attribute set was rejected at assembly.
#[derive(Clone, Copy, Debug, PartialEq, Eq, Structural)]
pub enum MeshBuildError {
    /// The position array does not have one entry per topology vertex.
    PositionCount,
    /// The UV array is not parallel to the position array.
    UvCount,
    /// A color array was supplied without the vertex-color toggle, or the
    /// toggle was set and no color array came.
    ColorPresence,
    /// The color array is not parallel to the position array.
    ColorCount,
}

/// Whether the attribute arrays fit a topology of `vertex_count` vertices
/// with the given vertex-color request.
pub open spec fn attributes_fit<P, U, C>(
    vertex_count: int,
    vertex_colors: bool,
    positions: Seq<P>,
    uvs: Seq<U>,
    colors: Option<Seq<C>>,
) -> bool {
    &&& positions.len() == vertex_count
    &&& uvs.len() == vertex_count
    &&& vertex_colors <==> colors is Some
    &&& match colors {
        Some(c) => c.len() == vertex_count,
        None => true,
    }
}

/// The sequences held by an optional color array.
pub open spec fn colors_view<C>(colors: Option<Vec<C>>) -> Option<Seq<C>> {
    match colors {
        Some(c) => Some(c@),
        None => None,
    }
}

/// The first complaint raised against an attribute set, in the order the
/// assembly checks them, or `None` when the set fits.
pub open spec fn attribute_error<P, U, C>(
    vertex_count: int,
    vertex_colors: bool,
    positions: Seq<P>,
    uvs: Seq<U>,
    colors: Option<Seq<C>>,
) -> Option<MeshBuildError> {
    if positions.len() != vertex_count {
        Some(MeshBuildError::PositionCount)
    } else if uvs.len() != positions.len() {
        Some(MeshBuildError::UvCount)
    } else if vertex_colors != (colors is Some) {
        Some(MeshBuildError::ColorPresence)
    } else if colors is Some && colors->0.len() != positions.len() {
        Some(MeshBuildError::ColorCount)
    } else {
        None
    }
}

} // verus!
