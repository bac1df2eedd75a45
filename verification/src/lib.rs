//! Procedurally displaced surface meshes: a subdivided plane and a subdivided
//! sphere, whose vertex heights/radii are perturbed by a pluggable noise
//! sampler.
//!
//! The verified core of this crate is the structural side of mesh building:
//! the enumeration of grid vertices, the exact triangle index buffers, the
//! parallel-array invariants of the produced buffer set, and the assembly of
//! sphere indices from the base-topology collaborator. The floating-point
//! evaluation of vertex positions, noise samples and colors is carried out by
//! the embedding application on top of the structures built here.

pub mod mesh;
pub mod plane;
pub mod sphere;

pub use mesh::MeshBuffers;
pub use mesh::MeshBuildError;
pub use plane::GridCoord;
pub use sphere::NoisySphereKind;
