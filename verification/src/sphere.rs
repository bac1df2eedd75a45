//! The structural core of the sphere builder: dispatch over the two base
//! topologies (cube-derived and icosahedron-derived), and the assembly of
//! the triangle index buffer from the base-topology collaborator, one base
//! face at a time, in face order.
//!
//! The base topology itself comes from the `hexasphere` crate: it yields the
//! raw unit-sphere points and, per base face, a block of triangle indices.
//! Those calls stand behind trusted wrappers below; everything assembled on
//! top of them is verified. The floating-point work per raw point (noise
//! sampling, radial displacement, UV from inclination/azimuth, colors) is
//! carried out by the embedding application.

use crate::mesh::attribute_error;
use crate::mesh::attributes_fit;
use crate::mesh::colors_view;
use crate::mesh::MeshBuffers;
use crate::mesh::MeshBuildError;
use hexasphere::shapes::CubeSphere;
use hexasphere::shapes::IcoSphere;
use vstd::prelude::*;

verus! {

/// Which base polyhedron the sphere subdivides, and how many times each
/// base edge is split.
#[derive(Clone, Copy, Debug, PartialEq, Eq, Structural)]
pub enum NoisySphereKind {
    /// Cube-derived topology: 8 base vertices, 12 base faces.
    Cubed {
        /// Number of splits applied to each base edge.
        subdivisions: u32,
    },
    /// Icosahedron-derived topology: 12 base vertices, 20 base faces.
    Ico {
        /// Number of splits applied to each base edge.
        subdivisions: u32,
    },
}

impl NoisySphereKind {
    /// Whether the cube-derived topology was chosen.
    pub open spec fn is_cubed(self) -> bool {
        self is Cubed
    }

    /// The subdivision level of the chosen topology.
    pub open spec fn level(self) -> nat {
        match self {
            NoisySphereKind::Cubed { subdivisions } => subdivisions as nat,
            NoisySphereKind::Ico { subdivisions } => subdivisions as nat,
        }
    }

    /// How many base faces the topology iterates when emitting indices.
    pub open spec fn face_count(self) -> int {
        if self is Cubed {
            12
        } else {
            20
        }
    }

    /// The number of base faces: 12 for the cube-derived topology, 20 for
    /// the icosahedron-derived one.
    pub fn faces(&self) -> (f: usize)
        ensures
            f == self.face_count(),
    {
        match self {
            NoisySphereKind::Cubed { .. } => 12,
            NoisySphereKind::Ico { .. } => 20,
        }
    }

    /// The configured subdivision level.
    pub fn subdivisions(&self) -> (s: u32)
        ensures
            s as nat == self.level(),
    {
        match self {
            NoisySphereKind::Cubed { subdivisions } => *subdivisions,
            NoisySphereKind::Ico { subdivisions } => *subdivisions,
        }
    }
}

impl Default for NoisySphereKind {
    /// The default topology: cube-derived, five subdivisions.
    fn default() -> (d: Self)
        ensures
            d == (NoisySphereKind::Cubed { subdivisions: 5u32 }),
    {
        NoisySphereKind::Cubed { subdivisions: 5 }
    }
}

/// A cube-derived base topology of hexasphere, held opaquely: Verus refuses
/// the declaration of `hexasphere::Subdivided` itself (its generics carry an
/// outside trait bound), so the collection lives in a private field and is
/// reached only through the trusted wrappers below.
#[verifier::external_body]
pub struct CubeTopology {
    inner: CubeSphere<()>,
}

/// An icosahedron-derived base topology of hexasphere, held opaquely, as
/// [`CubeTopology`] is.
#[verifier::external_body]
pub struct IcoTopology {
    inner: IcoSphere<()>,
}

/// The subdivision level a cube-derived topology was created with.
pub uninterp spec fn cube_topology_level(t: CubeTopology) -> nat;

/// The subdivision level an icosahedron-derived topology was created with.
pub uninterp spec fn ico_topology_level(t: IcoTopology) -> nat;

/// The number of raw points of the base topology with the given shape and
/// level; a pure function of the two, as the topology construction is.
pub uninterp spec fn topo_point_count(cubed: bool, level: nat) -> nat;

/// The number of triangle indices each base face of the topology
/// contributes to the index buffer.
pub uninterp spec fn topo_indices_per_face(cubed: bool, level: nat) -> nat;

/// The block of triangle indices one base face contributes, in the order
/// the base-topology collaborator emits it.
pub uninterp spec fn topo_face_indices(cubed: bool, level: nat, face: nat) -> Seq<u32>;

/// Relies on hexasphere's `Subdivided::new` for the cube base shape
/// (`CubeSphere`): a pure construction from the subdivision level; the
/// per-vertex generator is the trivial one, as only the structure is used.
#[verifier::external_body]
fn new_cube_topology(level: u32) -> (t: CubeTopology)
    ensures
        cube_topology_level(t) == level,
{
    CubeTopology { inner: CubeSphere::new(level as usize, |_| ()) }
}

/// Relies on hexasphere's `Subdivided::new` for the icosahedron base shape
/// (`IcoSphere`): a pure construction from the subdivision level.
#[verifier::external_body]
fn new_ico_topology(level: u32) -> (t: IcoTopology)
    ensures
        ico_topology_level(t) == level,
{
    IcoTopology { inner: IcoSphere::new(level as usize, |_| ()) }
}

/// Relies on hexasphere's `Subdivided::raw_points`: the number of vertices
/// of the subdivided topology, determined by base shape and level alone.
#[verifier::external_body]
fn cube_point_count(t: &CubeTopology) -> (n: usize)
    ensures
        n as nat == topo_point_count(true, cube_topology_level(*t)),
{
    t.inner.raw_points().len()
}

/// Relies on hexasphere's `Subdivided::raw_points`: the number of vertices
/// of the subdivided topology, determined by base shape and level alone.
#[verifier::external_body]
fn ico_point_count(t: &IcoTopology) -> (n: usize)
    ensures
        n as nat == topo_point_count(false, ico_topology_level(*t)),
{
    t.inner.raw_points().len()
}

/// Relies on hexasphere's `Subdivided::get_indices`: it appends the indices
/// of the subdivided form of one main triangle (a pure function of base
/// shape, level and face), every appended element is an index into
/// `raw_points()`, each face appends the same number of elements, and the
/// elements come in triples, one triple per emitted triangle.
#[verifier::external_body]
fn cube_append_face_indices(t: &CubeTopology, face: usize, buffer: &mut Vec<u32>)
    requires
        face < 12,
    ensures
        final(buffer)@ == old(buffer)@ + topo_face_indices(true, cube_topology_level(*t), face as nat),
        final(buffer)@.len() == old(buffer)@.len() + topo_indices_per_face(
            true,
            cube_topology_level(*t),
        ),
        old(buffer)@.len() % 3 == 0 ==> final(buffer)@.len() % 3 == 0,
        forall|j: int|
            old(buffer)@.len() <= j < final(buffer)@.len() ==> (final(buffer)@[j] as nat) < topo_point_count(
                true,
                cube_topology_level(*t),
            ),
{
    t.inner.get_indices(face, buffer)
}

/// Relies on hexasphere's `Subdivided::get_indices`, as the cube-shaped
/// wrapper above does, for the icosahedron base shape.
#[verifier::external_body]
fn ico_append_face_indices(t: &IcoTopology, face: usize, buffer: &mut Vec<u32>)
    requires
        face < 20,
    ensures
        final(buffer)@ == old(buffer)@ + topo_face_indices(false, ico_topology_level(*t), face as nat),
        final(buffer)@.len() == old(buffer)@.len() + topo_indices_per_face(
            false,
            ico_topology_level(*t),
        ),
        old(buffer)@.len() % 3 == 0 ==> final(buffer)@.len() % 3 == 0,
        forall|j: int|
            old(buffer)@.len() <= j < final(buffer)@.len() ==> (final(buffer)@[j] as nat) < topo_point_count(
                false,
                ico_topology_level(*t),
            ),
{
    t.inner.get_indices(face, buffer)
}

/// The concatenation of the index blocks of the first `faces` base faces.
pub open spec fn sphere_index_prefix(cubed: bool, level: nat, faces: nat) -> Seq<u32>
    decreases faces,
{
    if faces == 0 {
        Seq::empty()
    } else {
        sphere_index_prefix(cubed, level, (faces - 1) as nat)
            + topo_face_indices(cubed, level, (faces - 1) as nat)
    }
}

/// The whole index buffer of the sphere: every base face's contribution, in
/// face order.
pub open spec fn sphere_index_seq(kind: NoisySphereKind) -> Seq<u32> {
    sphere_index_prefix(kind.is_cubed(), kind.level(), kind.face_count() as nat)
}

fn cube_indices(t: &CubeTopology) -> (r: Vec<u32>)
    ensures
        r@ == sphere_index_prefix(true, cube_topology_level(*t), 12),
        r@.len() == 12 * topo_indices_per_face(true, cube_topology_level(*t)),
        r@.len() % 3 == 0,
        forall|k: int|
            0 <= k < r@.len() ==> (r@[k] as nat) < topo_point_count(
                true,
                cube_topology_level(*t),
            ),
{
    let ghost lvl = cube_topology_level(*t);
    let mut r: Vec<u32> = Vec::new();
    let mut face: usize = 0;
    while face < 12
        invariant
            face <= 12,
            r@ == sphere_index_prefix(true, lvl, face as nat),
            r@.len() == face * topo_indices_per_face(true, lvl),
            r@.len() % 3 == 0,
            lvl == cube_topology_level(*t),
            forall|k: int| 0 <= k < r@.len() ==> (r@[k] as nat) < topo_point_count(true, lvl),
        decreases 12 - face,
    {
        cube_append_face_indices(t, face, &mut r);
        proof {
            assert((face + 1) * topo_indices_per_face(true, lvl) == face * topo_indices_per_face(
                true,
                lvl,
            ) + topo_indices_per_face(true, lvl)) by (nonlinear_arith);
        }
        face = face + 1;
    }
    r
}

fn ico_indices(t: &IcoTopology) -> (r: Vec<u32>)
    ensures
        r@ == sphere_index_prefix(false, ico_topology_level(*t), 20),
        r@.len() == 20 * topo_indices_per_face(false, ico_topology_level(*t)),
        r@.len() % 3 == 0,
        forall|k: int|
            0 <= k < r@.len() ==> (r@[k] as nat) < topo_point_count(
                false,
                ico_topology_level(*t),
            ),
{
    let ghost lvl = ico_topology_level(*t);
    let mut r: Vec<u32> = Vec::new();
    let mut face: usize = 0;
    while face < 20
        invariant
            face <= 20,
            r@ == sphere_index_prefix(false, lvl, face as nat),
            r@.len() == face * topo_indices_per_face(false, lvl),
            r@.len() % 3 == 0,
            lvl == ico_topology_level(*t),
            forall|k: int| 0 <= k < r@.len() ==> (r@[k] as nat) < topo_point_count(false, lvl),
        decreases 20 - face,
    {
        ico_append_face_indices(t, face, &mut r);
        proof {
            assert((face + 1) * topo_indices_per_face(false, lvl) == face * topo_indices_per_face(
                false,
                lvl,
            ) + topo_indices_per_face(false, lvl)) by (nonlinear_arith);
        }
        face = face + 1;
    }
    r
}

/// Builds the triangle index buffer of the sphere: the base-topology
/// collaborator is asked once per base face, in face order, and each face's
/// block is appended to the buffer.
///
/// The buffer's length is `face_count * topo_indices_per_face`, a multiple
/// of three, and every index refers to one of the topology's raw points.
pub fn sphere_indices(kind: &NoisySphereKind) -> (r: Vec<u32>)
    ensures
        r@ == sphere_index_seq(*kind),
        r@.len() == kind.face_count() * topo_indices_per_face(kind.is_cubed(), kind.level()),
        r@.len() % 3 == 0,
        forall|k: int|
            0 <= k < r@.len() ==> (r@[k] as nat) < topo_point_count(
                kind.is_cubed(),
                kind.level(),
            ),
{
    match kind {
        NoisySphereKind::Cubed { subdivisions } => {
            let t = new_cube_topology(*subdivisions);
            cube_indices(&t)
        },
        NoisySphereKind::Ico { subdivisions } => {
            let t = new_ico_topology(*subdivisions);
            ico_indices(&t)
        },
    }
}

/// The number of raw points of the configured base topology; the positions
/// handed to the assembly must have exactly this many entries.
pub fn sphere_point_count(kind: &NoisySphereKind) -> (n: usize)
    ensures
        n as nat == topo_point_count(kind.is_cubed(), kind.level()),
{
    match kind {
        NoisySphereKind::Cubed { subdivisions } => {
            let t = new_cube_topology(*subdivisions);
            cube_point_count(&t)
        },
        NoisySphereKind::Ico { subdivisions } => {
            let t = new_ico_topology(*subdivisions);
            ico_point_count(&t)
        },
    }
}

/// Assembles the sphere's mesh buffer set from the attribute arrays the
/// caller filled per raw point (positions displaced radially by the noise
/// sample, UVs from inclination/azimuth, colors when requested): checks
/// that the arrays are parallel to the topology's point count, and pairs
/// them with the sphere's index buffer.
///
/// Returns the first mismatch in check order, or a well-formed buffer set
/// holding exactly the given arrays and the indices of [`sphere_index_seq`].
pub fn sphere_mesh_buffers<P, U, C>(
    kind: &NoisySphereKind,
    vertex_colors: bool,
    positions: Vec<P>,
    uvs: Vec<U>,
    colors: Option<Vec<C>>,
) -> (r: Result<MeshBuffers<P, U, C>, MeshBuildError>)
    ensures
        r is Ok <==> attributes_fit(
            topo_point_count(kind.is_cubed(), kind.level()) as int,
            vertex_colors,
            positions@,
            uvs@,
            colors_view(colors),
        ),
        r matches Ok(m) ==> m.positions == positions && m.uvs == uvs && m.colors == colors
            && m.indices@ == sphere_index_seq(*kind) && m.wf(),
        r matches Err(e) ==> Some(e) == attribute_error(
            topo_point_count(kind.is_cubed(), kind.level()) as int,
            vertex_colors,
            positions@,
            uvs@,
            colors_view(colors),
        ),
{
    let expected = sphere_point_count(kind);
    if positions.len() != expected {
        return Err(MeshBuildError::PositionCount);
    }
    if uvs.len() != positions.len() {
        return Err(MeshBuildError::UvCount);
    }
    if vertex_colors != colors.is_some() {
        return Err(MeshBuildError::ColorPresence);
    }
    match &colors {
        Some(c) => {
            if c.len() != positions.len() {
                return Err(MeshBuildError::ColorCount);
            }
        },
        None => {},
    }
    let indices = sphere_indices(kind);
    Ok(MeshBuffers { positions, uvs, colors, indices })
}

/// The structural side of the sphere build is a function of the topology
/// kind alone: no other configuration (offset, sampler, radius, vertex
/// colors) enters it, so any two index buffers built for the same kind are
/// equal.
pub proof fn lemma_sphere_structure_deterministic(
    kind: NoisySphereKind,
    i1: Seq<u32>,
    i2: Seq<u32>,
)
    requires
        i1 == sphere_index_seq(kind),
        i2 == sphere_index_seq(kind),
    ensures
        i1 == i2,
{
}

} // verus!
