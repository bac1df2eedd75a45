//! The structural core of the plane builder: the regular grid of
//! `(subdivisions + 2) x (subdivisions + 2)` vertices and the triangle
//! index buffer connecting them into a quad grid.
//!
//! A vertex at grid coordinate `(x, z)` has parametric (UV) coordinates
//! `(x / (n - 1), z / (n - 1))` where `n` is the grid side; this module
//! enumerates the grid coordinates exactly, so that the embedding
//! application only evaluates the floating-point formulas per vertex.

use crate::mesh::attribute_error;
use crate::mesh::attributes_fit;
use crate::mesh::colors_view;
use crate::mesh::MeshBuffers;
use crate::mesh::MeshBuildError;
use vstd::prelude::*;
use vstd::arithmetic::div_mod::lemma_fundamental_div_mod_converse_div;
use vstd::arithmetic::div_mod::lemma_fundamental_div_mod_converse_mod;
use vstd::arithmetic::div_mod::lemma_mod_division_less_than_divisor;
use vstd::arithmetic::div_mod::lemma_multiply_divide_lt;
use vstd::arithmetic::div_mod::lemma_div_pos_is_pos;

verus! {

/// Number of vertices along each axis of the plane grid.
pub open spec fn grid_side(subdivisions: u32) -> int {
    subdivisions + 2
}

/// Total number of vertices of the subdivided plane: `(subdivisions + 2)^2`.
pub open spec fn plane_vertex_count(subdivisions: u32) -> int {
    grid_side(subdivisions) * grid_side(subdivisions)
}

/// Total number of triangle indices of the subdivided plane:
/// `6 * (subdivisions + 1)^2` (two triangles per grid cell).
pub open spec fn plane_index_count(subdivisions: u32) -> int {
    6 * ((grid_side(subdivisions) - 1) * (grid_side(subdivisions) - 1))
}

/// The `k`-th triangle index of the plane. The cell `k / 6` at cell
/// coordinates `(cx, cz)` has its lower-left corner at vertex
/// `quad = cz * n + cx`; its two triangles are emitted as
/// `(quad + n + 1, quad + 1, quad + n)` and `(quad, quad + n, quad + 1)`,
/// the winding that faces along the plane's normal.
pub open spec fn plane_index_at(subdivisions: u32, k: int) -> int {
    let n = grid_side(subdivisions);
    let cell = k / 6;
    let j = k % 6;
    let cz = cell / (n - 1);
    let cx = cell % (n - 1);
    let quad = cz * n + cx;
    if j == 0 {
        quad + n + 1
    } else if j == 1 {
        quad + 1
    } else if j == 2 {
        quad + n
    } else if j == 3 {
        quad
    } else if j == 4 {
        quad + n
    } else {
        quad + 1
    }
}

/// The whole triangle index buffer of the plane, in emission order.
pub open spec fn plane_index_seq(subdivisions: u32) -> Seq<u32> {
    Seq::new(
        plane_index_count(subdivisions) as nat,
        |k: int| plane_index_at(subdivisions, k) as u32,
    )
}

/// A lattice coordinate of one grid vertex. The vertex at row `z`, column
/// `x` is the `z * n + x`-th vertex of the grid, `n` the grid side.
#[derive(Clone, Copy, Debug, PartialEq, Eq, Structural)]
pub struct GridCoord {
    /// Column, in `[0, n)`; UV `u = x / (n - 1)`.
    pub x: u32,
    /// Row, in `[0, n)`; UV `v = z / (n - 1)`.
    pub z: u32,
}

/// The grid coordinate of the `i`-th vertex in build order (row-major).
pub open spec fn grid_coord_at(subdivisions: u32, i: int) -> GridCoord {
    let n = grid_side(subdivisions);
    GridCoord { x: (i % n) as u32, z: (i / n) as u32 }
}

/// The grid coordinates of all vertices, in build order.
pub open spec fn grid_coord_seq(subdivisions: u32) -> Seq<GridCoord> {
    Seq::new(plane_vertex_count(subdivisions) as nat, |i: int| grid_coord_at(subdivisions, i))
}

/// Enumerates the lattice coordinates of the plane's vertices in the order
/// in which the builder emits vertices: row-major, row `z` outermost.
///
/// The UV coordinates of vertex `i` are `(r[i].x / (n-1), r[i].z / (n-1))`,
/// both within `[0, 1]`; vertex `0` carries UV `(0, 0)` and the last vertex
/// carries UV `(1, 1)`.
pub fn plane_grid_coords(subdivisions: u32) -> (r: Vec<GridCoord>)
    requires
        plane_vertex_count(subdivisions) <= u32::MAX,
    ensures
        r@ == grid_coord_seq(subdivisions),
        r@.len() == plane_vertex_count(subdivisions),
        forall|i: int| 0 <= i < r@.len() ==> r@[i].x < grid_side(subdivisions)
            && r@[i].z < grid_side(subdivisions),
{
    proof {
        assert(subdivisions + 2 <= (subdivisions + 2) * (subdivisions + 2))
            by (nonlinear_arith);
    }
    let n: u32 = subdivisions + 2;
    let mut r: Vec<GridCoord> = Vec::new();
    let mut z: u32 = 0;
    while z < n
        invariant
            n == grid_side(subdivisions),
            plane_vertex_count(subdivisions) <= u32::MAX,
            z <= n,
            r@.len() == z * n,
            forall|i: int| 0 <= i < r@.len() ==> r@[i] == grid_coord_at(subdivisions, i),
        decreases n - z,
    {
        let mut x: u32 = 0;
        while x < n
            invariant
                n == grid_side(subdivisions),
                plane_vertex_count(subdivisions) <= u32::MAX,
                z < n,
                x <= n,
                r@.len() == z * n + x,
                forall|i: int| 0 <= i < r@.len() ==> r@[i] == grid_coord_at(subdivisions, i),
            decreases n - x,
        {
            proof {
                lemma_row_major_in_range(z as int, x as int, n as int);
                lemma_fundamental_div_mod_converse_div(
                    z * n + x,
                    n as int,
                    z as int,
                    x as int,
                );
                lemma_fundamental_div_mod_converse_mod(
                    z * n + x,
                    n as int,
                    z as int,
                    x as int,
                );
            }
            r.push(GridCoord { x, z });
            x = x + 1;
        }
        proof {
            assert((z + 1) * n == z * n + n) by (nonlinear_arith);
        }
        z = z + 1;
    }
    proof {
        assert(r@ =~= grid_coord_seq(subdivisions));
        assert forall|i: int| 0 <= i < r@.len() implies r@[i].x < grid_side(subdivisions)
            && r@[i].z < grid_side(subdivisions) by {
            lemma_coord_bounds(subdivisions, i);
        }
    }
    r
}

/// Builds the triangle index buffer of the subdivided plane: two triangles
/// for each grid cell, cells visited row-major, exactly as
/// [`plane_index_seq`] lays them out.
///
/// Every emitted index refers to an existing vertex, so the buffer is valid
/// for a vertex array of length `(subdivisions + 2)^2`.
pub fn plane_indices(subdivisions: u32) -> (r: Vec<u32>)
    requires
        plane_vertex_count(subdivisions) <= u32::MAX,
    ensures
        r@ == plane_index_seq(subdivisions),
        r@.len() == plane_index_count(subdivisions),
        forall|k: int| 0 <= k < r@.len() ==> (r@[k] as int) < plane_vertex_count(subdivisions),
{
    proof {
        assert(subdivisions + 2 <= (subdivisions + 2) * (subdivisions + 2))
            by (nonlinear_arith);
    }
    let n: u32 = subdivisions + 2;
    let mut r: Vec<u32> = Vec::new();
    let mut z: u32 = 0;
    while z < n - 1
        invariant
            n == grid_side(subdivisions),
            plane_vertex_count(subdivisions) <= u32::MAX,
            z <= n - 1,
            r@.len() == 6 * (z * (n - 1)),
            forall|k: int| 0 <= k < r@.len() ==> r@[k]
                == plane_index_at(subdivisions, k) as u32,
        decreases n - 1 - z,
    {
        let mut x: u32 = 0;
        while x < n - 1
            invariant
                n == grid_side(subdivisions),
                plane_vertex_count(subdivisions) <= u32::MAX,
                z < n - 1,
                x <= n - 1,
                r@.len() == 6 * (z * (n - 1) + x),
                forall|k: int| 0 <= k < r@.len() ==> r@[k]
                    == plane_index_at(subdivisions, k) as u32,
            decreases n - 1 - x,
        {
            proof {
                lemma_quad_in_range(z as int, x as int, n as int);
            }
            let quad: u32 = z * n + x;
            let ghost len0: int = r@.len() as int;
            let ghost celli: int = z * (n - 1) + x;
            r.push(quad + n + 1);
            r.push(quad + 1);
            r.push(quad + n);
            r.push(quad);
            r.push(quad + n);
            r.push(quad + 1);
            proof {
                assert(len0 == 6 * celli);
                assert forall|j: int| 0 <= j < 6 implies #[trigger] ((len0 + j) / 6) == celli
                    && (len0 + j) % 6 == j by {
                    lemma_fundamental_div_mod_converse_div(6 * celli + j, 6, celli, j);
                    lemma_fundamental_div_mod_converse_mod(6 * celli + j, 6, celli, j);
                }
                lemma_fundamental_div_mod_converse_div(celli, n - 1, z as int, x as int);
                lemma_fundamental_div_mod_converse_mod(celli, n - 1, z as int, x as int);
                assert forall|k: int| 0 <= k < r@.len() implies r@[k]
                    == plane_index_at(subdivisions, k) as u32 by {
                    if len0 <= k {
                        assert((k / 6) / (n - 1) == z as int);
                        assert((k / 6) % (n - 1) == x as int);
                    }
                }
            }
            x = x + 1;
        }
        proof {
            assert((z + 1) * (n - 1) == z * (n - 1) + (n - 1)) by (nonlinear_arith);
        }
        z = z + 1;
    }
    proof {
        assert(r@ =~= plane_index_seq(subdivisions));
        assert forall|k: int| 0 <= k < r@.len() implies (r@[k] as int)
            < plane_vertex_count(subdivisions) by {
            lemma_plane_index_in_range(subdivisions, k);
        }
    }
    r
}

/// Assembles the plane's mesh buffer set from the attribute arrays the
/// caller filled per vertex (positions displaced by the noise sample, UVs,
/// and colors when requested): checks that the arrays are parallel to the
/// grid's vertex count, and pairs them with the plane's index buffer.
///
/// Returns the first mismatch in check order, or a well-formed buffer set
/// holding exactly the given arrays and the indices of [`plane_index_seq`].
pub fn plane_mesh_buffers<P, U, C>(
    subdivisions: u32,
    vertex_colors: bool,
    positions: Vec<P>,
    uvs: Vec<U>,
    colors: Option<Vec<C>>,
) -> (r: Result<MeshBuffers<P, U, C>, MeshBuildError>)
    requires
        plane_vertex_count(subdivisions) <= u32::MAX,
    ensures
        r is Ok <==> attributes_fit(
            plane_vertex_count(subdivisions),
            vertex_colors,
            positions@,
            uvs@,
            colors_view(colors),
        ),
        r matches Ok(m) ==> m.positions == positions && m.uvs == uvs && m.colors == colors
            && m.indices@ == plane_index_seq(subdivisions) && m.wf(),
        r matches Err(e) ==> Some(e) == attribute_error(
            plane_vertex_count(subdivisions),
            vertex_colors,
            positions@,
            uvs@,
            colors_view(colors),
        ),
{
    proof {
        assert(subdivisions + 2 <= (subdivisions + 2) * (subdivisions + 2))
            by (nonlinear_arith);
    }
    let n: u32 = subdivisions + 2;
    let expected: u32 = n * n;
    if positions.len() != expected as usize {
        return Err(MeshBuildError::PositionCount);
    }
    if uvs.len() != positions.len() {
        return Err(MeshBuildError::UvCount);
    }
    if vertex_colors != colors.is_some() {
        return Err(MeshBuildError::ColorPresence);
    }
    match &colors {
        Some(c) => {
            if c.len() != positions.len() {
                return Err(MeshBuildError::ColorCount);
            }
        },
        None => {},
    }
    let indices = plane_indices(subdivisions);
    proof {
        let t = (grid_side(subdivisions) - 1) * (grid_side(subdivisions) - 1);
        assert(6 * t == (2 * t) * 3);
        assert(((2 * t) * 3) % 3 == 0) by {
            vstd::arithmetic::div_mod::lemma_mod_multiples_basic(2 * t, 3);
        }
    }
    Ok(MeshBuffers { positions, uvs, colors, indices })
}

/// The structural side of the plane build is deterministic: any two grids
/// and any two index buffers built for the same subdivision count are equal.
pub proof fn lemma_plane_build_deterministic(
    subdivisions: u32,
    g1: Seq<GridCoord>,
    g2: Seq<GridCoord>,
    i1: Seq<u32>,
    i2: Seq<u32>,
)
    requires
        g1 == grid_coord_seq(subdivisions),
        g2 == grid_coord_seq(subdivisions),
        i1 == plane_index_seq(subdivisions),
        i2 == plane_index_seq(subdivisions),
    ensures
        g1 == g2,
        i1 == i2,
{
}

/// The UV corners of the grid: the first vertex sits at lattice `(0, 0)`
/// (UV `(0, 0)`), and the last at lattice `(n - 1, n - 1)` (UV `(1, 1)`,
/// the numerators equalling the denominator `n - 1`).
pub proof fn lemma_uv_corners(subdivisions: u32)
    ensures
        grid_coord_seq(subdivisions).first() == (GridCoord { x: 0, z: 0 }),
        grid_coord_seq(subdivisions).last() == (GridCoord {
            x: (grid_side(subdivisions) - 1) as u32,
            z: (grid_side(subdivisions) - 1) as u32,
        }),
{
    let n = grid_side(subdivisions);
    assert(0int % n == 0 && 0int / n == 0) by {
        lemma_mod_division_less_than_divisor(0int, n);
        vstd::arithmetic::div_mod::lemma_basic_div(0int, n);
    }
    let last = n * n - 1;
    assert(n * n - 1 == (n - 1) * n + (n - 1)) by (nonlinear_arith);
    lemma_fundamental_div_mod_converse_div(last, n, n - 1, n - 1);
    lemma_fundamental_div_mod_converse_mod(last, n, n - 1, n - 1);
}

/// Every triangle index of the plane refers to an existing vertex:
/// `plane_index_at` stays below `plane_vertex_count`.
pub proof fn lemma_plane_index_in_range(subdivisions: u32, k: int)
    requires
        0 <= k < plane_index_count(subdivisions),
    ensures
        0 <= plane_index_at(subdivisions, k) < plane_vertex_count(subdivisions),
{
    let n = grid_side(subdivisions);
    let cell = k / 6;
    let cz = cell / (n - 1);
    let cx = cell % (n - 1);
    assert(0 <= cell < (n - 1) * (n - 1)) by {
        lemma_div_pos_is_pos(k, 6);
        lemma_multiply_divide_lt(k, 6, (n - 1) * (n - 1));
    }
    assert(0 <= cx < n - 1) by {
        lemma_mod_division_less_than_divisor(cell, n - 1);
    }
    assert(0 <= cz < n - 1) by {
        lemma_div_pos_is_pos(cell, n - 1);
        lemma_multiply_divide_lt(cell, n - 1, n - 1);
    }
    lemma_quad_in_range(cz, cx, n);
}

/// For a grid cell at `(cx, cz)` with both below `n - 1`, the four corner
/// vertices of the cell, the largest of which is `cz * n + cx + n + 1`,
/// all lie below `n * n`.
proof fn lemma_quad_in_range(cz: int, cx: int, n: int)
    by (nonlinear_arith)
    requires
        0 <= cz <= n - 2,
        0 <= cx <= n - 2,
        2 <= n,
    ensures
        0 <= cz * n + cx,
        cz * n + cx + n + 1 <= n * n - 1,
{
}

/// Row-major positions stay within the vertex count: `z * n + x < n * n`
/// for `z, x < n`, and one full row further, `z * n + n <= n * n`.
proof fn lemma_row_major_in_range(z: int, x: int, n: int)
    by (nonlinear_arith)
    requires
        0 <= z < n,
        0 <= x < n,
    ensures
        z * n + x < n * n,
        z * n + n <= n * n,
        (z + 1) * n == z * n + n,
{
}

/// The grid coordinate of every vertex lies strictly inside the grid side.
proof fn lemma_coord_bounds(subdivisions: u32, i: int)
    requires
        0 <= i < plane_vertex_count(subdivisions),
    ensures
        grid_coord_at(subdivisions, i).x < grid_side(subdivisions),
        grid_coord_at(subdivisions, i).z < grid_side(subdivisions),
{
    let n = grid_side(subdivisions);
    assert(0 <= i % n < n) by {
        lemma_mod_division_less_than_divisor(i, n);
    }
    assert(0 <= i / n < n) by {
        lemma_div_pos_is_pos(i, n);
        lemma_multiply_divide_lt(i, n, n);
    }
}

} // verus!
