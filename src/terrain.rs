//! Where each terrain vertex samples the height noise.
//!
//! A chunk's mesh is a square plane of `VERTICES_PER_SIDE` by
//! `VERTICES_PER_SIDE` vertices, stored row by row (rows run along the forward
//! axis, columns across it). Vertex heights come from one noise field shared by
//! every chunk, sampled on a lattice in which a row step is one mesh segment.
//! A chunk only shifts the row coordinate, by `SEGMENTS` rows per chunk index,
//! so adjacent chunks sample the very same lattice points along their seam.
use crate::chunks::{MAX_INDEX, WINDOW};
use vstd::prelude::*;

verus! {

/// Subdivisions of the chunk plane.
pub const SUBDIVISIONS: u64 = 64;

/// Segments along each side of a chunk (`SUBDIVISIONS + 1`).
pub const SEGMENTS: u64 = 65;

/// Vertices along each side of a chunk (`SUBDIVISIONS + 2`).
pub const VERTICES_PER_SIDE: u64 = 66;

/// Vertices in one chunk mesh.
pub const VERTEX_COUNT: u64 = 4356;

/// A point of the noise lattice: `column` across the forward axis, `row`
/// along it, both in mesh segments.
#[derive(Clone, Copy, Debug, PartialEq, Eq)]
pub struct LatticePoint {
    pub column: i64,
    pub row: i64,
}

/// Lattice row sampled by local row `row` of chunk `index`. Chunk `index`
/// lies `index` chunks further along the forward axis, where local row 0 is
/// its far edge and local row `SEGMENTS` its near edge.
pub open spec fn lattice_row(index: int, row: int) -> int {
    row - SEGMENTS * index
}

/// Lattice point sampled by vertex number `vertex` of chunk `index`.
pub open spec fn vertex_lattice_point(index: int, vertex: int) -> (int, int) {
    (vertex % VERTICES_PER_SIDE as int, lattice_row(index, vertex / VERTICES_PER_SIDE as int))
}

/// The lattice point at which vertex number `vertex` of chunk `index`
/// samples the noise.
pub fn vertex_sample_point(index: u64, vertex: u64) -> (r: LatticePoint)
    requires
        index < MAX_INDEX + WINDOW,
        vertex < VERTEX_COUNT,
    ensures
        (r.column as int, r.row as int) == vertex_lattice_point(index as int, vertex as int),
{
    let column = (vertex % VERTICES_PER_SIDE) as i64;
    let local_row = (vertex / VERTICES_PER_SIDE) as i64;
    let shift = (index * SEGMENTS) as i64;
    LatticePoint { column, row: local_row - shift }
}

/// The far edge of chunk `index` and the near edge of chunk `index + 1`
/// sample the same lattice points, column by column, so the heights on both
/// sides of the seam are the same values of the noise field.
pub proof fn lemma_seam_continuity(index: u64, column: u64)
    requires
        index + 1 < MAX_INDEX + WINDOW,
        column < VERTICES_PER_SIDE,
    ensures
        vertex_lattice_point(index as int, column as int) == vertex_lattice_point(
            index + 1,
            SEGMENTS * VERTICES_PER_SIDE + column,
        ),
{
    let far = column as int;
    let near = (SEGMENTS * VERTICES_PER_SIDE + column) as int;
    assert(far / VERTICES_PER_SIDE as int == 0);
    assert(far % VERTICES_PER_SIDE as int == column);
    assert(near / VERTICES_PER_SIDE as int == SEGMENTS);
    assert(near % VERTICES_PER_SIDE as int == column);
}

} // verus!
