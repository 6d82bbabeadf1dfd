//! The triangle mesh over a grid of terrain heights.

use vstd::prelude::*;

verus! {

/// Vertex `i` has a triangle below and to its right: it is neither in the
/// last row nor in the last column.
pub open spec fn starts_triangle(i: int, rows: int, cols: int) -> bool {
    i / rows < rows - 1 && i % rows < cols - 1
}

/// Vertex `i` has a triangle above and to its left: it is neither in the
/// first row nor in the first column.
pub open spec fn ends_triangle(i: int, rows: int) -> bool {
    i / rows > 0 && i % rows > 0
}

/// The corners of the triangles that vertex `i` brings to the mesh, in
/// clockwise order: first the one it starts, then the one it ends.
pub open spec fn triangles_at(i: int, rows: int, cols: int) -> Seq<int> {
    let started = if starts_triangle(i, rows, cols) {
        seq![i, i + 1, i + cols]
    } else {
        Seq::<int>::empty()
    };
    let ended = if ends_triangle(i, rows) {
        seq![i - 1, i - cols, i]
    } else {
        Seq::<int>::empty()
    };
    started + ended
}

/// The corners of all triangles of the first `count` vertices.
pub open spec fn mesh(count: int, rows: int, cols: int) -> Seq<int>
    decreases count,
{
    if count <= 0 {
        Seq::<int>::empty()
    } else {
        mesh(count - 1, rows, cols) + triangles_at(count - 1, rows, cols)
    }
}

/// Every corner that vertex `i` brings is an index that can be written down.
pub open spec fn corners_fit(i: int, rows: int, cols: int) -> bool {
    &&& starts_triangle(i, rows, cols) ==> i + cols <= u32::MAX
    &&& ends_triangle(i, rows) ==> i >= cols
}

/// The index list of the mesh over `vertex_count` vertices laid out in rows
/// of `rows` vertices: three indices for each triangle, clockwise.
pub fn generate_indices(vertex_count: u32, rows: u32, cols: u32) -> (indices: Vec<u32>)
    requires
        rows > 0,
        cols > 0,
        forall|i: int| 0 <= i < vertex_count ==> corners_fit(i, rows as int, cols as int),
    ensures
        indices@.map_values(|index: u32| index as int) == mesh(
            vertex_count as int,
            rows as int,
            cols as int,
        ),
{
    let mut indices: Vec<u32> = Vec::new();
    let mut i: u32 = 0;
    while i < vertex_count
        invariant
            i <= vertex_count,
            rows > 0,
            cols > 0,
            forall|k: int| 0 <= k < vertex_count ==> corners_fit(k, rows as int, cols as int),
            indices@.map_values(|index: u32| index as int) == mesh(
                i as int,
                rows as int,
                cols as int,
            ),
        decreases vertex_count - i,
    {
        let ghost before = indices@;
        let row = i / rows;
        let col = i % rows;
        assert(corners_fit(i as int, rows as int, cols as int));
        if row < rows - 1 && col < cols - 1 {
            indices.push(i);
            indices.push(i + 1);
            indices.push(i + cols);
        }
        if row > 0 && col > 0 {
            indices.push(i - 1);
            indices.push(i - cols);
            indices.push(i);
        }
        assert(indices@.map_values(|index: u32| index as int) == before.map_values(
            |index: u32| index as int,
        ) + triangles_at(i as int, rows as int, cols as int));
        i = i + 1;
    }
    indices
}

} // verus!
