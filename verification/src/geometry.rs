use vstd::prelude::*;

verus! {

/// The state of a geometry whose buffers have not been built.
pub struct Inactive;

/// The six vertex indices (two triangles) of the grid cell in row `y`, column `x` of a square
/// grid of side `s`, whose vertex `(y, x)` has index `y * s + x`.
pub open spec fn cell_indices(s: int, y: int, x: int) -> Seq<int> {
    let ix = y * s + x;
    seq![ix, ix + 1, ix + s + 1, ix + s, ix, ix + s + 1]
}

/// The indices of the first `n` cells of row `y`.
pub open spec fn row_indices(s: int, y: int, n: nat) -> Seq<int>
    decreases n,
{
    if n == 0 {
        Seq::empty()
    } else {
        row_indices(s, y, (n - 1) as nat) + cell_indices(s, y, n - 1)
    }
}

/// The indices of the first `m` rows of cells of a grid of side `s`, row by row.
pub open spec fn grid_indices(s: int, m: nat) -> Seq<int>
    decreases m,
{
    if m == 0 {
        Seq::empty()
    } else {
        grid_indices(s, (m - 1) as nat) + row_indices(s, m - 1, (s - 1) as nat)
    }
}

/// The side of the terrain grid for a requested size: the size is taken modulo 2^16.
pub open spec fn terrain_side(size: usize) -> int {
    size as int % 65536
}

/// The index buffer of a terrain of the given size: two triangles per grid cell, cells row by
/// row, as `grid_indices` lists them.
pub fn terrain_indices(size: usize) -> (indices: Vec<u16>)
    requires
        1 <= terrain_side(size) <= 256,
    ensures
        indices@.map_values(|v: u16| v as int) == grid_indices(
            terrain_side(size),
            (terrain_side(size) - 1) as nat,
        ),
{
    let side: u16 = (size % 65536) as u16;
    let ghost s = side as int;
    let mut indices: Vec<u16> = Vec::new();
    let mut y: u16 = 0;
    while y < side - 1
        invariant
            s == side as int == terrain_side(size),
            1 <= s <= 256,
            0 <= y <= s - 1,
            indices@.map_values(|v: u16| v as int) == grid_indices(s, y as nat),
        decreases s - 1 - y,
    {
        let mut x: u16 = 0;
        while x < side - 1
            invariant
                s == side as int == terrain_side(size),
                1 <= s <= 256,
                0 <= y < s - 1,
                0 <= x <= s - 1,
                indices@.map_values(|v: u16| v as int) == grid_indices(s, y as nat) + row_indices(
                    s,
                    y as int,
                    x as nat,
                ),
            decreases s - 1 - x,
        {
            assert(y as int * s + x as int + s + 1 <= 65535) by (nonlinear_arith)
                requires
                    0 <= y < s - 1,
                    0 <= x < s - 1,
                    s <= 256,
            ;
            let ix: u16 = y * side + x;
            let ghost before = indices@;
            indices.push(ix);
            indices.push(ix + 1);
            indices.push(ix + side + 1);
            indices.push(ix + side);
            indices.push(ix);
            indices.push(ix + side + 1);
            proof {
                assert(indices@ == before + seq![ix, (ix + 1) as u16, (ix + side + 1) as u16, (ix + side) as u16, ix, (ix + side + 1) as u16]);
                assert(indices@.map_values(|v: u16| v as int) =~= before.map_values(|v: u16| v as int)
                    + cell_indices(s, y as int, x as int));
                assert(row_indices(s, y as int, (x + 1) as nat) == row_indices(s, y as int, x as nat)
                    + cell_indices(s, y as int, x as int));
                assert(grid_indices(s, y as nat) + row_indices(s, y as int, (x + 1) as nat)
                    =~= grid_indices(s, y as nat) + row_indices(s, y as int, x as nat) + cell_indices(
                    s,
                    y as int,
                    x as int,
                ));
            }
            x = x + 1;
        }
        proof {
            assert(grid_indices(s, (y + 1) as nat) == grid_indices(s, y as nat) + row_indices(
                s,
                y as int,
                (s - 1) as nat,
            ));
        }
        y = y + 1;
    }
    indices
}


/// Each row of cells contributes six indices per cell, each naming a vertex of the grid.
proof fn lemma_row_indices_valid(s: int, y: int, n: nat)
    requires
        s >= 2,
        0 <= y < s - 1,
        n <= s - 1,
    ensures
        row_indices(s, y, n).len() == 6 * n,
        forall|k: int|
            0 <= k < row_indices(s, y, n).len() ==> 0 <= #[trigger] row_indices(s, y, n)[k] < s * s,
    decreases n,
{
    if n > 0 {
        lemma_row_indices_valid(s, y, (n - 1) as nat);
        let x = n - 1;
        assert(0 <= y * s + x && y * s + x + s + 1 < s * s) by (nonlinear_arith)
            requires
                0 <= y < s - 1,
                0 <= x < s - 1,
        ;
        let prev = row_indices(s, y, (n - 1) as nat);
        assert forall|k: int| 0 <= k < row_indices(s, y, n).len() implies 0 <= #[trigger] row_indices(
            s,
            y,
            n,
        )[k] < s * s by {
            if k >= prev.len() {
                assert(row_indices(s, y, n)[k] == cell_indices(s, y, x)[k - prev.len()]);
            } else {
                assert(row_indices(s, y, n)[k] == prev[k]);
            }
        }
    }
}

/// The index buffer of a terrain grid of side `s` holds six indices for each of its
/// `(s - 1) * (s - 1)` cells, and every index names one of its `s * s` vertices.
pub proof fn lemma_terrain_indices_name_vertices(s: int, m: nat)
    requires
        s >= 1,
        m <= s - 1,
    ensures
        grid_indices(s, m).len() == 6 * (s - 1) * m,
        forall|k: int|
            0 <= k < grid_indices(s, m).len() ==> 0 <= #[trigger] grid_indices(s, m)[k] < s * s,
    decreases m,
{
    if m > 0 {
        lemma_terrain_indices_name_vertices(s, (m - 1) as nat);
        lemma_row_indices_valid(s, m - 1, (s - 1) as nat);
        let prev = grid_indices(s, (m - 1) as nat);
        let row = row_indices(s, m - 1, (s - 1) as nat);
        assert(row.len() == 6 * (s - 1));
        assert(prev.len() == 6 * (s - 1) * (m - 1));
        assert(6 * (s - 1) * (m - 1) + 6 * (s - 1) == 6 * (s - 1) * m) by (nonlinear_arith);
        assert(grid_indices(s, m) == prev + row);
        assert forall|k: int| 0 <= k < grid_indices(s, m).len() implies 0 <= #[trigger] grid_indices(
            s,
            m,
        )[k] < s * s by {
            if k >= prev.len() {
                assert(grid_indices(s, m)[k] == row[k - prev.len()]);
            } else {
                assert(grid_indices(s, m)[k] == prev[k]);
            }
        }
    } else {
        assert(6 * (s - 1) * m == 0) by (nonlinear_arith)
            requires
                m == 0,
        ;
    }
}

/// The index buffer of a unit cube: two triangles for each face, in the order top, front,
/// right, back, left, bottom, over the cube's eight corners.
pub open spec fn cube_indices_view() -> Seq<u16> {
    seq![
        4, 5, 7, 7, 6, 4,
        6, 7, 3, 3, 2, 6,
        7, 5, 1, 1, 3, 7,
        5, 4, 0, 0, 1, 5,
        4, 6, 2, 2, 0, 4,
        2, 3, 0, 0, 1, 2,
    ]
}

/// The index buffer of a cube.
pub fn cube_indices() -> (indices: Vec<u16>)
    ensures
        indices@ == cube_indices_view(),
{
    let indices: Vec<u16> = vec![
        4, 5, 7, 7, 6, 4,
        6, 7, 3, 3, 2, 6,
        7, 5, 1, 1, 3, 7,
        5, 4, 0, 0, 1, 5,
        4, 6, 2, 2, 0, 4,
        2, 3, 0, 0, 1, 2,
    ];
    proof {
        assert(indices@ =~= cube_indices_view());
    }
    indices
}

/// The index buffer of a plane: two triangles over its corners top left, top right,
/// bottom left, bottom right.
pub open spec fn plane_indices_view() -> Seq<u16> {
    seq![0, 1, 3, 2, 0, 3]
}

/// The index buffer of a plane.
pub fn plane_indices() -> (indices: Vec<u16>)
    ensures
        indices@ == plane_indices_view(),
{
    let indices: Vec<u16> = vec![0, 1, 3, 2, 0, 3];
    proof {
        assert(indices@ =~= plane_indices_view());
    }
    indices
}

/// The index buffer of a triangle.
pub open spec fn triangle_indices_view() -> Seq<u16> {
    seq![0, 1, 2]
}

/// The index buffer of a triangle.
pub fn triangle_indices() -> (indices: Vec<u16>)
    ensures
        indices@ == triangle_indices_view(),
{
    let indices: Vec<u16> = vec![0, 1, 2];
    proof {
        assert(indices@ =~= triangle_indices_view());
    }
    indices
}

/// Whether `indices` lists whole triangles over `vertex_count` vertices.
pub open spec fn is_triangle_list(indices: Seq<u16>, vertex_count: int) -> bool {
    &&& indices.len() % 3 == 0
    &&& forall|k: int| 0 <= k < indices.len() ==> #[trigger] indices[k] < vertex_count
}

/// The cube, plane and triangle index buffers list whole triangles over their 8, 4 and 3
/// vertices.
pub proof fn lemma_shape_indices_are_triangle_lists()
    ensures
        is_triangle_list(cube_indices_view(), 8),
        is_triangle_list(plane_indices_view(), 4),
        is_triangle_list(triangle_indices_view(), 3),
{
    let c = cube_indices_view();
    assert forall|k: int| 0 <= k < c.len() implies #[trigger] c[k] < 8 by {
        assert(0 <= k < 36);
    }
    let p = plane_indices_view();
    assert forall|k: int| 0 <= k < p.len() implies #[trigger] p[k] < 4 by {
        assert(0 <= k < 6);
    }
    let t = triangle_indices_view();
    assert forall|k: int| 0 <= k < t.len() implies #[trigger] t[k] < 3 by {
        assert(0 <= k < 3);
    }
}

/// On which side of axis `axis` (0: x, 1: y, 2: z) corner `c` of the cube lies: the cube's
/// corners are numbered so that bit `axis` of the number tells the side (x: left 0, right 1;
/// y: top 0, bottom 1; z: back 0, front 1).
pub open spec fn corner_side(c: int, axis: int) -> int {
    if axis == 0 {
        c % 2
    } else if axis == 1 {
        (c / 2) % 2
    } else {
        (c / 4) % 2
    }
}

/// Whether (`axis`, `side`) names one of the cube's six faces.
pub open spec fn is_cube_face(axis: int, side: int) -> bool {
    0 <= axis < 3 && 0 <= side < 2
}

/// Index `k` of the six indices (two triangles) of group `g` of `indices`.
pub open spec fn group_index(indices: Seq<u16>, g: int, k: int) -> int {
    indices[6 * g + k] as int
}

/// Whether group `g` of `indices` (its two triangles) covers exactly the face of the cube on
/// side `side` of axis `axis`: each of its corners lies on that face, and each of the face's
/// four corners is among them.
pub open spec fn group_is_face(indices: Seq<u16>, g: int, axis: int, side: int) -> bool {
    &&& forall|k: int| 0 <= k < 6 ==> corner_side(#[trigger] group_index(indices, g, k), axis) == side
    &&& forall|c: int|
        0 <= c < 8 && #[trigger] corner_side(c, axis) == side ==> exists|k: int|
            0 <= k < 6 && #[trigger] group_index(indices, g, k) == c
}

/// Whether `c` is among the six indices of group `g`; if so, a witness is produced.
proof fn lemma_group_holds(indices: Seq<u16>, g: int, c: int)
    requires
        0 <= g,
        6 * g + 6 <= indices.len(),
        group_index(indices, g, 0) == c || group_index(indices, g, 1) == c || group_index(indices, g, 2) == c
            || group_index(indices, g, 3) == c || group_index(indices, g, 4) == c || group_index(indices, g, 5) == c,
    ensures
        exists|k: int| 0 <= k < 6 && #[trigger] group_index(indices, g, k) == c,
{
    if group_index(indices, g, 0) == c {
        assert(group_index(indices, g, 0) == c);
    } else if group_index(indices, g, 1) == c {
        assert(group_index(indices, g, 1) == c);
    } else if group_index(indices, g, 2) == c {
        assert(group_index(indices, g, 2) == c);
    } else if group_index(indices, g, 3) == c {
        assert(group_index(indices, g, 3) == c);
    } else if group_index(indices, g, 4) == c {
        assert(group_index(indices, g, 4) == c);
    } else {
        assert(group_index(indices, g, 5) == c);
    }
}

/// The face that group `g` of the cube's index buffer is meant to cover: top, front, right,
/// back, left, bottom, as (axis, side).
spec fn cube_group_face(g: int) -> (int, int) {
    if g == 0 {
        (2, 1)
    } else if g == 1 {
        (1, 1)
    } else if g == 2 {
        (0, 1)
    } else if g == 3 {
        (1, 0)
    } else if g == 4 {
        (0, 0)
    } else {
        (2, 0)
    }
}

/// Group `g` of the cube's index buffer covers the face `cube_group_face(g)`, and no other.
proof fn lemma_cube_group(g: int)
    requires
        0 <= g < 6,
    ensures
        group_is_face(cube_indices_view(), g, cube_group_face(g).0, cube_group_face(g).1),
        forall|axis: int, side: int|
            0 <= axis < 3 && 0 <= side < 2 && group_is_face(cube_indices_view(), g, axis, side) ==> axis
                == cube_group_face(g).0 && side == cube_group_face(g).1,
{
    let s = cube_indices_view();
    let (a, d) = cube_group_face(g);
    let i0 = group_index(s, g, 0);
    let i1 = group_index(s, g, 1);
    let i2 = group_index(s, g, 2);
    let i3 = group_index(s, g, 3);
    let i4 = group_index(s, g, 4);
    let i5 = group_index(s, g, 5);
    assert forall|k: int| 0 <= k < 6 implies corner_side(#[trigger] group_index(s, g, k), a) == d by {
        assert(k == 0 || k == 1 || k == 2 || k == 3 || k == 4 || k == 5);
    }
    assert forall|c: int| 0 <= c < 8 && #[trigger] corner_side(c, a) == d implies exists|k: int|
        0 <= k < 6 && #[trigger] group_index(s, g, k) == c by {
        assert(c == 0 || c == 1 || c == 2 || c == 3 || c == 4 || c == 5 || c == 6 || c == 7);
        lemma_group_holds(s, g, c);
    }
    assert forall|axis: int, side: int|
        0 <= axis < 3 && 0 <= side < 2 && group_is_face(s, g, axis, side) implies axis == a && side
            == d by {
        assert(corner_side(group_index(s, g, 0), axis) == side);
        assert(corner_side(group_index(s, g, 1), axis) == side);
        assert(corner_side(group_index(s, g, 2), axis) == side);
        assert(corner_side(group_index(s, g, 3), axis) == side);
        assert(corner_side(group_index(s, g, 4), axis) == side);
        assert(corner_side(group_index(s, g, 5), axis) == side);
    }
}

/// The cube's index buffer covers each of the cube's six faces with one group of two
/// triangles, and no face twice: for every side of every axis some group covers exactly that
/// face's four corners, and no two groups cover the same face.
pub proof fn lemma_cube_indices_cover_each_face_once()
    ensures
        cube_indices_view().len() == 36,
        forall|axis: int, side: int|
            #[trigger] is_cube_face(axis, side) ==> exists|g: int|
                0 <= g < 6 && #[trigger] group_is_face(cube_indices_view(), g, axis, side),
        forall|g1: int, g2: int, axis: int, side: int|
            0 <= g1 < g2 < 6 && 0 <= axis < 3 && 0 <= side < 2 && #[trigger] group_is_face(
                cube_indices_view(),
                g1,
                axis,
                side,
            ) ==> !#[trigger] group_is_face(cube_indices_view(), g2, axis, side),
{
    lemma_cube_group(0);
    lemma_cube_group(1);
    lemma_cube_group(2);
    lemma_cube_group(3);
    lemma_cube_group(4);
    lemma_cube_group(5);
    assert forall|axis: int, side: int| #[trigger] is_cube_face(axis, side) implies exists|g: int|
        0 <= g < 6 && #[trigger] group_is_face(cube_indices_view(), g, axis, side) by {
        let g = if axis == 2 && side == 1 {
            0int
        } else if axis == 1 && side == 1 {
            1int
        } else if axis == 0 && side == 1 {
            2int
        } else if axis == 1 && side == 0 {
            3int
        } else if axis == 0 && side == 0 {
            4int
        } else {
            5int
        };
        assert(group_is_face(cube_indices_view(), g, axis, side));
    }
}

/// The plane's index buffer is two triangles, each over three different corners, that
/// together use all four corners; the triangle's three indices are different corners.
pub proof fn lemma_plane_triangles_cover_the_plane()
    ensures
        plane_indices_view().len() == 6,
        forall|t: int, a: int, b: int|
            0 <= t < 2 && 0 <= a < b < 3 ==> #[trigger] plane_indices_view()[3 * t + a]
                != #[trigger] plane_indices_view()[3 * t + b],
        forall|c: int| 0 <= c < 4 ==> #[trigger] plane_indices_view().contains(c as u16),
        triangle_indices_view()[0] != triangle_indices_view()[1] && triangle_indices_view()[1]
            != triangle_indices_view()[2] && triangle_indices_view()[0] != triangle_indices_view()[2],
{
    let p = plane_indices_view();
    assert forall|c: int| 0 <= c < 4 implies #[trigger] p.contains(c as u16) by {
        if c == 0 {
            assert(p[0] == 0);
        } else if c == 1 {
            assert(p[1] == 1);
        } else if c == 2 {
            assert(p[3] == 2);
        } else {
            assert(p[2] == 3);
        }
    }
    assert forall|t: int, a: int, b: int| 0 <= t < 2 && 0 <= a < b < 3 implies #[trigger] p[3 * t + a]
        != #[trigger] p[3 * t + b] by {
        assert(t == 0 || t == 1);
        assert(a == 0 || a == 1);
        assert(b == 1 || b == 2);
    }
}

} // verus!
