//! Static geometry tables, in thousandths of a unit.
//!
//! Each shape uploads its vertex data once at construction.  The
//! cube is a wireframe: twelve edges of the unit cube, two endpoints
//! each.  The triforce is three triangles with interleaved positions
//! and normals plus a parallel texture-coordinate table.  The torus
//! is a point cloud over a parameter grid; its positions are
//! trigonometric functions of the grid angles, which the host
//! evaluates in floating point.

use vstd::prelude::*;

verus! {

/// A corner of the unit cube, indexed 0 to 7: bit 0 picks the x
/// half, bit 1 the y half, bit 2 the z half.  Each coordinate is
/// half a unit from the centre.
pub open spec fn cube_corner_coord(corner: int, axis: int) -> int {
    let bit = if axis == 0 {
        1int
    } else if axis == 1 {
        2int
    } else {
        4int
    };
    if (corner / bit) % 2 == 1 {
        500
    } else {
        -500
    }
}

/// The lower corner of edge `j` (0 to 11): edges 0 to 3 run along x,
/// 4 to 7 along y, 8 to 11 along z.
pub open spec fn cube_edge_a(j: int) -> int {
    let axis = j / 4;
    let k = j % 4;
    if axis == 0 {
        2 * k
    } else if axis == 1 {
        k % 2 + 4 * (k / 2)
    } else {
        k
    }
}

/// The upper corner of edge `j`: the lower corner with the edge's
/// axis bit set.
pub open spec fn cube_edge_b(j: int) -> int {
    cube_edge_a(j) + (if j / 4 == 0 {
        1int
    } else if j / 4 == 1 {
        2int
    } else {
        4int
    })
}

/// Entry `i` of the cube's flattened vertex table: 24 endpoints
/// (edge by edge, lower endpoint first), three coordinates each.
pub open spec fn cube_vertex_value(i: int) -> int {
    let vi = i / 3;
    let axis = i % 3;
    let j = vi / 2;
    let corner = if vi % 2 == 0 {
        cube_edge_a(j)
    } else {
        cube_edge_b(j)
    };
    cube_corner_coord(corner, axis)
}

/// The cube's wireframe vertex table: 24 line-list endpoints, three
/// coordinates each, in thousandths.
pub fn cube_vertices() -> (v: Vec<i32>)
    ensures
        v@.len() == 72,
        forall|i: int| 0 <= i < 72 ==> v@[i] == cube_vertex_value(i),
{
    let mut v: Vec<i32> = Vec::new();
    let mut i: usize = 0;
    while i < 72
        invariant
            i <= 72,
            v@.len() == i,
            forall|m: int| 0 <= m < i ==> v@[m] == cube_vertex_value(m),
        decreases 72 - i,
    {
        let vi = i / 3;
        let axis = i % 3;
        let j = vi / 2;
        let base: usize = {
            let ax = j / 4;
            let k = j % 4;
            if ax == 0 {
                2 * k
            } else if ax == 1 {
                k % 2 + 4 * (k / 2)
            } else {
                k
            }
        };
        let corner: usize = if vi % 2 == 0 {
            base
        } else {
            base + (if j / 4 == 0 {
                1
            } else if j / 4 == 1 {
                2
            } else {
                4
            })
        };
        let bit: usize = if axis == 0 {
            1
        } else if axis == 1 {
            2
        } else {
            4
        };
        let coord: i32 = if (corner / bit) % 2 == 1 {
            500
        } else {
            -500
        };
        v.push(coord);
        i += 1;
    }
    v
}

/// The cube table is a wireframe of twelve axis-aligned edges on
/// the half-unit cube: every coordinate lies on a face, and an
/// edge's two endpoints differ in its own axis and no other.
pub proof fn lemma_cube_edge_runs_along_its_axis(j: int, axis: int)
    requires
        0 <= j < 12,
        0 <= axis < 3,
    ensures
        cube_vertex_value(6 * j + axis) == 500 || cube_vertex_value(6 * j + axis) == -500,
        (cube_vertex_value(6 * j + axis) != cube_vertex_value(6 * j + 3 + axis)) <==> axis == j
            / 4,
{
    assert((6 * j + axis) / 3 == 2 * j && (6 * j + axis) % 3 == axis) by (nonlinear_arith)
        requires
            0 <= j < 12 && 0 <= axis < 3,
    ;
    assert((6 * j + 3 + axis) / 3 == 2 * j + 1 && (6 * j + 3 + axis) % 3 == axis)
        by (nonlinear_arith)
        requires
            0 <= j < 12 && 0 <= axis < 3,
    ;
    assert((2 * j) / 2 == j && (2 * j) % 2 == 0 && (2 * j + 1) / 2 == j && (2 * j + 1) % 2 == 1)
        by (nonlinear_arith)
        requires
            0 <= j < 12,
    ;
}

/// The x coordinate, in thousandths, of triforce vertex `v` (0 to
/// 8): three triangles of three vertices, top first, then bottom
/// left, then bottom right.
pub open spec fn triforce_pos_x(v: int) -> int {
    if v == 0 {
        0
    } else if v == 1 {
        -500
    } else if v == 2 {
        500
    } else if v == 3 {
        -500
    } else if v == 4 {
        -1000
    } else if v == 5 {
        0
    } else if v == 6 {
        500
    } else if v == 7 {
        0
    } else {
        1000
    }
}

/// The y coordinate, in thousandths, of triforce vertex `v`.
pub open spec fn triforce_pos_y(v: int) -> int {
    if v == 0 {
        1000
    } else if v == 1 {
        0
    } else if v == 2 {
        0
    } else if v == 3 {
        0
    } else if v == 4 {
        -1000
    } else if v == 5 {
        -1000
    } else if v == 6 {
        0
    } else if v == 7 {
        -1000
    } else {
        -1000
    }
}

/// Entry `i` of the triforce's interleaved vertex table: for each of
/// the nine vertices, position x, y, z then normal x, y, z.  The
/// triangles lie in the z = 0 plane, so every normal is the unit z
/// vector.
pub open spec fn triforce_vertex_value(i: int) -> int {
    let v = i / 6;
    let c = i % 6;
    if c == 0 {
        triforce_pos_x(v)
    } else if c == 1 {
        triforce_pos_y(v)
    } else if c == 5 {
        1000
    } else {
        0
    }
}

/// The x coordinate, in thousandths, of triforce vertex `v`.
fn triforce_x(v: usize) -> (x: i32)
    requires
        v < 9,
    ensures
        x == triforce_pos_x(v as int),
{
    if v == 0 {
        0
    } else if v == 1 {
        -500
    } else if v == 2 {
        500
    } else if v == 3 {
        -500
    } else if v == 4 {
        -1000
    } else if v == 5 {
        0
    } else if v == 6 {
        500
    } else if v == 7 {
        0
    } else {
        1000
    }
}

/// The y coordinate, in thousandths, of triforce vertex `v`.
fn triforce_y(v: usize) -> (y: i32)
    requires
        v < 9,
    ensures
        y == triforce_pos_y(v as int),
{
    if v == 0 {
        1000
    } else if v == 4 || v == 5 || v == 7 || v == 8 {
        -1000
    } else {
        0
    }
}

/// The triforce's interleaved position-and-normal table: nine
/// vertices, six values each, in thousandths.
pub fn triforce_vertices() -> (v: Vec<i32>)
    ensures
        v@.len() == 54,
        forall|i: int| 0 <= i < 54 ==> v@[i] == triforce_vertex_value(i),
{
    let mut out: Vec<i32> = Vec::new();
    let mut i: usize = 0;
    while i < 54
        invariant
            i <= 54,
            out@.len() == i,
            forall|m: int| 0 <= m < i ==> out@[m] == triforce_vertex_value(m),
        decreases 54 - i,
    {
        let v = i / 6;
        let c = i % 6;
        let value: i32 = if c == 0 {
            triforce_x(v)
        } else if c == 1 {
            triforce_y(v)
        } else if c == 5 {
            1000
        } else {
            0
        };
        out.push(value);
        i += 1;
    }
    out
}

/// Entry `i` of the triforce's texture-coordinate table: for each
/// vertex, `u` maps x from [-1, 1] onto [0, 1] and `v` maps y the
/// same way top-down, in thousandths.
pub open spec fn triforce_tex_value(i: int) -> int {
    let v = i / 2;
    if i % 2 == 0 {
        (triforce_pos_x(v) + 1000) / 2
    } else {
        (1000 - triforce_pos_y(v)) / 2
    }
}

/// The triforce's texture-coordinate table: nine vertices, two
/// values each, in thousandths.
pub fn triforce_tex_coords() -> (t: Vec<i32>)
    ensures
        t@.len() == 18,
        forall|i: int| 0 <= i < 18 ==> t@[i] == triforce_tex_value(i),
{
    let mut out: Vec<i32> = Vec::new();
    let mut i: usize = 0;
    while i < 18
        invariant
            i <= 18,
            out@.len() == i,
            forall|m: int| 0 <= m < i ==> out@[m] == triforce_tex_value(m),
        decreases 18 - i,
    {
        let v = i / 2;
        let value: i32 = if i % 2 == 0 {
            (triforce_x(v) + 1000) / 2
        } else {
            (1000 - triforce_y(v)) / 2
        };
        out.push(value);
        i += 1;
    }
    out
}

/// The number of parameter steps per revolution of the torus grid:
/// five degrees per step, endpoints included, so 73 samples per
/// axis.
pub const TORUS_SAMPLES: usize = 73;

/// Grid point `i` of the torus parameter grid, row by row: the tube
/// angle `u` runs fastest, the ring angle `v` slowest, both in
/// degrees from 0 to 360 inclusive in steps of 5.
pub open spec fn torus_grid_point(i: int) -> (u16, u16) {
    ((5 * (i % 73)) as u16, (5 * (i / 73)) as u16)
}

/// The torus parameter grid and its vertex count: one point per
/// five-degree step of the two angles, endpoints included.  The
/// positions are the torus parametric equations of these angles and
/// the colours shift each position by half a unit; the host
/// evaluates both in floating point, one vertex per grid point.
pub fn compute_vertices() -> (r: (Vec<(u16, u16)>, i32))
    ensures
        r.0@.len() == 5329,
        forall|i: int| 0 <= i < 5329 ==> r.0@[i] == torus_grid_point(i),
        r.1 == 5329,
{
    let mut grid: Vec<(u16, u16)> = Vec::new();
    let mut i: usize = 0;
    while i < 5329
        invariant
            i <= 5329,
            grid@.len() == i,
            forall|m: int| 0 <= m < i ==> grid@[m] == torus_grid_point(m),
        decreases 5329 - i,
    {
        let u: u16 = (5 * (i % 73)) as u16;
        let v: u16 = (5 * (i / 73)) as u16;
        grid.push((u, v));
        i += 1;
    }
    (grid, 5329)
}

} // verus!
