//! The integer part of the cube-sphere: the six faces of a cube, the frame
//! that spans each, and the triangle list of a face's vertex lattice. The
//! positions, a cube point pushed onto the unit sphere, are computed in
//! floating point by the caller.
use vstd::prelude::*;

verus! {

/// Vertices per side of each face of the sphere.
pub const FACE_RESOLUTION: usize = 16;

/// The outward direction of each cube face: +x, +y, +z, -x, -y, -z.
pub const DIRS: [(i32, i32, i32); 6] = [
    (1, 0, 0),
    (0, 1, 0),
    (0, 0, 1),
    (-1, 0, 0),
    (0, -1, 0),
    (0, 0, -1),
];

/// One face of the cube-sphere.
pub struct CubeFace {
    /// Outward direction: the face's local `y`.
    pub dir: (i32, i32, i32),
    /// The face's local `x`: `dir` with its components rotated.
    pub local_x: (i32, i32, i32),
    /// The face's local `z`: `dir × local_x`.
    pub local_z: (i32, i32, i32),
    /// Vertices per side.
    pub resolution: usize,
    /// Triangle list over the `resolution²` vertices, row by row.
    pub indices: Vec<u32>,
}

pub open spec fn cross(a: (int, int, int), b: (int, int, int)) -> (int, int, int) {
    (a.1 * b.2 - a.2 * b.1, a.2 * b.0 - a.0 * b.2, a.0 * b.1 - a.1 * b.0)
}

pub open spec fn as_ints(v: (i32, i32, i32)) -> (int, int, int) {
    (v.0 as int, v.1 as int, v.2 as int)
}

/// The local `x` of a face: `(d.y, d.z, d.x)`.
pub open spec fn rotated(d: (int, int, int)) -> (int, int, int) {
    (d.1, d.2, d.0)
}

/// The two triangles of lattice square `(x, y)` on a face with `res`
/// vertices per side.
pub open spec fn square_tris(res: int, x: int, y: int) -> Seq<u32> {
    let i = x + y * res;
    seq![i as u32, (i + res + 1) as u32, (i + res) as u32, i as u32, (i + 1) as u32, (i + res + 1) as u32]
}

/// The triangles of the first `x` squares of row `y`.
pub open spec fn row_tris(res: int, y: int, x: nat) -> Seq<u32>
    decreases x,
{
    if x == 0 {
        Seq::empty()
    } else {
        row_tris(res, y, (x - 1) as nat) + square_tris(res, x - 1, y)
    }
}

/// The triangles of the first `y` rows of squares.
pub open spec fn rows_tris(res: int, y: nat) -> Seq<u32>
    decreases y,
{
    if y == 0 {
        Seq::empty()
    } else {
        rows_tris(res, (y - 1) as nat) + row_tris(res, y - 1, (res - 1) as nat)
    }
}

/// The triangle list of a face with `res` vertices per side.
pub open spec fn face_tris(res: int) -> Seq<u32> {
    rows_tris(res, (res - 1) as nat)
}

/// The frame of the face with outward direction `dir`.
pub fn face_frame(dir: (i32, i32, i32)) -> (r: ((i32, i32, i32), (i32, i32, i32)))
    requires
        -1 <= dir.0 <= 1,
        -1 <= dir.1 <= 1,
        -1 <= dir.2 <= 1,
    ensures
        as_ints(r.0) == rotated(as_ints(dir)),
        as_ints(r.1) == cross(as_ints(dir), rotated(as_ints(dir))),
{
    let x = (dir.1, dir.2, dir.0);
    let z = (
        dir.1 * x.2 - dir.2 * x.1,
        dir.2 * x.0 - dir.0 * x.2,
        dir.0 * x.1 - dir.1 * x.0,
    );
    (x, z)
}

/// The triangle list of a face with `resolution` vertices per side: two
/// triangles per lattice square, squares row by row.
pub fn face_indices(resolution: usize) -> (r: Vec<u32>)
    requires
        1 <= resolution <= 0xffff,
    ensures
        r@ == face_tris(resolution as int),
        forall|t: int| 0 <= t < r@.len() ==> (#[trigger] r@[t] as int) < resolution * resolution,
{
    let m: usize = resolution - 1;
    let mut out: Vec<u32> = Vec::new();
    let mut y: usize = 0;
    while y < m
        invariant
            m == resolution - 1,
            1 <= resolution <= 0xffff,
            y <= m,
            out@ == rows_tris(resolution as int, y as nat),
            forall|t: int| 0 <= t < out@.len() ==> (#[trigger] out@[t] as int) < resolution * resolution,
        decreases m - y,
    {
        let ghost start = out@;
        let mut x: usize = 0;
        while x < m
            invariant
                m == resolution - 1,
                1 <= resolution <= 0xffff,
                y < m,
                x <= m,
                out@ == start + row_tris(resolution as int, y as int, x as nat),
                forall|t: int| 0 <= t < out@.len() ==> (#[trigger] out@[t] as int) < resolution * resolution,
            decreases m - x,
        {
            assert(y * resolution + x + resolution + 1 < resolution * resolution) by (nonlinear_arith)
                requires
                    x + 1 < resolution,
                    y + 1 < resolution,
            ;
            assert(resolution * resolution <= 0xffff * 0xffff) by (nonlinear_arith)
                requires
                    resolution <= 0xffff,
            ;
            let idx: usize = x + y * resolution;
            let ghost before = out@;
            out.push(idx as u32);
            out.push((idx + resolution + 1) as u32);
            out.push((idx + resolution) as u32);
            out.push(idx as u32);
            out.push((idx + 1) as u32);
            out.push((idx + resolution + 1) as u32);
            proof {
                assert(out@ =~= before + square_tris(resolution as int, x as int, y as int));
                assert(row_tris(resolution as int, y as int, (x + 1) as nat) == row_tris(
                    resolution as int,
                    y as int,
                    x as nat,
                ) + square_tris(resolution as int, x as int, y as int));
                assert(out@ =~= start + row_tris(resolution as int, y as int, (x + 1) as nat));
            }
            x = x + 1;
        }
        proof {
            assert(rows_tris(resolution as int, (y + 1) as nat) == rows_tris(
                resolution as int,
                y as nat,
            ) + row_tris(resolution as int, y as int, m as nat));
        }
        y = y + 1;
    }
    out
}

/// The six faces of the cube-sphere: outward directions `DIRS` in order,
/// each with its frame and the triangle list of `FACE_RESOLUTION²` vertices.
pub fn spawn_cube_sphere() -> (r: Vec<CubeFace>)
    ensures
        r@.len() == 6,
        forall|k: int|
            0 <= k < 6 ==> {
                let f = #[trigger] r@[k];
                &&& f.dir == DIRS[k]
                &&& as_ints(f.local_x) == rotated(as_ints(DIRS[k]))
                &&& as_ints(f.local_z) == cross(as_ints(DIRS[k]), rotated(as_ints(DIRS[k])))
                &&& f.resolution == FACE_RESOLUTION
                &&& f.indices@ == face_tris(FACE_RESOLUTION as int)
            },
{
    let mut faces: Vec<CubeFace> = Vec::new();
    let mut k: usize = 0;
    while k < 6
        invariant
            k <= 6,
            faces@.len() == k,
            forall|j: int|
                0 <= j < k ==> {
                    let f = #[trigger] faces@[j];
                    &&& f.dir == DIRS[j]
                    &&& as_ints(f.local_x) == rotated(as_ints(DIRS[j]))
                    &&& as_ints(f.local_z) == cross(as_ints(DIRS[j]), rotated(as_ints(DIRS[j])))
                    &&& f.resolution == FACE_RESOLUTION
                    &&& f.indices@ == face_tris(FACE_RESOLUTION as int)
                },
        decreases 6 - k,
    {
        let dir = DIRS[k];
        let (local_x, local_z) = face_frame(dir);
        let indices = face_indices(FACE_RESOLUTION);
        faces.push(CubeFace { dir, local_x, local_z, resolution: FACE_RESOLUTION, indices });
        k = k + 1;
    }
    faces
}

} // verus!
