//! The sampled grid as the meshers read it: which lattice points lie inside
//! the surface, and the configuration index of each cell.
use vstd::prelude::*;
use crate::tables::{corner_inside, POINTS};

verus! {

/// The largest number of cells per axis. It keeps every vertex and index of
/// a mesh within `u32`.
pub const MAX_RESOLUTION: usize = 512;

/// Why a grid could not be built.
#[derive(Clone, Copy, Debug, PartialEq, Eq, Structural)]
pub enum MeshError {
    /// The resolution is zero, or above `MAX_RESOLUTION`.
    InvalidResolution,
    /// The number of samples is not `(resolution + 1)³`.
    SampleCount,
}

/// A lattice point of the grid.
#[derive(Clone, Copy, Debug, PartialEq, Eq, Structural)]
pub struct GridPoint {
    pub x: usize,
    pub y: usize,
    pub z: usize,
}

/// The grid edge between two neighbouring lattice points.
#[derive(Clone, Copy, Debug, PartialEq, Eq, Structural)]
pub struct GridEdge {
    pub a: GridPoint,
    pub b: GridPoint,
}

/// For each lattice point of a grid of `resolution³` cells, whether its sample
/// lies inside the surface. Point `(x, y, z)` is stored at
/// `x + y·(resolution + 1) + z·(resolution + 1)²`.
pub struct SignGrid {
    pub inside: Vec<bool>,
    pub resolution: usize,
}

/// Linear index of lattice point `(x, y, z)` on a lattice with `side` points
/// per axis.
pub open spec fn lattice_index(side: int, x: int, y: int, z: int) -> int {
    x + side * y + side * side * z
}

/// Corner `corner` of cell `(x, y, z)`.
pub open spec fn corner_point(x: int, y: int, z: int, corner: int) -> GridPoint {
    GridPoint {
        x: (x + POINTS[corner].0) as usize,
        y: (y + POINTS[corner].1) as usize,
        z: (z + POINTS[corner].2) as usize,
    }
}

pub(crate) proof fn lemma_index_bound(side: int, x: int, y: int, z: int)
    requires
        0 <= x < side,
        0 <= y < side,
        0 <= z < side,
    ensures
        0 <= lattice_index(side, x, y, z) < side * side * side,
        0 <= side * y,
        0 <= side * side * z,
{
    assert(side * y <= side * (side - 1)) by (nonlinear_arith)
        requires
            0 <= y < side,
    ;
    assert(side * side * z <= side * side * (side - 1)) by (nonlinear_arith)
        requires
            0 <= z < side,
    ;
    assert(0 <= side * y && 0 <= side * side * z) by (nonlinear_arith)
        requires
            0 <= y,
            0 <= z,
            0 < side,
    ;
    assert(side * side * side == (side - 1) + side * (side - 1) + side * side * (side - 1) + 1)
        by (nonlinear_arith);
}

impl SignGrid {
    /// Lattice points per axis.
    pub open spec fn side(&self) -> int {
        self.resolution + 1
    }

    pub open spec fn wf(&self) -> bool {
        &&& 1 <= self.resolution <= MAX_RESOLUTION
        &&& self.inside@.len() == self.side() * self.side() * self.side()
    }

    /// Whether lattice point `p` is inside.
    pub open spec fn inside_at(&self, p: GridPoint) -> bool {
        self.inside@[lattice_index(self.side(), p.x as int, p.y as int, p.z as int)]
    }

    /// Whether `p` is a lattice point of this grid.
    pub open spec fn contains(&self, p: GridPoint) -> bool {
        p.x <= self.resolution && p.y <= self.resolution && p.z <= self.resolution
    }

    /// Configuration index of cell `(x, y, z)`: bit `i` is set when corner `i`
    /// is inside.
    pub open spec fn cell_config(&self, x: int, y: int, z: int) -> int {
        (if self.inside_at(corner_point(x, y, z, 0)) { 1int } else { 0int })
        + (if self.inside_at(corner_point(x, y, z, 1)) { 2int } else { 0int })
        + (if self.inside_at(corner_point(x, y, z, 2)) { 4int } else { 0int })
        + (if self.inside_at(corner_point(x, y, z, 3)) { 8int } else { 0int })
        + (if self.inside_at(corner_point(x, y, z, 4)) { 16int } else { 0int })
        + (if self.inside_at(corner_point(x, y, z, 5)) { 32int } else { 0int })
        + (if self.inside_at(corner_point(x, y, z, 6)) { 64int } else { 0int })
        + (if self.inside_at(corner_point(x, y, z, 7)) { 128int } else { 0int })
    }

    /// Whether the eight corners of cell `(x, y, z)` are all inside or all
    /// outside.
    pub open spec fn corners_agree(&self, x: int, y: int, z: int) -> bool {
        let a = self.inside_at(corner_point(x, y, z, 0));
        &&& self.inside_at(corner_point(x, y, z, 1)) == a
        &&& self.inside_at(corner_point(x, y, z, 2)) == a
        &&& self.inside_at(corner_point(x, y, z, 3)) == a
        &&& self.inside_at(corner_point(x, y, z, 4)) == a
        &&& self.inside_at(corner_point(x, y, z, 5)) == a
        &&& self.inside_at(corner_point(x, y, z, 6)) == a
        &&& self.inside_at(corner_point(x, y, z, 7)) == a
    }

    /// Builds a grid from its inside flags, listed with `x` fastest, then `y`,
    /// then `z`.
    pub fn new(resolution: usize, inside: Vec<bool>) -> (r: Result<SignGrid, MeshError>)
        ensures
            (resolution == 0 || resolution > MAX_RESOLUTION) ==> r == Err::<SignGrid, MeshError>(
                MeshError::InvalidResolution,
            ),
            1 <= resolution <= MAX_RESOLUTION && inside@.len() != (resolution + 1) * (resolution
                + 1) * (resolution + 1) ==> r == Err::<SignGrid, MeshError>(MeshError::SampleCount),
            r is Ok ==> r->Ok_0.wf() && r->Ok_0.resolution == resolution && r->Ok_0.inside@
                == inside@,
            1 <= resolution <= MAX_RESOLUTION && inside@.len() == (resolution + 1) * (resolution
                + 1) * (resolution + 1) ==> r is Ok,
    {
        if resolution == 0 || resolution > MAX_RESOLUTION {
            return Err(MeshError::InvalidResolution);
        }
        let side: usize = resolution + 1;
        assert(side * side <= 513 * 513) by (nonlinear_arith)
            requires
                side <= 513,
        ;
        assert(side * side * side <= 513 * 513 * 513) by (nonlinear_arith)
            requires
                side <= 513,
                side * side <= 513 * 513,
        ;
        let count: usize = side * side * side;
        if inside.len() != count {
            return Err(MeshError::SampleCount);
        }
        Ok(SignGrid { inside, resolution })
    }

    /// Whether lattice point `(x, y, z)` is inside.
    pub fn read(&self, x: usize, y: usize, z: usize) -> (r: bool)
        requires
            self.wf(),
            x <= self.resolution,
            y <= self.resolution,
            z <= self.resolution,
        ensures
            r == self.inside_at(GridPoint { x, y, z }),
    {
        let side: usize = self.resolution + 1;
        let _count: usize = self.inside.len();
        proof {
            lemma_index_bound(side as int, x as int, y as int, z as int);
            assert(side * side * side == self.inside@.len());
            assert(side * side <= side * side * side) by (nonlinear_arith)
                requires
                    side >= 1,
            ;
        }
        let plane: usize = side * side;
        let i: usize = x + side * y + plane * z;
        self.inside[i]
    }

    /// Configuration index of cell `(x, y, z)`.
    pub fn configuration(&self, x: usize, y: usize, z: usize) -> (r: u8)
        requires
            self.wf(),
            x < self.resolution,
            y < self.resolution,
            z < self.resolution,
        ensures
            r as int == self.cell_config(x as int, y as int, z as int),
    {
        let mut config: u8 = 0;
        if self.read(x, y, z) {
            config = config + 1;
        }
        if self.read(x, y, z + 1) {
            config = config + 2;
        }
        if self.read(x + 1, y, z + 1) {
            config = config + 4;
        }
        if self.read(x + 1, y, z) {
            config = config + 8;
        }
        if self.read(x, y + 1, z) {
            config = config + 16;
        }
        if self.read(x, y + 1, z + 1) {
            config = config + 32;
        }
        if self.read(x + 1, y + 1, z + 1) {
            config = config + 64;
        }
        if self.read(x + 1, y + 1, z) {
            config = config + 128;
        }
        config
    }

    /// The configuration index of a cell marks exactly its inside corners.
    pub proof fn lemma_config_corners(&self, x: int, y: int, z: int, corner: int)
        requires
            0 <= corner < 8,
        ensures
            0 <= self.cell_config(x, y, z) < 256,
            corner_inside(self.cell_config(x, y, z), corner) == self.inside_at(
                corner_point(x, y, z, corner),
            ),
            self.corners_agree(x, y, z) <==> (self.cell_config(x, y, z) == 0 || self.cell_config(
                x,
                y,
                z,
            ) == 255),
    {
    }
}

} // verus!
