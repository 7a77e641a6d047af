//! The fixed data of the cube-configuration method: corner offsets, the
//! corner pairs of the twelve cube edges, and the triangulation of each of
//! the 256 corner configurations.
use vstd::prelude::*;

verus! {

/// Unit offset `(x, y, z)` of each cube corner from the cell's origin.
/// Corners 0 to 3 go round the face `y = 0`, corners 4 to 7 lie above them.
pub const POINTS: [(usize, usize, usize); 8] = [
    (0, 0, 0),
    (0, 0, 1),
    (1, 0, 1),
    (1, 0, 0),
    (0, 1, 0),
    (0, 1, 1),
    (1, 1, 1),
    (1, 1, 0),
];

/// The two corners that each cube edge joins.
pub const EDGES: [(usize, usize); 12] = [
    (0, 1),
    (1, 2),
    (2, 3),
    (3, 0),
    (4, 5),
    (5, 6),
    (6, 7),
    (7, 4),
    (0, 4),
    (1, 5),
    (2, 6),
    (3, 7),
];

/// Rows 0 to 63 of the triangulation table: the edge list of each
/// configuration, three edges per triangle, ended by -1.
pub const TRIANGULATIONS_0: [[i8; 15]; 64] = [
    [-1, -1, -1, -1, -1, -1, -1, -1, -1, -1, -1, -1, -1, -1, -1],
    [0, 8, 3, -1, -1, -1, -1, -1, -1, -1, -1, -1, -1, -1, -1],
    [0, 1, 9, -1, -1, -1, -1, -1, -1, -1, -1, -1, -1, -1, -1],
    [1, 8, 3, 9, 8, 1, -1, -1, -1, -1, -1, -1, -1, -1, -1],
    [1, 2, 10, -1, -1, -1, -1, -1, -1, -1, -1, -1, -1, -1, -1],
    [0, 8, 3, 1, 2, 10, -1, -1, -1, -1, -1, -1, -1, -1, -1],
    [9, 2, 10, 0, 2, 9, -1, -1, -1, -1, -1, -1, -1, -1, -1],
    [2, 8, 3, 2, 10, 8, 10, 9, 8, -1, -1, -1, -1, -1, -1],
    [3, 11, 2, -1, -1, -1, -1, -1, -1, -1, -1, -1, -1, -1, -1],
    [0, 11, 2, 8, 11, 0, -1, -1, -1, -1, -1, -1, -1, -1, -1],
    [1, 9, 0, 2, 3, 11, -1, -1, -1, -1, -1, -1, -1, -1, -1],
    [1, 11, 2, 1, 9, 11, 9, 8, 11, -1, -1, -1, -1, -1, -1],
    [3, 10, 1, 11, 10, 3, -1, -1, -1, -1, -1, -1, -1, -1, -1],
    [0, 10, 1, 0, 8, 10, 8, 11, 10, -1, -1, -1, -1, -1, -1],
    [3, 9, 0, 3, 11, 9, 11, 10, 9, -1, -1, -1, -1, -1, -1],
    [9, 8, 10, 10, 8, 11, -1, -1, -1, -1, -1, -1, -1, -1, -1],
    [4, 7, 8, -1, -1, -1, -1, -1, -1, -1, -1, -1, -1, -1, -1],
    [4, 3, 0, 7, 3, 4, -1, -1, -1, -1, -1, -1, -1, -1, -1],
    [0, 1, 9, 8, 4, 7, -1, -1, -1, -1, -1, -1, -1, -1, -1],
    [4, 1, 9, 4, 7, 1, 7, 3, 1, -1, -1, -1, -1, -1, -1],
    [1, 2, 10, 8, 4, 7, -1, -1, -1, -1, -1, -1, -1, -1, -1],
    [3, 4, 7, 3, 0, 4, 1, 2, 10, -1, -1, -1, -1, -1, -1],
    [9, 2, 10, 9, 0, 2, 8, 4, 7, -1, -1, -1, -1, -1, -1],
    [2, 10, 9, 2, 9, 7, 2, 7, 3, 7, 9, 4, -1, -1, -1],
    [8, 4, 7, 3, 11, 2, -1, -1, -1, -1, -1, -1, -1, -1, -1],
    [11, 4, 7, 11, 2, 4, 2, 0, 4, -1, -1, -1, -1, -1, -1],
    [9, 0, 1, 8, 4, 7, 2, 3, 11, -1, -1, -1, -1, -1, -1],
    [4, 7, 11, 9, 4, 11, 9, 11, 2, 9, 2, 1, -1, -1, -1],
    [3, 10, 1, 3, 11, 10, 7, 8, 4, -1, -1, -1, -1, -1, -1],
    [1, 11, 10, 1, 4, 11, 1, 0, 4, 7, 11, 4, -1, -1, -1],
    [4, 7, 8, 9, 0, 11, 9, 11, 10, 11, 0, 3, -1, -1, -1],
    [4, 7, 11, 4, 11, 9, 9, 11, 10, -1, -1, -1, -1, -1, -1],
    [9, 5, 4, -1, -1, -1, -1, -1, -1, -1, -1, -1, -1, -1, -1],
    [9, 5, 4, 0, 8, 3, -1, -1, -1, -1, -1, -1, -1, -1, -1],
    [0, 5, 4, 1, 5, 0, -1, -1, -1, -1, -1, -1, -1, -1, -1],
    [8, 5, 4, 8, 3, 5, 3, 1, 5, -1, -1, -1, -1, -1, -1],
    [1, 2, 10, 9, 5, 4, -1, -1, -1, -1, -1, -1, -1, -1, -1],
    [3, 0, 8, 1, 2, 10, 4, 9, 5, -1, -1, -1, -1, -1, -1],
    [5, 2, 10, 5, 4, 2, 4, 0, 2, -1, -1, -1, -1, -1, -1],
    [2, 10, 5, 3, 2, 5, 3, 5, 4, 3, 4, 8, -1, -1, -1],
    [9, 5, 4, 2, 3, 11, -1, -1, -1, -1, -1, -1, -1, -1, -1],
    [0, 11, 2, 0, 8, 11, 4, 9, 5, -1, -1, -1, -1, -1, -1],
    [0, 5, 4, 0, 1, 5, 2, 3, 11, -1, -1, -1, -1, -1, -1],
    [2, 1, 5, 2, 5, 8, 2, 8, 11, 4, 8, 5, -1, -1, -1],
    [10, 3, 11, 10, 1, 3, 9, 5, 4, -1, -1, -1, -1, -1, -1],
    [4, 9, 5, 0, 8, 1, 8, 10, 1, 8, 11, 10, -1, -1, -1],
    [5, 4, 0, 5, 0, 11, 5, 11, 10, 11, 0, 3, -1, -1, -1],
    [5, 4, 8, 5, 8, 10, 10, 8, 11, -1, -1, -1, -1, -1, -1],
    [9, 7, 8, 5, 7, 9, -1, -1, -1, -1, -1, -1, -1, -1, -1],
    [9, 3, 0, 9, 5, 3, 5, 7, 3, -1, -1, -1, -1, -1, -1],
    [0, 7, 8, 0, 1, 7, 1, 5, 7, -1, -1, -1, -1, -1, -1],
    [1, 5, 3, 3, 5, 7, -1, -1, -1, -1, -1, -1, -1, -1, -1],
    [9, 7, 8, 9, 5, 7, 10, 1, 2, -1, -1, -1, -1, -1, -1],
    [10, 1, 2, 9, 5, 0, 5, 3, 0, 5, 7, 3, -1, -1, -1],
    [8, 0, 2, 8, 2, 5, 8, 5, 7, 10, 5, 2, -1, -1, -1],
    [2, 10, 5, 2, 5, 3, 3, 5, 7, -1, -1, -1, -1, -1, -1],
    [7, 9, 5, 7, 8, 9, 3, 11, 2, -1, -1, -1, -1, -1, -1],
    [9, 5, 7, 9, 7, 2, 9, 2, 0, 2, 7, 11, -1, -1, -1],
    [2, 3, 11, 0, 1, 8, 1, 7, 8, 1, 5, 7, -1, -1, -1],
    [11, 2, 1, 11, 1, 7, 7, 1, 5, -1, -1, -1, -1, -1, -1],
    [9, 5, 8, 8, 5, 7, 10, 1, 3, 10, 3, 11, -1, -1, -1],
    [5, 7, 0, 5, 0, 9, 7, 11, 0, 1, 0, 10, 11, 10, 0],
    [11, 10, 0, 11, 0, 3, 10, 5, 0, 8, 0, 7, 5, 7, 0],
    [11, 10, 5, 7, 11, 5, -1, -1, -1, -1, -1, -1, -1, -1, -1],
];

/// Rows 64 to 127 of the triangulation table: the edge list of each
/// configuration, three edges per triangle, ended by -1.
pub const TRIANGULATIONS_1: [[i8; 15]; 64] = [
    [10, 6, 5, -1, -1, -1, -1, -1, -1, -1, -1, -1, -1, -1, -1],
    [0, 8, 3, 5, 10, 6, -1, -1, -1, -1, -1, -1, -1, -1, -1],
    [9, 0, 1, 5, 10, 6, -1, -1, -1, -1, -1, -1, -1, -1, -1],
    [1, 8, 3, 1, 9, 8, 5, 10, 6, -1, -1, -1, -1, -1, -1],
    [1, 6, 5, 2, 6, 1, -1, -1, -1, -1, -1, -1, -1, -1, -1],
    [1, 6, 5, 1, 2, 6, 3, 0, 8, -1, -1, -1, -1, -1, -1],
    [9, 6, 5, 9, 0, 6, 0, 2, 6, -1, -1, -1, -1, -1, -1],
    [5, 9, 8, 5, 8, 2, 5, 2, 6, 3, 2, 8, -1, -1, -1],
    [2, 3, 11, 10, 6, 5, -1, -1, -1, -1, -1, -1, -1, -1, -1],
    [11, 0, 8, 11, 2, 0, 10, 6, 5, -1, -1, -1, -1, -1, -1],
    [0, 1, 9, 2, 3, 11, 5, 10, 6, -1, -1, -1, -1, -1, -1],
    [5, 10, 6, 1, 9, 2, 9, 11, 2, 9, 8, 11, -1, -1, -1],
    [6, 3, 11, 6, 5, 3, 5, 1, 3, -1, -1, -1, -1, -1, -1],
    [0, 8, 11, 0, 11, 5, 0, 5, 1, 5, 11, 6, -1, -1, -1],
    [3, 11, 6, 0, 3, 6, 0, 6, 5, 0, 5, 9, -1, -1, -1],
    [6, 5, 9, 6, 9, 11, 11, 9, 8, -1, -1, -1, -1, -1, -1],
    [5, 10, 6, 4, 7, 8, -1, -1, -1, -1, -1, -1, -1, -1, -1],
    [4, 3, 0, 4, 7, 3, 6, 5, 10, -1, -1, -1, -1, -1, -1],
    [1, 9, 0, 5, 10, 6, 8, 4, 7, -1, -1, -1, -1, -1, -1],
    [10, 6, 5, 1, 9, 7, 1, 7, 3, 7, 9, 4, -1, -1, -1],
    [6, 1, 2, 6, 5, 1, 4, 7, 8, -1, -1, -1, -1, -1, -1],
    [1, 2, 5, 5, 2, 6, 3, 0, 4, 3, 4, 7, -1, -1, -1],
    [8, 4, 7, 9, 0, 5, 0, 6, 5, 0, 2, 6, -1, -1, -1],
    [7, 3, 9, 7, 9, 4, 3, 2, 9, 5, 9, 6, 2, 6, 9],
    [3, 11, 2, 7, 8, 4, 10, 6, 5, -1, -1, -1, -1, -1, -1],
    [5, 10, 6, 4, 7, 2, 4, 2, 0, 2, 7, 11, -1, -1, -1],
    [0, 1, 9, 4, 7, 8, 2, 3, 11, 5, 10, 6, -1, -1, -1],
    [9, 2, 1, 9, 11, 2, 9, 4, 11, 7, 11, 4, 5, 10, 6],
    [8, 4, 7, 3, 11, 5, 3, 5, 1, 5, 11, 6, -1, -1, -1],
    [5, 1, 11, 5, 11, 6, 1, 0, 11, 7, 11, 4, 0, 4, 11],
    [0, 5, 9, 0, 6, 5, 0, 3, 6, 11, 6, 3, 8, 4, 7],
    [6, 5, 9, 6, 9, 11, 4, 7, 9, 7, 11, 9, -1, -1, -1],
    [10, 4, 9, 6, 4, 10, -1, -1, -1, -1, -1, -1, -1, -1, -1],
    [4, 10, 6, 4, 9, 10, 0, 8, 3, -1, -1, -1, -1, -1, -1],
    [10, 0, 1, 10, 6, 0, 6, 4, 0, -1, -1, -1, -1, -1, -1],
    [8, 3, 1, 8, 1, 6, 8, 6, 4, 6, 1, 10, -1, -1, -1],
    [1, 4, 9, 1, 2, 4, 2, 6, 4, -1, -1, -1, -1, -1, -1],
    [3, 0, 8, 1, 2, 9, 2, 4, 9, 2, 6, 4, -1, -1, -1],
    [0, 2, 4, 4, 2, 6, -1, -1, -1, -1, -1, -1, -1, -1, -1],
    [8, 3, 2, 8, 2, 4, 4, 2, 6, -1, -1, -1, -1, -1, -1],
    [10, 4, 9, 10, 6, 4, 11, 2, 3, -1, -1, -1, -1, -1, -1],
    [0, 8, 2, 2, 8, 11, 4, 9, 10, 4, 10, 6, -1, -1, -1],
    [3, 11, 2, 0, 1, 6, 0, 6, 4, 6, 1, 10, -1, -1, -1],
    [6, 4, 1, 6, 1, 10, 4, 8, 1, 2, 1, 11, 8, 11, 1],
    [9, 6, 4, 9, 3, 6, 9, 1, 3, 11, 6, 3, -1, -1, -1],
    [8, 11, 1, 8, 1, 0, 11, 6, 1, 9, 1, 4, 6, 4, 1],
    [3, 11, 6, 3, 6, 0, 0, 6, 4, -1, -1, -1, -1, -1, -1],
    [6, 4, 8, 11, 6, 8, -1, -1, -1, -1, -1, -1, -1, -1, -1],
    [7, 10, 6, 7, 8, 10, 8, 9, 10, -1, -1, -1, -1, -1, -1],
    [0, 7, 3, 0, 10, 7, 0, 9, 10, 6, 7, 10, -1, -1, -1],
    [10, 6, 7, 1, 10, 7, 1, 7, 8, 1, 8, 0, -1, -1, -1],
    [10, 6, 7, 10, 7, 1, 1, 7, 3, -1, -1, -1, -1, -1, -1],
    [1, 2, 6, 1, 6, 8, 1, 8, 9, 8, 6, 7, -1, -1, -1],
    [2, 6, 9, 2, 9, 1, 6, 7, 9, 0, 9, 3, 7, 3, 9],
    [7, 8, 0, 7, 0, 6, 6, 0, 2, -1, -1, -1, -1, -1, -1],
    [7, 3, 2, 6, 7, 2, -1, -1, -1, -1, -1, -1, -1, -1, -1],
    [2, 3, 11, 10, 6, 8, 10, 8, 9, 8, 6, 7, -1, -1, -1],
    [2, 0, 7, 2, 7, 11, 0, 9, 7, 6, 7, 10, 9, 10, 7],
    [1, 8, 0, 1, 7, 8, 1, 10, 7, 6, 7, 10, 2, 3, 11],
    [11, 2, 1, 11, 1, 7, 10, 6, 1, 6, 7, 1, -1, -1, -1],
    [8, 9, 6, 8, 6, 7, 9, 1, 6, 11, 6, 3, 1, 3, 6],
    [0, 9, 1, 11, 6, 7, -1, -1, -1, -1, -1, -1, -1, -1, -1],
    [7, 8, 0, 7, 0, 6, 3, 11, 0, 11, 6, 0, -1, -1, -1],
    [7, 11, 6, -1, -1, -1, -1, -1, -1, -1, -1, -1, -1, -1, -1],
];

/// Rows 128 to 191 of the triangulation table: the edge list of each
/// configuration, three edges per triangle, ended by -1.
pub const TRIANGULATIONS_2: [[i8; 15]; 64] = [
    [7, 6, 11, -1, -1, -1, -1, -1, -1, -1, -1, -1, -1, -1, -1],
    [3, 0, 8, 11, 7, 6, -1, -1, -1, -1, -1, -1, -1, -1, -1],
    [0, 1, 9, 11, 7, 6, -1, -1, -1, -1, -1, -1, -1, -1, -1],
    [8, 1, 9, 8, 3, 1, 11, 7, 6, -1, -1, -1, -1, -1, -1],
    [10, 1, 2, 6, 11, 7, -1, -1, -1, -1, -1, -1, -1, -1, -1],
    [1, 2, 10, 3, 0, 8, 6, 11, 7, -1, -1, -1, -1, -1, -1],
    [2, 9, 0, 2, 10, 9, 6, 11, 7, -1, -1, -1, -1, -1, -1],
    [6, 11, 7, 2, 10, 3, 10, 8, 3, 10, 9, 8, -1, -1, -1],
    [7, 2, 3, 6, 2, 7, -1, -1, -1, -1, -1, -1, -1, -1, -1],
    [7, 0, 8, 7, 6, 0, 6, 2, 0, -1, -1, -1, -1, -1, -1],
    [2, 7, 6, 2, 3, 7, 0, 1, 9, -1, -1, -1, -1, -1, -1],
    [1, 6, 2, 1, 8, 6, 1, 9, 8, 8, 7, 6, -1, -1, -1],
    [10, 7, 6, 10, 1, 7, 1, 3, 7, -1, -1, -1, -1, -1, -1],
    [10, 7, 6, 1, 7, 10, 1, 8, 7, 1, 0, 8, -1, -1, -1],
    [0, 3, 7, 0, 7, 10, 0, 10, 9, 6, 10, 7, -1, -1, -1],
    [7, 6, 10, 7, 10, 8, 8, 10, 9, -1, -1, -1, -1, -1, -1],
    [6, 8, 4, 11, 8, 6, -1, -1, -1, -1, -1, -1, -1, -1, -1],
    [3, 6, 11, 3, 0, 6, 0, 4, 6, -1, -1, -1, -1, -1, -1],
    [8, 6, 11, 8, 4, 6, 9, 0, 1, -1, -1, -1, -1, -1, -1],
    [9, 4, 6, 9, 6, 3, 9, 3, 1, 11, 3, 6, -1, -1, -1],
    [6, 8, 4, 6, 11, 8, 2, 10, 1, -1, -1, -1, -1, -1, -1],
    [1, 2, 10, 3, 0, 11, 0, 6, 11, 0, 4, 6, -1, -1, -1],
    [4, 11, 8, 4, 6, 11, 0, 2, 9, 2, 10, 9, -1, -1, -1],
    [10, 9, 3, 10, 3, 2, 9, 4, 3, 11, 3, 6, 4, 6, 3],
    [8, 2, 3, 8, 4, 2, 4, 6, 2, -1, -1, -1, -1, -1, -1],
    [0, 4, 2, 4, 6, 2, -1, -1, -1, -1, -1, -1, -1, -1, -1],
    [1, 9, 0, 2, 3, 4, 2, 4, 6, 4, 3, 8, -1, -1, -1],
    [1, 9, 4, 1, 4, 2, 2, 4, 6, -1, -1, -1, -1, -1, -1],
    [8, 1, 3, 8, 6, 1, 8, 4, 6, 6, 10, 1, -1, -1, -1],
    [10, 1, 0, 10, 0, 6, 6, 0, 4, -1, -1, -1, -1, -1, -1],
    [4, 6, 3, 4, 3, 8, 6, 10, 3, 0, 3, 9, 10, 9, 3],
    [10, 9, 4, 6, 10, 4, -1, -1, -1, -1, -1, -1, -1, -1, -1],
    [4, 9, 5, 7, 6, 11, -1, -1, -1, -1, -1, -1, -1, -1, -1],
    [0, 8, 3, 4, 9, 5, 11, 7, 6, -1, -1, -1, -1, -1, -1],
    [5, 0, 1, 5, 4, 0, 7, 6, 11, -1, -1, -1, -1, -1, -1],
    [11, 7, 6, 8, 3, 4, 3, 5, 4, 3, 1, 5, -1, -1, -1],
    [9, 5, 4, 10, 1, 2, 7, 6, 11, -1, -1, -1, -1, -1, -1],
    [6, 11, 7, 1, 2, 10, 0, 8, 3, 4, 9, 5, -1, -1, -1],
    [7, 6, 11, 5, 4, 10, 4, 2, 10, 4, 0, 2, -1, -1, -1],
    [3, 4, 8, 3, 5, 4, 3, 2, 5, 10, 5, 2, 11, 7, 6],
    [7, 2, 3, 7, 6, 2, 5, 4, 9, -1, -1, -1, -1, -1, -1],
    [9, 5, 4, 0, 8, 6, 0, 6, 2, 6, 8, 7, -1, -1, -1],
    [3, 6, 2, 3, 7, 6, 1, 5, 0, 5, 4, 0, -1, -1, -1],
    [6, 2, 8, 6, 8, 7, 2, 1, 8, 4, 8, 5, 1, 5, 8],
    [9, 5, 4, 10, 1, 6, 1, 7, 6, 1, 3, 7, -1, -1, -1],
    [1, 6, 10, 1, 7, 6, 1, 0, 7, 8, 7, 0, 9, 5, 4],
    [4, 0, 10, 4, 10, 5, 0, 3, 10, 6, 10, 7, 3, 7, 10],
    [7, 6, 10, 7, 10, 8, 5, 4, 10, 4, 8, 10, -1, -1, -1],
    [6, 9, 5, 6, 11, 9, 11, 8, 9, -1, -1, -1, -1, -1, -1],
    [3, 6, 11, 0, 6, 3, 0, 5, 6, 0, 9, 5, -1, -1, -1],
    [0, 11, 8, 0, 5, 11, 0, 1, 5, 5, 6, 11, -1, -1, -1],
    [6, 11, 3, 6, 3, 5, 5, 3, 1, -1, -1, -1, -1, -1, -1],
    [1, 2, 10, 9, 5, 11, 9, 11, 8, 11, 5, 6, -1, -1, -1],
    [0, 11, 3, 0, 6, 11, 0, 9, 6, 5, 6, 9, 1, 2, 10],
    [11, 8, 5, 11, 5, 6, 8, 0, 5, 10, 5, 2, 0, 2, 5],
    [6, 11, 3, 6, 3, 5, 2, 10, 3, 10, 5, 3, -1, -1, -1],
    [5, 8, 9, 5, 2, 8, 5, 6, 2, 3, 8, 2, -1, -1, -1],
    [9, 5, 6, 9, 6, 0, 0, 6, 2, -1, -1, -1, -1, -1, -1],
    [1, 5, 8, 1, 8, 0, 5, 6, 8, 3, 8, 2, 6, 2, 8],
    [1, 5, 6, 2, 1, 6, -1, -1, -1, -1, -1, -1, -1, -1, -1],
    [1, 3, 6, 1, 6, 10, 3, 8, 6, 5, 6, 9, 8, 9, 6],
    [10, 1, 0, 10, 0, 6, 9, 5, 0, 5, 6, 0, -1, -1, -1],
    [0, 3, 8, 5, 6, 10, -1, -1, -1, -1, -1, -1, -1, -1, -1],
    [10, 5, 6, -1, -1, -1, -1, -1, -1, -1, -1, -1, -1, -1, -1],
];

/// Rows 192 to 255 of the triangulation table: the edge list of each
/// configuration, three edges per triangle, ended by -1.
pub const TRIANGULATIONS_3: [[i8; 15]; 64] = [
    [11, 5, 10, 7, 5, 11, -1, -1, -1, -1, -1, -1, -1, -1, -1],
    [11, 5, 10, 11, 7, 5, 8, 3, 0, -1, -1, -1, -1, -1, -1],
    [5, 11, 7, 5, 10, 11, 1, 9, 0, -1, -1, -1, -1, -1, -1],
    [10, 7, 5, 10, 11, 7, 9, 8, 1, 8, 3, 1, -1, -1, -1],
    [11, 1, 2, 11, 7, 1, 7, 5, 1, -1, -1, -1, -1, -1, -1],
    [0, 8, 3, 1, 2, 7, 1, 7, 5, 7, 2, 11, -1, -1, -1],
    [9, 7, 5, 9, 2, 7, 9, 0, 2, 2, 11, 7, -1, -1, -1],
    [7, 5, 2, 7, 2, 11, 5, 9, 2, 3, 2, 8, 9, 8, 2],
    [2, 5, 10, 2, 3, 5, 3, 7, 5, -1, -1, -1, -1, -1, -1],
    [8, 2, 0, 8, 5, 2, 8, 7, 5, 10, 2, 5, -1, -1, -1],
    [9, 0, 1, 5, 10, 3, 5, 3, 7, 3, 10, 2, -1, -1, -1],
    [9, 8, 2, 9, 2, 1, 8, 7, 2, 10, 2, 5, 7, 5, 2],
    [1, 3, 5, 3, 7, 5, -1, -1, -1, -1, -1, -1, -1, -1, -1],
    [0, 8, 7, 0, 7, 1, 1, 7, 5, -1, -1, -1, -1, -1, -1],
    [9, 0, 3, 9, 3, 5, 5, 3, 7, -1, -1, -1, -1, -1, -1],
    [9, 8, 7, 5, 9, 7, -1, -1, -1, -1, -1, -1, -1, -1, -1],
    [5, 8, 4, 5, 10, 8, 10, 11, 8, -1, -1, -1, -1, -1, -1],
    [5, 0, 4, 5, 11, 0, 5, 10, 11, 11, 3, 0, -1, -1, -1],
    [0, 1, 9, 8, 4, 10, 8, 10, 11, 10, 4, 5, -1, -1, -1],
    [10, 11, 4, 10, 4, 5, 11, 3, 4, 9, 4, 1, 3, 1, 4],
    [2, 5, 1, 2, 8, 5, 2, 11, 8, 4, 5, 8, -1, -1, -1],
    [0, 4, 11, 0, 11, 3, 4, 5, 11, 2, 11, 1, 5, 1, 11],
    [0, 2, 5, 0, 5, 9, 2, 11, 5, 4, 5, 8, 11, 8, 5],
    [9, 4, 5, 2, 11, 3, -1, -1, -1, -1, -1, -1, -1, -1, -1],
    [2, 5, 10, 3, 5, 2, 3, 4, 5, 3, 8, 4, -1, -1, -1],
    [5, 10, 2, 5, 2, 4, 4, 2, 0, -1, -1, -1, -1, -1, -1],
    [3, 10, 2, 3, 5, 10, 3, 8, 5, 4, 5, 8, 0, 1, 9],
    [5, 10, 2, 5, 2, 4, 1, 9, 2, 9, 4, 2, -1, -1, -1],
    [8, 4, 5, 8, 5, 3, 3, 5, 1, -1, -1, -1, -1, -1, -1],
    [0, 4, 5, 1, 0, 5, -1, -1, -1, -1, -1, -1, -1, -1, -1],
    [8, 4, 5, 8, 5, 3, 9, 0, 5, 0, 3, 5, -1, -1, -1],
    [9, 4, 5, -1, -1, -1, -1, -1, -1, -1, -1, -1, -1, -1, -1],
    [4, 11, 7, 4, 9, 11, 9, 10, 11, -1, -1, -1, -1, -1, -1],
    [0, 8, 3, 4, 9, 7, 9, 11, 7, 9, 10, 11, -1, -1, -1],
    [1, 10, 11, 1, 11, 4, 1, 4, 0, 7, 4, 11, -1, -1, -1],
    [3, 1, 4, 3, 4, 8, 1, 10, 4, 7, 4, 11, 10, 11, 4],
    [4, 11, 7, 9, 11, 4, 9, 2, 11, 9, 1, 2, -1, -1, -1],
    [9, 7, 4, 9, 11, 7, 9, 1, 11, 2, 11, 1, 0, 8, 3],
    [11, 7, 4, 11, 4, 2, 2, 4, 0, -1, -1, -1, -1, -1, -1],
    [11, 7, 4, 11, 4, 2, 8, 3, 4, 3, 2, 4, -1, -1, -1],
    [2, 9, 10, 2, 7, 9, 2, 3, 7, 7, 4, 9, -1, -1, -1],
    [9, 10, 7, 9, 7, 4, 10, 2, 7, 8, 7, 0, 2, 0, 7],
    [3, 7, 10, 3, 10, 2, 7, 4, 10, 1, 10, 0, 4, 0, 10],
    [1, 10, 2, 8, 7, 4, -1, -1, -1, -1, -1, -1, -1, -1, -1],
    [4, 9, 1, 4, 1, 7, 7, 1, 3, -1, -1, -1, -1, -1, -1],
    [4, 9, 1, 4, 1, 7, 0, 8, 1, 8, 7, 1, -1, -1, -1],
    [4, 0, 3, 7, 4, 3, -1, -1, -1, -1, -1, -1, -1, -1, -1],
    [4, 8, 7, -1, -1, -1, -1, -1, -1, -1, -1, -1, -1, -1, -1],
    [9, 10, 8, 10, 11, 8, -1, -1, -1, -1, -1, -1, -1, -1, -1],
    [3, 0, 9, 3, 9, 11, 11, 9, 10, -1, -1, -1, -1, -1, -1],
    [0, 1, 10, 0, 10, 8, 8, 10, 11, -1, -1, -1, -1, -1, -1],
    [3, 1, 10, 11, 3, 10, -1, -1, -1, -1, -1, -1, -1, -1, -1],
    [1, 2, 11, 1, 11, 9, 9, 11, 8, -1, -1, -1, -1, -1, -1],
    [3, 0, 9, 3, 9, 11, 1, 2, 9, 2, 11, 9, -1, -1, -1],
    [0, 2, 11, 8, 0, 11, -1, -1, -1, -1, -1, -1, -1, -1, -1],
    [3, 2, 11, -1, -1, -1, -1, -1, -1, -1, -1, -1, -1, -1, -1],
    [2, 3, 8, 2, 8, 10, 10, 8, 9, -1, -1, -1, -1, -1, -1],
    [9, 10, 2, 0, 9, 2, -1, -1, -1, -1, -1, -1, -1, -1, -1],
    [2, 3, 8, 2, 8, 10, 0, 1, 8, 1, 10, 8, -1, -1, -1],
    [1, 10, 2, -1, -1, -1, -1, -1, -1, -1, -1, -1, -1, -1, -1],
    [1, 3, 8, 9, 1, 8, -1, -1, -1, -1, -1, -1, -1, -1, -1],
    [0, 9, 1, -1, -1, -1, -1, -1, -1, -1, -1, -1, -1, -1, -1],
    [0, 3, 8, -1, -1, -1, -1, -1, -1, -1, -1, -1, -1, -1, -1],
    [-1, -1, -1, -1, -1, -1, -1, -1, -1, -1, -1, -1, -1, -1, -1],
];

/// Whether configuration `config` marks corner `corner` as inside: bit
/// `corner` of the index is set.
pub open spec fn corner_inside(config: int, corner: int) -> bool {
    if corner == 0 {
        config % 2 == 1
    } else if corner == 1 {
        (config / 2) % 2 == 1
    } else if corner == 2 {
        (config / 4) % 2 == 1
    } else if corner == 3 {
        (config / 8) % 2 == 1
    } else if corner == 4 {
        (config / 16) % 2 == 1
    } else if corner == 5 {
        (config / 32) % 2 == 1
    } else if corner == 6 {
        (config / 64) % 2 == 1
    } else {
        (config / 128) % 2 == 1
    }
}

/// Whether cube edge `edge` joins an inside corner to an outside one.
pub open spec fn edge_crosses(config: int, edge: int) -> bool {
    corner_inside(config, EDGES[edge].0 as int) != corner_inside(config, EDGES[edge].1 as int)
}

/// Number of triangles that a table row holds.
pub open spec fn tri_count(row: [i8; 15]) -> int {
    if row[0] < 0 {
        0
    } else if row[3] < 0 {
        1
    } else if row[6] < 0 {
        2
    } else if row[9] < 0 {
        3
    } else if row[12] < 0 {
        4
    } else {
        5
    }
}

/// A row of configuration `config`: its triangles name crossing edges only,
/// and the sentinel fills the rest.
pub open spec fn row_well_formed(config: int, row: [i8; 15]) -> bool {
    &&& forall|k: int|
        0 <= k < 3 * tri_count(row) ==> 0 <= #[trigger] row[k] < 12 && edge_crosses(
            config,
            row[k] as int,
        )
    &&& forall|k: int| 3 * tri_count(row) <= k < 15 ==> #[trigger] row[k] == -1
}

/// Whether `edge` stands among the triangle entries of `row`, written out
/// entry by entry.
pub open spec fn row_lists(row: [i8; 15], edge: int) -> bool {
    (3 * tri_count(row) > 0 && row[0] as int == edge)
        || (3 * tri_count(row) > 1 && row[1] as int == edge)
        || (3 * tri_count(row) > 2 && row[2] as int == edge)
        || (3 * tri_count(row) > 3 && row[3] as int == edge)
        || (3 * tri_count(row) > 4 && row[4] as int == edge)
        || (3 * tri_count(row) > 5 && row[5] as int == edge)
        || (3 * tri_count(row) > 6 && row[6] as int == edge)
        || (3 * tri_count(row) > 7 && row[7] as int == edge)
        || (3 * tri_count(row) > 8 && row[8] as int == edge)
        || (3 * tri_count(row) > 9 && row[9] as int == edge)
        || (3 * tri_count(row) > 10 && row[10] as int == edge)
        || (3 * tri_count(row) > 11 && row[11] as int == edge)
        || (3 * tri_count(row) > 12 && row[12] as int == edge)
        || (3 * tri_count(row) > 13 && row[13] as int == edge)
        || (3 * tri_count(row) > 14 && row[14] as int == edge)
}

/// A row of configuration `config` names every crossing edge, and holds a
/// triangle whenever the corners are not all alike.
pub open spec fn row_complete(config: int, row: [i8; 15]) -> bool {
    &&& (edge_crosses(config, 0) ==> row_lists(row, 0))
    &&& (edge_crosses(config, 1) ==> row_lists(row, 1))
    &&& (edge_crosses(config, 2) ==> row_lists(row, 2))
    &&& (edge_crosses(config, 3) ==> row_lists(row, 3))
    &&& (edge_crosses(config, 4) ==> row_lists(row, 4))
    &&& (edge_crosses(config, 5) ==> row_lists(row, 5))
    &&& (edge_crosses(config, 6) ==> row_lists(row, 6))
    &&& (edge_crosses(config, 7) ==> row_lists(row, 7))
    &&& (edge_crosses(config, 8) ==> row_lists(row, 8))
    &&& (edge_crosses(config, 9) ==> row_lists(row, 9))
    &&& (edge_crosses(config, 10) ==> row_lists(row, 10))
    &&& (edge_crosses(config, 11) ==> row_lists(row, 11))
    &&& (0 < config < 255 ==> tri_count(row) >= 1)
}

/// The triangulation table row of configuration `config`.
pub closed spec fn triangulation_row(config: int) -> [i8; 15] {
    if config < 64 {
        TRIANGULATIONS_0[config]
    } else if config < 128 {
        TRIANGULATIONS_1[config - 64]
    } else if config < 192 {
        TRIANGULATIONS_2[config - 128]
    } else {
        TRIANGULATIONS_3[config - 192]
    }
}

/// Looks up the triangulation of one configuration.
pub fn triangulation(config: u8) -> (row: [i8; 15])
    ensures
        row == triangulation_row(config as int),
{
    if config < 64 {
        TRIANGULATIONS_0[config as usize]
    } else if config < 128 {
        TRIANGULATIONS_1[(config - 64) as usize]
    } else if config < 192 {
        TRIANGULATIONS_2[(config - 128) as usize]
    } else {
        TRIANGULATIONS_3[(config - 192) as usize]
    }
}

/// The row of configuration `config` is the matching entry of the table.
pub proof fn lemma_row(config: int)
    requires
        0 <= config < 256,
    ensures
        triangulation_row(config) == (if config < 64 {
            TRIANGULATIONS_0[config]
        } else if config < 128 {
            TRIANGULATIONS_1[config - 64]
        } else if config < 192 {
            TRIANGULATIONS_2[config - 128]
        } else {
            TRIANGULATIONS_3[config - 192]
        }),
{
}

/// Every row of the triangulation table holds zero to five triangles, each
/// made of edges in `0..12` that cross the surface in that configuration.
pub proof fn lemma_triangulation_table(config: int)
    requires
        0 <= config < 256,
    ensures
        row_well_formed(config, triangulation_row(config)),
        0 <= tri_count(triangulation_row(config)) <= 5,
        forall|edge: int|
            0 <= edge < 12 && #[trigger] edge_crosses(config, edge) ==> exists|k: int|
                0 <= k < 3 * tri_count(triangulation_row(config)) && #[trigger] triangulation_row(
                    config,
                )[k] as int == edge,
        0 < config < 255 ==> tri_count(triangulation_row(config)) >= 1,
{
    lemma_table_complete(config);
    let row = triangulation_row(config);
    assert forall|edge: int| 0 <= edge < 12 && #[trigger] edge_crosses(config, edge) implies exists|k: int|
        0 <= k < 3 * tri_count(row) && #[trigger] row[k] as int == edge by {
        assert(edge == 0 || edge == 1 || edge == 2 || edge == 3 || edge == 4 || edge == 5 || edge
            == 6 || edge == 7 || edge == 8 || edge == 9 || edge == 10 || edge == 11);
        assert(row_lists(row, edge));
    }
    lemma_table_sound(config);
}

/// Every row names every crossing edge of its configuration, and mixed
/// configurations have a triangle.
pub proof fn lemma_table_complete(config: int)
    requires
        0 <= config < 256,
    ensures
        row_complete(config, triangulation_row(config)),
{

    if config < 128 {
        if config < 64 {
            if config < 32 {
                if config < 16 {
                    lemma_complete_from_0(config);
                } else {
                    lemma_complete_from_16(config);
                }
            } else {
                if config < 48 {
                    lemma_complete_from_32(config);
                } else {
                    lemma_complete_from_48(config);
                }
            }
        } else {
            if config < 96 {
                if config < 80 {
                    lemma_complete_from_64(config);
                } else {
                    lemma_complete_from_80(config);
                }
            } else {
                if config < 112 {
                    lemma_complete_from_96(config);
                } else {
                    lemma_complete_from_112(config);
                }
            }
        }
    } else {
        if config < 192 {
            if config < 160 {
                if config < 144 {
                    lemma_complete_from_128(config);
                } else {
                    lemma_complete_from_144(config);
                }
            } else {
                if config < 176 {
                    lemma_complete_from_160(config);
                } else {
                    lemma_complete_from_176(config);
                }
            }
        } else {
            if config < 224 {
                if config < 208 {
                    lemma_complete_from_192(config);
                } else {
                    lemma_complete_from_208(config);
                }
            } else {
                if config < 240 {
                    lemma_complete_from_224(config);
                } else {
                    lemma_complete_from_240(config);
                }
            }
        }
    }
}

/// Every row is well formed for its configuration.
proof fn lemma_table_sound(config: int)
    requires
        0 <= config < 256,
    ensures
        row_well_formed(config, triangulation_row(config)),
        0 <= tri_count(triangulation_row(config)) <= 5,
{

    if config < 128 {
        if config < 64 {
            if config < 32 {
                if config < 16 {
                    lemma_rows_from_0(config);
                } else {
                    lemma_rows_from_16(config);
                }
            } else {
                if config < 48 {
                    lemma_rows_from_32(config);
                } else {
                    lemma_rows_from_48(config);
                }
            }
        } else {
            if config < 96 {
                if config < 80 {
                    lemma_rows_from_64(config);
                } else {
                    lemma_rows_from_80(config);
                }
            } else {
                if config < 112 {
                    lemma_rows_from_96(config);
                } else {
                    lemma_rows_from_112(config);
                }
            }
        }
    } else {
        if config < 192 {
            if config < 160 {
                if config < 144 {
                    lemma_rows_from_128(config);
                } else {
                    lemma_rows_from_144(config);
                }
            } else {
                if config < 176 {
                    lemma_rows_from_160(config);
                } else {
                    lemma_rows_from_176(config);
                }
            }
        } else {
            if config < 224 {
                if config < 208 {
                    lemma_rows_from_192(config);
                } else {
                    lemma_rows_from_208(config);
                }
            } else {
                if config < 240 {
                    lemma_rows_from_224(config);
                } else {
                    lemma_rows_from_240(config);
                }
            }
        }
    }
}

#[verifier::spinoff_prover]
proof fn lemma_rows_from_0(config: int)
    requires
        0 <= config < 16,
    ensures
        row_well_formed(config, triangulation_row(config)),
{
    if config == 0 {
        assert(row_well_formed(0, triangulation_row(0)));
    } else if config == 1 {
        assert(row_well_formed(1, triangulation_row(1)));
    } else if config == 2 {
        assert(row_well_formed(2, triangulation_row(2)));
    } else if config == 3 {
        assert(row_well_formed(3, triangulation_row(3)));
    } else if config == 4 {
        assert(row_well_formed(4, triangulation_row(4)));
    } else if config == 5 {
        assert(row_well_formed(5, triangulation_row(5)));
    } else if config == 6 {
        assert(row_well_formed(6, triangulation_row(6)));
    } else if config == 7 {
        assert(row_well_formed(7, triangulation_row(7)));
    } else if config == 8 {
        assert(row_well_formed(8, triangulation_row(8)));
    } else if config == 9 {
        assert(row_well_formed(9, triangulation_row(9)));
    } else if config == 10 {
        assert(row_well_formed(10, triangulation_row(10)));
    } else if config == 11 {
        assert(row_well_formed(11, triangulation_row(11)));
    } else if config == 12 {
        assert(row_well_formed(12, triangulation_row(12)));
    } else if config == 13 {
        assert(row_well_formed(13, triangulation_row(13)));
    } else if config == 14 {
        assert(row_well_formed(14, triangulation_row(14)));
    } else {
        assert(row_well_formed(15, triangulation_row(15)));
    }
}

#[verifier::spinoff_prover]
proof fn lemma_rows_from_16(config: int)
    requires
        16 <= config < 32,
    ensures
        row_well_formed(config, triangulation_row(config)),
{
    if config == 16 {
        assert(row_well_formed(16, triangulation_row(16)));
    } else if config == 17 {
        assert(row_well_formed(17, triangulation_row(17)));
    } else if config == 18 {
        assert(row_well_formed(18, triangulation_row(18)));
    } else if config == 19 {
        assert(row_well_formed(19, triangulation_row(19)));
    } else if config == 20 {
        assert(row_well_formed(20, triangulation_row(20)));
    } else if config == 21 {
        assert(row_well_formed(21, triangulation_row(21)));
    } else if config == 22 {
        assert(row_well_formed(22, triangulation_row(22)));
    } else if config == 23 {
        assert(row_well_formed(23, triangulation_row(23)));
    } else if config == 24 {
        assert(row_well_formed(24, triangulation_row(24)));
    } else if config == 25 {
        assert(row_well_formed(25, triangulation_row(25)));
    } else if config == 26 {
        assert(row_well_formed(26, triangulation_row(26)));
    } else if config == 27 {
        assert(row_well_formed(27, triangulation_row(27)));
    } else if config == 28 {
        assert(row_well_formed(28, triangulation_row(28)));
    } else if config == 29 {
        assert(row_well_formed(29, triangulation_row(29)));
    } else if config == 30 {
        assert(row_well_formed(30, triangulation_row(30)));
    } else {
        assert(row_well_formed(31, triangulation_row(31)));
    }
}

#[verifier::spinoff_prover]
proof fn lemma_rows_from_32(config: int)
    requires
        32 <= config < 48,
    ensures
        row_well_formed(config, triangulation_row(config)),
{
    if config == 32 {
        assert(row_well_formed(32, triangulation_row(32)));
    } else if config == 33 {
        assert(row_well_formed(33, triangulation_row(33)));
    } else if config == 34 {
        assert(row_well_formed(34, triangulation_row(34)));
    } else if config == 35 {
        assert(row_well_formed(35, triangulation_row(35)));
    } else if config == 36 {
        assert(row_well_formed(36, triangulation_row(36)));
    } else if config == 37 {
        assert(row_well_formed(37, triangulation_row(37)));
    } else if config == 38 {
        assert(row_well_formed(38, triangulation_row(38)));
    } else if config == 39 {
        assert(row_well_formed(39, triangulation_row(39)));
    } else if config == 40 {
        assert(row_well_formed(40, triangulation_row(40)));
    } else if config == 41 {
        assert(row_well_formed(41, triangulation_row(41)));
    } else if config == 42 {
        assert(row_well_formed(42, triangulation_row(42)));
    } else if config == 43 {
        assert(row_well_formed(43, triangulation_row(43)));
    } else if config == 44 {
        assert(row_well_formed(44, triangulation_row(44)));
    } else if config == 45 {
        assert(row_well_formed(45, triangulation_row(45)));
    } else if config == 46 {
        assert(row_well_formed(46, triangulation_row(46)));
    } else {
        assert(row_well_formed(47, triangulation_row(47)));
    }
}

#[verifier::spinoff_prover]
proof fn lemma_rows_from_48(config: int)
    requires
        48 <= config < 64,
    ensures
        row_well_formed(config, triangulation_row(config)),
{
    if config == 48 {
        assert(row_well_formed(48, triangulation_row(48)));
    } else if config == 49 {
        assert(row_well_formed(49, triangulation_row(49)));
    } else if config == 50 {
        assert(row_well_formed(50, triangulation_row(50)));
    } else if config == 51 {
        assert(row_well_formed(51, triangulation_row(51)));
    } else if config == 52 {
        assert(row_well_formed(52, triangulation_row(52)));
    } else if config == 53 {
        assert(row_well_formed(53, triangulation_row(53)));
    } else if config == 54 {
        assert(row_well_formed(54, triangulation_row(54)));
    } else if config == 55 {
        assert(row_well_formed(55, triangulation_row(55)));
    } else if config == 56 {
        assert(row_well_formed(56, triangulation_row(56)));
    } else if config == 57 {
        assert(row_well_formed(57, triangulation_row(57)));
    } else if config == 58 {
        assert(row_well_formed(58, triangulation_row(58)));
    } else if config == 59 {
        assert(row_well_formed(59, triangulation_row(59)));
    } else if config == 60 {
        assert(row_well_formed(60, triangulation_row(60)));
    } else if config == 61 {
        assert(row_well_formed(61, triangulation_row(61)));
    } else if config == 62 {
        assert(row_well_formed(62, triangulation_row(62)));
    } else {
        assert(row_well_formed(63, triangulation_row(63)));
    }
}

#[verifier::spinoff_prover]
proof fn lemma_rows_from_64(config: int)
    requires
        64 <= config < 80,
    ensures
        row_well_formed(config, triangulation_row(config)),
{
    if config == 64 {
        assert(row_well_formed(64, triangulation_row(64)));
    } else if config == 65 {
        assert(row_well_formed(65, triangulation_row(65)));
    } else if config == 66 {
        assert(row_well_formed(66, triangulation_row(66)));
    } else if config == 67 {
        assert(row_well_formed(67, triangulation_row(67)));
    } else if config == 68 {
        assert(row_well_formed(68, triangulation_row(68)));
    } else if config == 69 {
        assert(row_well_formed(69, triangulation_row(69)));
    } else if config == 70 {
        assert(row_well_formed(70, triangulation_row(70)));
    } else if config == 71 {
        assert(row_well_formed(71, triangulation_row(71)));
    } else if config == 72 {
        assert(row_well_formed(72, triangulation_row(72)));
    } else if config == 73 {
        assert(row_well_formed(73, triangulation_row(73)));
    } else if config == 74 {
        assert(row_well_formed(74, triangulation_row(74)));
    } else if config == 75 {
        assert(row_well_formed(75, triangulation_row(75)));
    } else if config == 76 {
        assert(row_well_formed(76, triangulation_row(76)));
    } else if config == 77 {
        assert(row_well_formed(77, triangulation_row(77)));
    } else if config == 78 {
        assert(row_well_formed(78, triangulation_row(78)));
    } else {
        assert(row_well_formed(79, triangulation_row(79)));
    }
}

#[verifier::spinoff_prover]
proof fn lemma_rows_from_80(config: int)
    requires
        80 <= config < 96,
    ensures
        row_well_formed(config, triangulation_row(config)),
{
    if config == 80 {
        assert(row_well_formed(80, triangulation_row(80)));
    } else if config == 81 {
        assert(row_well_formed(81, triangulation_row(81)));
    } else if config == 82 {
        assert(row_well_formed(82, triangulation_row(82)));
    } else if config == 83 {
        assert(row_well_formed(83, triangulation_row(83)));
    } else if config == 84 {
        assert(row_well_formed(84, triangulation_row(84)));
    } else if config == 85 {
        assert(row_well_formed(85, triangulation_row(85)));
    } else if config == 86 {
        assert(row_well_formed(86, triangulation_row(86)));
    } else if config == 87 {
        assert(row_well_formed(87, triangulation_row(87)));
    } else if config == 88 {
        assert(row_well_formed(88, triangulation_row(88)));
    } else if config == 89 {
        assert(row_well_formed(89, triangulation_row(89)));
    } else if config == 90 {
        assert(row_well_formed(90, triangulation_row(90)));
    } else if config == 91 {
        assert(row_well_formed(91, triangulation_row(91)));
    } else if config == 92 {
        assert(row_well_formed(92, triangulation_row(92)));
    } else if config == 93 {
        assert(row_well_formed(93, triangulation_row(93)));
    } else if config == 94 {
        assert(row_well_formed(94, triangulation_row(94)));
    } else {
        assert(row_well_formed(95, triangulation_row(95)));
    }
}

#[verifier::spinoff_prover]
proof fn lemma_rows_from_96(config: int)
    requires
        96 <= config < 112,
    ensures
        row_well_formed(config, triangulation_row(config)),
{
    if config == 96 {
        assert(row_well_formed(96, triangulation_row(96)));
    } else if config == 97 {
        assert(row_well_formed(97, triangulation_row(97)));
    } else if config == 98 {
        assert(row_well_formed(98, triangulation_row(98)));
    } else if config == 99 {
        assert(row_well_formed(99, triangulation_row(99)));
    } else if config == 100 {
        assert(row_well_formed(100, triangulation_row(100)));
    } else if config == 101 {
        assert(row_well_formed(101, triangulation_row(101)));
    } else if config == 102 {
        assert(row_well_formed(102, triangulation_row(102)));
    } else if config == 103 {
        assert(row_well_formed(103, triangulation_row(103)));
    } else if config == 104 {
        assert(row_well_formed(104, triangulation_row(104)));
    } else if config == 105 {
        assert(row_well_formed(105, triangulation_row(105)));
    } else if config == 106 {
        assert(row_well_formed(106, triangulation_row(106)));
    } else if config == 107 {
        assert(row_well_formed(107, triangulation_row(107)));
    } else if config == 108 {
        assert(row_well_formed(108, triangulation_row(108)));
    } else if config == 109 {
        assert(row_well_formed(109, triangulation_row(109)));
    } else if config == 110 {
        assert(row_well_formed(110, triangulation_row(110)));
    } else {
        assert(row_well_formed(111, triangulation_row(111)));
    }
}

#[verifier::spinoff_prover]
proof fn lemma_rows_from_112(config: int)
    requires
        112 <= config < 128,
    ensures
        row_well_formed(config, triangulation_row(config)),
{
    if config == 112 {
        assert(row_well_formed(112, triangulation_row(112)));
    } else if config == 113 {
        assert(row_well_formed(113, triangulation_row(113)));
    } else if config == 114 {
        assert(row_well_formed(114, triangulation_row(114)));
    } else if config == 115 {
        assert(row_well_formed(115, triangulation_row(115)));
    } else if config == 116 {
        assert(row_well_formed(116, triangulation_row(116)));
    } else if config == 117 {
        assert(row_well_formed(117, triangulation_row(117)));
    } else if config == 118 {
        assert(row_well_formed(118, triangulation_row(118)));
    } else if config == 119 {
        assert(row_well_formed(119, triangulation_row(119)));
    } else if config == 120 {
        assert(row_well_formed(120, triangulation_row(120)));
    } else if config == 121 {
        assert(row_well_formed(121, triangulation_row(121)));
    } else if config == 122 {
        assert(row_well_formed(122, triangulation_row(122)));
    } else if config == 123 {
        assert(row_well_formed(123, triangulation_row(123)));
    } else if config == 124 {
        assert(row_well_formed(124, triangulation_row(124)));
    } else if config == 125 {
        assert(row_well_formed(125, triangulation_row(125)));
    } else if config == 126 {
        assert(row_well_formed(126, triangulation_row(126)));
    } else {
        assert(row_well_formed(127, triangulation_row(127)));
    }
}

#[verifier::spinoff_prover]
proof fn lemma_rows_from_128(config: int)
    requires
        128 <= config < 144,
    ensures
        row_well_formed(config, triangulation_row(config)),
{
    if config == 128 {
        assert(row_well_formed(128, triangulation_row(128)));
    } else if config == 129 {
        assert(row_well_formed(129, triangulation_row(129)));
    } else if config == 130 {
        assert(row_well_formed(130, triangulation_row(130)));
    } else if config == 131 {
        assert(row_well_formed(131, triangulation_row(131)));
    } else if config == 132 {
        assert(row_well_formed(132, triangulation_row(132)));
    } else if config == 133 {
        assert(row_well_formed(133, triangulation_row(133)));
    } else if config == 134 {
        assert(row_well_formed(134, triangulation_row(134)));
    } else if config == 135 {
        assert(row_well_formed(135, triangulation_row(135)));
    } else if config == 136 {
        assert(row_well_formed(136, triangulation_row(136)));
    } else if config == 137 {
        assert(row_well_formed(137, triangulation_row(137)));
    } else if config == 138 {
        assert(row_well_formed(138, triangulation_row(138)));
    } else if config == 139 {
        assert(row_well_formed(139, triangulation_row(139)));
    } else if config == 140 {
        assert(row_well_formed(140, triangulation_row(140)));
    } else if config == 141 {
        assert(row_well_formed(141, triangulation_row(141)));
    } else if config == 142 {
        assert(row_well_formed(142, triangulation_row(142)));
    } else {
        assert(row_well_formed(143, triangulation_row(143)));
    }
}

#[verifier::spinoff_prover]
proof fn lemma_rows_from_144(config: int)
    requires
        144 <= config < 160,
    ensures
        row_well_formed(config, triangulation_row(config)),
{
    if config == 144 {
        assert(row_well_formed(144, triangulation_row(144)));
    } else if config == 145 {
        assert(row_well_formed(145, triangulation_row(145)));
    } else if config == 146 {
        assert(row_well_formed(146, triangulation_row(146)));
    } else if config == 147 {
        assert(row_well_formed(147, triangulation_row(147)));
    } else if config == 148 {
        assert(row_well_formed(148, triangulation_row(148)));
    } else if config == 149 {
        assert(row_well_formed(149, triangulation_row(149)));
    } else if config == 150 {
        assert(row_well_formed(150, triangulation_row(150)));
    } else if config == 151 {
        assert(row_well_formed(151, triangulation_row(151)));
    } else if config == 152 {
        assert(row_well_formed(152, triangulation_row(152)));
    } else if config == 153 {
        assert(row_well_formed(153, triangulation_row(153)));
    } else if config == 154 {
        assert(row_well_formed(154, triangulation_row(154)));
    } else if config == 155 {
        assert(row_well_formed(155, triangulation_row(155)));
    } else if config == 156 {
        assert(row_well_formed(156, triangulation_row(156)));
    } else if config == 157 {
        assert(row_well_formed(157, triangulation_row(157)));
    } else if config == 158 {
        assert(row_well_formed(158, triangulation_row(158)));
    } else {
        assert(row_well_formed(159, triangulation_row(159)));
    }
}

#[verifier::spinoff_prover]
proof fn lemma_rows_from_160(config: int)
    requires
        160 <= config < 176,
    ensures
        row_well_formed(config, triangulation_row(config)),
{
    if config == 160 {
        assert(row_well_formed(160, triangulation_row(160)));
    } else if config == 161 {
        assert(row_well_formed(161, triangulation_row(161)));
    } else if config == 162 {
        assert(row_well_formed(162, triangulation_row(162)));
    } else if config == 163 {
        assert(row_well_formed(163, triangulation_row(163)));
    } else if config == 164 {
        assert(row_well_formed(164, triangulation_row(164)));
    } else if config == 165 {
        assert(row_well_formed(165, triangulation_row(165)));
    } else if config == 166 {
        assert(row_well_formed(166, triangulation_row(166)));
    } else if config == 167 {
        assert(row_well_formed(167, triangulation_row(167)));
    } else if config == 168 {
        assert(row_well_formed(168, triangulation_row(168)));
    } else if config == 169 {
        assert(row_well_formed(169, triangulation_row(169)));
    } else if config == 170 {
        assert(row_well_formed(170, triangulation_row(170)));
    } else if config == 171 {
        assert(row_well_formed(171, triangulation_row(171)));
    } else if config == 172 {
        assert(row_well_formed(172, triangulation_row(172)));
    } else if config == 173 {
        assert(row_well_formed(173, triangulation_row(173)));
    } else if config == 174 {
        assert(row_well_formed(174, triangulation_row(174)));
    } else {
        assert(row_well_formed(175, triangulation_row(175)));
    }
}

#[verifier::spinoff_prover]
proof fn lemma_rows_from_176(config: int)
    requires
        176 <= config < 192,
    ensures
        row_well_formed(config, triangulation_row(config)),
{
    if config == 176 {
        assert(row_well_formed(176, triangulation_row(176)));
    } else if config == 177 {
        assert(row_well_formed(177, triangulation_row(177)));
    } else if config == 178 {
        assert(row_well_formed(178, triangulation_row(178)));
    } else if config == 179 {
        assert(row_well_formed(179, triangulation_row(179)));
    } else if config == 180 {
        assert(row_well_formed(180, triangulation_row(180)));
    } else if config == 181 {
        assert(row_well_formed(181, triangulation_row(181)));
    } else if config == 182 {
        assert(row_well_formed(182, triangulation_row(182)));
    } else if config == 183 {
        assert(row_well_formed(183, triangulation_row(183)));
    } else if config == 184 {
        assert(row_well_formed(184, triangulation_row(184)));
    } else if config == 185 {
        assert(row_well_formed(185, triangulation_row(185)));
    } else if config == 186 {
        assert(row_well_formed(186, triangulation_row(186)));
    } else if config == 187 {
        assert(row_well_formed(187, triangulation_row(187)));
    } else if config == 188 {
        assert(row_well_formed(188, triangulation_row(188)));
    } else if config == 189 {
        assert(row_well_formed(189, triangulation_row(189)));
    } else if config == 190 {
        assert(row_well_formed(190, triangulation_row(190)));
    } else {
        assert(row_well_formed(191, triangulation_row(191)));
    }
}

#[verifier::spinoff_prover]
proof fn lemma_rows_from_192(config: int)
    requires
        192 <= config < 208,
    ensures
        row_well_formed(config, triangulation_row(config)),
{
    if config == 192 {
        assert(row_well_formed(192, triangulation_row(192)));
    } else if config == 193 {
        assert(row_well_formed(193, triangulation_row(193)));
    } else if config == 194 {
        assert(row_well_formed(194, triangulation_row(194)));
    } else if config == 195 {
        assert(row_well_formed(195, triangulation_row(195)));
    } else if config == 196 {
        assert(row_well_formed(196, triangulation_row(196)));
    } else if config == 197 {
        assert(row_well_formed(197, triangulation_row(197)));
    } else if config == 198 {
        assert(row_well_formed(198, triangulation_row(198)));
    } else if config == 199 {
        assert(row_well_formed(199, triangulation_row(199)));
    } else if config == 200 {
        assert(row_well_formed(200, triangulation_row(200)));
    } else if config == 201 {
        assert(row_well_formed(201, triangulation_row(201)));
    } else if config == 202 {
        assert(row_well_formed(202, triangulation_row(202)));
    } else if config == 203 {
        assert(row_well_formed(203, triangulation_row(203)));
    } else if config == 204 {
        assert(row_well_formed(204, triangulation_row(204)));
    } else if config == 205 {
        assert(row_well_formed(205, triangulation_row(205)));
    } else if config == 206 {
        assert(row_well_formed(206, triangulation_row(206)));
    } else {
        assert(row_well_formed(207, triangulation_row(207)));
    }
}

#[verifier::spinoff_prover]
proof fn lemma_rows_from_208(config: int)
    requires
        208 <= config < 224,
    ensures
        row_well_formed(config, triangulation_row(config)),
{
    if config == 208 {
        assert(row_well_formed(208, triangulation_row(208)));
    } else if config == 209 {
        assert(row_well_formed(209, triangulation_row(209)));
    } else if config == 210 {
        assert(row_well_formed(210, triangulation_row(210)));
    } else if config == 211 {
        assert(row_well_formed(211, triangulation_row(211)));
    } else if config == 212 {
        assert(row_well_formed(212, triangulation_row(212)));
    } else if config == 213 {
        assert(row_well_formed(213, triangulation_row(213)));
    } else if config == 214 {
        assert(row_well_formed(214, triangulation_row(214)));
    } else if config == 215 {
        assert(row_well_formed(215, triangulation_row(215)));
    } else if config == 216 {
        assert(row_well_formed(216, triangulation_row(216)));
    } else if config == 217 {
        assert(row_well_formed(217, triangulation_row(217)));
    } else if config == 218 {
        assert(row_well_formed(218, triangulation_row(218)));
    } else if config == 219 {
        assert(row_well_formed(219, triangulation_row(219)));
    } else if config == 220 {
        assert(row_well_formed(220, triangulation_row(220)));
    } else if config == 221 {
        assert(row_well_formed(221, triangulation_row(221)));
    } else if config == 222 {
        assert(row_well_formed(222, triangulation_row(222)));
    } else {
        assert(row_well_formed(223, triangulation_row(223)));
    }
}

#[verifier::spinoff_prover]
proof fn lemma_rows_from_224(config: int)
    requires
        224 <= config < 240,
    ensures
        row_well_formed(config, triangulation_row(config)),
{
    if config == 224 {
        assert(row_well_formed(224, triangulation_row(224)));
    } else if config == 225 {
        assert(row_well_formed(225, triangulation_row(225)));
    } else if config == 226 {
        assert(row_well_formed(226, triangulation_row(226)));
    } else if config == 227 {
        assert(row_well_formed(227, triangulation_row(227)));
    } else if config == 228 {
        assert(row_well_formed(228, triangulation_row(228)));
    } else if config == 229 {
        assert(row_well_formed(229, triangulation_row(229)));
    } else if config == 230 {
        assert(row_well_formed(230, triangulation_row(230)));
    } else if config == 231 {
        assert(row_well_formed(231, triangulation_row(231)));
    } else if config == 232 {
        assert(row_well_formed(232, triangulation_row(232)));
    } else if config == 233 {
        assert(row_well_formed(233, triangulation_row(233)));
    } else if config == 234 {
        assert(row_well_formed(234, triangulation_row(234)));
    } else if config == 235 {
        assert(row_well_formed(235, triangulation_row(235)));
    } else if config == 236 {
        assert(row_well_formed(236, triangulation_row(236)));
    } else if config == 237 {
        assert(row_well_formed(237, triangulation_row(237)));
    } else if config == 238 {
        assert(row_well_formed(238, triangulation_row(238)));
    } else {
        assert(row_well_formed(239, triangulation_row(239)));
    }
}

#[verifier::spinoff_prover]
proof fn lemma_rows_from_240(config: int)
    requires
        240 <= config < 256,
    ensures
        row_well_formed(config, triangulation_row(config)),
{
    if config == 240 {
        assert(row_well_formed(240, triangulation_row(240)));
    } else if config == 241 {
        assert(row_well_formed(241, triangulation_row(241)));
    } else if config == 242 {
        assert(row_well_formed(242, triangulation_row(242)));
    } else if config == 243 {
        assert(row_well_formed(243, triangulation_row(243)));
    } else if config == 244 {
        assert(row_well_formed(244, triangulation_row(244)));
    } else if config == 245 {
        assert(row_well_formed(245, triangulation_row(245)));
    } else if config == 246 {
        assert(row_well_formed(246, triangulation_row(246)));
    } else if config == 247 {
        assert(row_well_formed(247, triangulation_row(247)));
    } else if config == 248 {
        assert(row_well_formed(248, triangulation_row(248)));
    } else if config == 249 {
        assert(row_well_formed(249, triangulation_row(249)));
    } else if config == 250 {
        assert(row_well_formed(250, triangulation_row(250)));
    } else if config == 251 {
        assert(row_well_formed(251, triangulation_row(251)));
    } else if config == 252 {
        assert(row_well_formed(252, triangulation_row(252)));
    } else if config == 253 {
        assert(row_well_formed(253, triangulation_row(253)));
    } else if config == 254 {
        assert(row_well_formed(254, triangulation_row(254)));
    } else {
        assert(row_well_formed(255, triangulation_row(255)));
    }
}

#[verifier::spinoff_prover]
proof fn lemma_complete_from_0(config: int)
    requires
        0 <= config < 16,
    ensures
        row_complete(config, triangulation_row(config)),
{
    if config == 0 {
        assert(row_complete(0, triangulation_row(0)));
    } else if config == 1 {
        assert(row_complete(1, triangulation_row(1)));
    } else if config == 2 {
        assert(row_complete(2, triangulation_row(2)));
    } else if config == 3 {
        assert(row_complete(3, triangulation_row(3)));
    } else if config == 4 {
        assert(row_complete(4, triangulation_row(4)));
    } else if config == 5 {
        assert(row_complete(5, triangulation_row(5)));
    } else if config == 6 {
        assert(row_complete(6, triangulation_row(6)));
    } else if config == 7 {
        assert(row_complete(7, triangulation_row(7)));
    } else if config == 8 {
        assert(row_complete(8, triangulation_row(8)));
    } else if config == 9 {
        assert(row_complete(9, triangulation_row(9)));
    } else if config == 10 {
        assert(row_complete(10, triangulation_row(10)));
    } else if config == 11 {
        assert(row_complete(11, triangulation_row(11)));
    } else if config == 12 {
        assert(row_complete(12, triangulation_row(12)));
    } else if config == 13 {
        assert(row_complete(13, triangulation_row(13)));
    } else if config == 14 {
        assert(row_complete(14, triangulation_row(14)));
    } else {
        assert(row_complete(15, triangulation_row(15)));
    }
}

#[verifier::spinoff_prover]
proof fn lemma_complete_from_16(config: int)
    requires
        16 <= config < 32,
    ensures
        row_complete(config, triangulation_row(config)),
{
    if config == 16 {
        assert(row_complete(16, triangulation_row(16)));
    } else if config == 17 {
        assert(row_complete(17, triangulation_row(17)));
    } else if config == 18 {
        assert(row_complete(18, triangulation_row(18)));
    } else if config == 19 {
        assert(row_complete(19, triangulation_row(19)));
    } else if config == 20 {
        assert(row_complete(20, triangulation_row(20)));
    } else if config == 21 {
        assert(row_complete(21, triangulation_row(21)));
    } else if config == 22 {
        assert(row_complete(22, triangulation_row(22)));
    } else if config == 23 {
        assert(row_complete(23, triangulation_row(23)));
    } else if config == 24 {
        assert(row_complete(24, triangulation_row(24)));
    } else if config == 25 {
        assert(row_complete(25, triangulation_row(25)));
    } else if config == 26 {
        assert(row_complete(26, triangulation_row(26)));
    } else if config == 27 {
        assert(row_complete(27, triangulation_row(27)));
    } else if config == 28 {
        assert(row_complete(28, triangulation_row(28)));
    } else if config == 29 {
        assert(row_complete(29, triangulation_row(29)));
    } else if config == 30 {
        assert(row_complete(30, triangulation_row(30)));
    } else {
        assert(row_complete(31, triangulation_row(31)));
    }
}

#[verifier::spinoff_prover]
proof fn lemma_complete_from_32(config: int)
    requires
        32 <= config < 48,
    ensures
        row_complete(config, triangulation_row(config)),
{
    if config == 32 {
        assert(row_complete(32, triangulation_row(32)));
    } else if config == 33 {
        assert(row_complete(33, triangulation_row(33)));
    } else if config == 34 {
        assert(row_complete(34, triangulation_row(34)));
    } else if config == 35 {
        assert(row_complete(35, triangulation_row(35)));
    } else if config == 36 {
        assert(row_complete(36, triangulation_row(36)));
    } else if config == 37 {
        assert(row_complete(37, triangulation_row(37)));
    } else if config == 38 {
        assert(row_complete(38, triangulation_row(38)));
    } else if config == 39 {
        assert(row_complete(39, triangulation_row(39)));
    } else if config == 40 {
        assert(row_complete(40, triangulation_row(40)));
    } else if config == 41 {
        assert(row_complete(41, triangulation_row(41)));
    } else if config == 42 {
        assert(row_complete(42, triangulation_row(42)));
    } else if config == 43 {
        assert(row_complete(43, triangulation_row(43)));
    } else if config == 44 {
        assert(row_complete(44, triangulation_row(44)));
    } else if config == 45 {
        assert(row_complete(45, triangulation_row(45)));
    } else if config == 46 {
        assert(row_complete(46, triangulation_row(46)));
    } else {
        assert(row_complete(47, triangulation_row(47)));
    }
}

#[verifier::spinoff_prover]
proof fn lemma_complete_from_48(config: int)
    requires
        48 <= config < 64,
    ensures
        row_complete(config, triangulation_row(config)),
{
    if config == 48 {
        assert(row_complete(48, triangulation_row(48)));
    } else if config == 49 {
        assert(row_complete(49, triangulation_row(49)));
    } else if config == 50 {
        assert(row_complete(50, triangulation_row(50)));
    } else if config == 51 {
        assert(row_complete(51, triangulation_row(51)));
    } else if config == 52 {
        assert(row_complete(52, triangulation_row(52)));
    } else if config == 53 {
        assert(row_complete(53, triangulation_row(53)));
    } else if config == 54 {
        assert(row_complete(54, triangulation_row(54)));
    } else if config == 55 {
        assert(row_complete(55, triangulation_row(55)));
    } else if config == 56 {
        assert(row_complete(56, triangulation_row(56)));
    } else if config == 57 {
        assert(row_complete(57, triangulation_row(57)));
    } else if config == 58 {
        assert(row_complete(58, triangulation_row(58)));
    } else if config == 59 {
        assert(row_complete(59, triangulation_row(59)));
    } else if config == 60 {
        assert(row_complete(60, triangulation_row(60)));
    } else if config == 61 {
        assert(row_complete(61, triangulation_row(61)));
    } else if config == 62 {
        assert(row_complete(62, triangulation_row(62)));
    } else {
        assert(row_complete(63, triangulation_row(63)));
    }
}

#[verifier::spinoff_prover]
proof fn lemma_complete_from_64(config: int)
    requires
        64 <= config < 80,
    ensures
        row_complete(config, triangulation_row(config)),
{
    if config == 64 {
        assert(row_complete(64, triangulation_row(64)));
    } else if config == 65 {
        assert(row_complete(65, triangulation_row(65)));
    } else if config == 66 {
        assert(row_complete(66, triangulation_row(66)));
    } else if config == 67 {
        assert(row_complete(67, triangulation_row(67)));
    } else if config == 68 {
        assert(row_complete(68, triangulation_row(68)));
    } else if config == 69 {
        assert(row_complete(69, triangulation_row(69)));
    } else if config == 70 {
        assert(row_complete(70, triangulation_row(70)));
    } else if config == 71 {
        assert(row_complete(71, triangulation_row(71)));
    } else if config == 72 {
        assert(row_complete(72, triangulation_row(72)));
    } else if config == 73 {
        assert(row_complete(73, triangulation_row(73)));
    } else if config == 74 {
        assert(row_complete(74, triangulation_row(74)));
    } else if config == 75 {
        assert(row_complete(75, triangulation_row(75)));
    } else if config == 76 {
        assert(row_complete(76, triangulation_row(76)));
    } else if config == 77 {
        assert(row_complete(77, triangulation_row(77)));
    } else if config == 78 {
        assert(row_complete(78, triangulation_row(78)));
    } else {
        assert(row_complete(79, triangulation_row(79)));
    }
}

#[verifier::spinoff_prover]
proof fn lemma_complete_from_80(config: int)
    requires
        80 <= config < 96,
    ensures
        row_complete(config, triangulation_row(config)),
{
    if config == 80 {
        assert(row_complete(80, triangulation_row(80)));
    } else if config == 81 {
        assert(row_complete(81, triangulation_row(81)));
    } else if config == 82 {
        assert(row_complete(82, triangulation_row(82)));
    } else if config == 83 {
        assert(row_complete(83, triangulation_row(83)));
    } else if config == 84 {
        assert(row_complete(84, triangulation_row(84)));
    } else if config == 85 {
        assert(row_complete(85, triangulation_row(85)));
    } else if config == 86 {
        assert(row_complete(86, triangulation_row(86)));
    } else if config == 87 {
        assert(row_complete(87, triangulation_row(87)));
    } else if config == 88 {
        assert(row_complete(88, triangulation_row(88)));
    } else if config == 89 {
        assert(row_complete(89, triangulation_row(89)));
    } else if config == 90 {
        assert(row_complete(90, triangulation_row(90)));
    } else if config == 91 {
        assert(row_complete(91, triangulation_row(91)));
    } else if config == 92 {
        assert(row_complete(92, triangulation_row(92)));
    } else if config == 93 {
        assert(row_complete(93, triangulation_row(93)));
    } else if config == 94 {
        assert(row_complete(94, triangulation_row(94)));
    } else {
        assert(row_complete(95, triangulation_row(95)));
    }
}

#[verifier::spinoff_prover]
proof fn lemma_complete_from_96(config: int)
    requires
        96 <= config < 112,
    ensures
        row_complete(config, triangulation_row(config)),
{
    if config == 96 {
        assert(row_complete(96, triangulation_row(96)));
    } else if config == 97 {
        assert(row_complete(97, triangulation_row(97)));
    } else if config == 98 {
        assert(row_complete(98, triangulation_row(98)));
    } else if config == 99 {
        assert(row_complete(99, triangulation_row(99)));
    } else if config == 100 {
        assert(row_complete(100, triangulation_row(100)));
    } else if config == 101 {
        assert(row_complete(101, triangulation_row(101)));
    } else if config == 102 {
        assert(row_complete(102, triangulation_row(102)));
    } else if config == 103 {
        assert(row_complete(103, triangulation_row(103)));
    } else if config == 104 {
        assert(row_complete(104, triangulation_row(104)));
    } else if config == 105 {
        assert(row_complete(105, triangulation_row(105)));
    } else if config == 106 {
        assert(row_complete(106, triangulation_row(106)));
    } else if config == 107 {
        assert(row_complete(107, triangulation_row(107)));
    } else if config == 108 {
        assert(row_complete(108, triangulation_row(108)));
    } else if config == 109 {
        assert(row_complete(109, triangulation_row(109)));
    } else if config == 110 {
        assert(row_complete(110, triangulation_row(110)));
    } else {
        assert(row_complete(111, triangulation_row(111)));
    }
}

#[verifier::spinoff_prover]
proof fn lemma_complete_from_112(config: int)
    requires
        112 <= config < 128,
    ensures
        row_complete(config, triangulation_row(config)),
{
    if config == 112 {
        assert(row_complete(112, triangulation_row(112)));
    } else if config == 113 {
        assert(row_complete(113, triangulation_row(113)));
    } else if config == 114 {
        assert(row_complete(114, triangulation_row(114)));
    } else if config == 115 {
        assert(row_complete(115, triangulation_row(115)));
    } else if config == 116 {
        assert(row_complete(116, triangulation_row(116)));
    } else if config == 117 {
        assert(row_complete(117, triangulation_row(117)));
    } else if config == 118 {
        assert(row_complete(118, triangulation_row(118)));
    } else if config == 119 {
        assert(row_complete(119, triangulation_row(119)));
    } else if config == 120 {
        assert(row_complete(120, triangulation_row(120)));
    } else if config == 121 {
        assert(row_complete(121, triangulation_row(121)));
    } else if config == 122 {
        assert(row_complete(122, triangulation_row(122)));
    } else if config == 123 {
        assert(row_complete(123, triangulation_row(123)));
    } else if config == 124 {
        assert(row_complete(124, triangulation_row(124)));
    } else if config == 125 {
        assert(row_complete(125, triangulation_row(125)));
    } else if config == 126 {
        assert(row_complete(126, triangulation_row(126)));
    } else {
        assert(row_complete(127, triangulation_row(127)));
    }
}

#[verifier::spinoff_prover]
proof fn lemma_complete_from_128(config: int)
    requires
        128 <= config < 144,
    ensures
        row_complete(config, triangulation_row(config)),
{
    if config == 128 {
        assert(row_complete(128, triangulation_row(128)));
    } else if config == 129 {
        assert(row_complete(129, triangulation_row(129)));
    } else if config == 130 {
        assert(row_complete(130, triangulation_row(130)));
    } else if config == 131 {
        assert(row_complete(131, triangulation_row(131)));
    } else if config == 132 {
        assert(row_complete(132, triangulation_row(132)));
    } else if config == 133 {
        assert(row_complete(133, triangulation_row(133)));
    } else if config == 134 {
        assert(row_complete(134, triangulation_row(134)));
    } else if config == 135 {
        assert(row_complete(135, triangulation_row(135)));
    } else if config == 136 {
        assert(row_complete(136, triangulation_row(136)));
    } else if config == 137 {
        assert(row_complete(137, triangulation_row(137)));
    } else if config == 138 {
        assert(row_complete(138, triangulation_row(138)));
    } else if config == 139 {
        assert(row_complete(139, triangulation_row(139)));
    } else if config == 140 {
        assert(row_complete(140, triangulation_row(140)));
    } else if config == 141 {
        assert(row_complete(141, triangulation_row(141)));
    } else if config == 142 {
        assert(row_complete(142, triangulation_row(142)));
    } else {
        assert(row_complete(143, triangulation_row(143)));
    }
}

#[verifier::spinoff_prover]
proof fn lemma_complete_from_144(config: int)
    requires
        144 <= config < 160,
    ensures
        row_complete(config, triangulation_row(config)),
{
    if config == 144 {
        assert(row_complete(144, triangulation_row(144)));
    } else if config == 145 {
        assert(row_complete(145, triangulation_row(145)));
    } else if config == 146 {
        assert(row_complete(146, triangulation_row(146)));
    } else if config == 147 {
        assert(row_complete(147, triangulation_row(147)));
    } else if config == 148 {
        assert(row_complete(148, triangulation_row(148)));
    } else if config == 149 {
        assert(row_complete(149, triangulation_row(149)));
    } else if config == 150 {
        assert(row_complete(150, triangulation_row(150)));
    } else if config == 151 {
        assert(row_complete(151, triangulation_row(151)));
    } else if config == 152 {
        assert(row_complete(152, triangulation_row(152)));
    } else if config == 153 {
        assert(row_complete(153, triangulation_row(153)));
    } else if config == 154 {
        assert(row_complete(154, triangulation_row(154)));
    } else if config == 155 {
        assert(row_complete(155, triangulation_row(155)));
    } else if config == 156 {
        assert(row_complete(156, triangulation_row(156)));
    } else if config == 157 {
        assert(row_complete(157, triangulation_row(157)));
    } else if config == 158 {
        assert(row_complete(158, triangulation_row(158)));
    } else {
        assert(row_complete(159, triangulation_row(159)));
    }
}

#[verifier::spinoff_prover]
proof fn lemma_complete_from_160(config: int)
    requires
        160 <= config < 176,
    ensures
        row_complete(config, triangulation_row(config)),
{
    if config == 160 {
        assert(row_complete(160, triangulation_row(160)));
    } else if config == 161 {
        assert(row_complete(161, triangulation_row(161)));
    } else if config == 162 {
        assert(row_complete(162, triangulation_row(162)));
    } else if config == 163 {
        assert(row_complete(163, triangulation_row(163)));
    } else if config == 164 {
        assert(row_complete(164, triangulation_row(164)));
    } else if config == 165 {
        assert(row_complete(165, triangulation_row(165)));
    } else if config == 166 {
        assert(row_complete(166, triangulation_row(166)));
    } else if config == 167 {
        assert(row_complete(167, triangulation_row(167)));
    } else if config == 168 {
        assert(row_complete(168, triangulation_row(168)));
    } else if config == 169 {
        assert(row_complete(169, triangulation_row(169)));
    } else if config == 170 {
        assert(row_complete(170, triangulation_row(170)));
    } else if config == 171 {
        assert(row_complete(171, triangulation_row(171)));
    } else if config == 172 {
        assert(row_complete(172, triangulation_row(172)));
    } else if config == 173 {
        assert(row_complete(173, triangulation_row(173)));
    } else if config == 174 {
        assert(row_complete(174, triangulation_row(174)));
    } else {
        assert(row_complete(175, triangulation_row(175)));
    }
}

#[verifier::spinoff_prover]
proof fn lemma_complete_from_176(config: int)
    requires
        176 <= config < 192,
    ensures
        row_complete(config, triangulation_row(config)),
{
    if config == 176 {
        assert(row_complete(176, triangulation_row(176)));
    } else if config == 177 {
        assert(row_complete(177, triangulation_row(177)));
    } else if config == 178 {
        assert(row_complete(178, triangulation_row(178)));
    } else if config == 179 {
        assert(row_complete(179, triangulation_row(179)));
    } else if config == 180 {
        assert(row_complete(180, triangulation_row(180)));
    } else if config == 181 {
        assert(row_complete(181, triangulation_row(181)));
    } else if config == 182 {
        assert(row_complete(182, triangulation_row(182)));
    } else if config == 183 {
        assert(row_complete(183, triangulation_row(183)));
    } else if config == 184 {
        assert(row_complete(184, triangulation_row(184)));
    } else if config == 185 {
        assert(row_complete(185, triangulation_row(185)));
    } else if config == 186 {
        assert(row_complete(186, triangulation_row(186)));
    } else if config == 187 {
        assert(row_complete(187, triangulation_row(187)));
    } else if config == 188 {
        assert(row_complete(188, triangulation_row(188)));
    } else if config == 189 {
        assert(row_complete(189, triangulation_row(189)));
    } else if config == 190 {
        assert(row_complete(190, triangulation_row(190)));
    } else {
        assert(row_complete(191, triangulation_row(191)));
    }
}

#[verifier::spinoff_prover]
proof fn lemma_complete_from_192(config: int)
    requires
        192 <= config < 208,
    ensures
        row_complete(config, triangulation_row(config)),
{
    if config == 192 {
        assert(row_complete(192, triangulation_row(192)));
    } else if config == 193 {
        assert(row_complete(193, triangulation_row(193)));
    } else if config == 194 {
        assert(row_complete(194, triangulation_row(194)));
    } else if config == 195 {
        assert(row_complete(195, triangulation_row(195)));
    } else if config == 196 {
        assert(row_complete(196, triangulation_row(196)));
    } else if config == 197 {
        assert(row_complete(197, triangulation_row(197)));
    } else if config == 198 {
        assert(row_complete(198, triangulation_row(198)));
    } else if config == 199 {
        assert(row_complete(199, triangulation_row(199)));
    } else if config == 200 {
        assert(row_complete(200, triangulation_row(200)));
    } else if config == 201 {
        assert(row_complete(201, triangulation_row(201)));
    } else if config == 202 {
        assert(row_complete(202, triangulation_row(202)));
    } else if config == 203 {
        assert(row_complete(203, triangulation_row(203)));
    } else if config == 204 {
        assert(row_complete(204, triangulation_row(204)));
    } else if config == 205 {
        assert(row_complete(205, triangulation_row(205)));
    } else if config == 206 {
        assert(row_complete(206, triangulation_row(206)));
    } else {
        assert(row_complete(207, triangulation_row(207)));
    }
}

#[verifier::spinoff_prover]
proof fn lemma_complete_from_208(config: int)
    requires
        208 <= config < 224,
    ensures
        row_complete(config, triangulation_row(config)),
{
    if config == 208 {
        assert(row_complete(208, triangulation_row(208)));
    } else if config == 209 {
        assert(row_complete(209, triangulation_row(209)));
    } else if config == 210 {
        assert(row_complete(210, triangulation_row(210)));
    } else if config == 211 {
        assert(row_complete(211, triangulation_row(211)));
    } else if config == 212 {
        assert(row_complete(212, triangulation_row(212)));
    } else if config == 213 {
        assert(row_complete(213, triangulation_row(213)));
    } else if config == 214 {
        assert(row_complete(214, triangulation_row(214)));
    } else if config == 215 {
        assert(row_complete(215, triangulation_row(215)));
    } else if config == 216 {
        assert(row_complete(216, triangulation_row(216)));
    } else if config == 217 {
        assert(row_complete(217, triangulation_row(217)));
    } else if config == 218 {
        assert(row_complete(218, triangulation_row(218)));
    } else if config == 219 {
        assert(row_complete(219, triangulation_row(219)));
    } else if config == 220 {
        assert(row_complete(220, triangulation_row(220)));
    } else if config == 221 {
        assert(row_complete(221, triangulation_row(221)));
    } else if config == 222 {
        assert(row_complete(222, triangulation_row(222)));
    } else {
        assert(row_complete(223, triangulation_row(223)));
    }
}

#[verifier::spinoff_prover]
proof fn lemma_complete_from_224(config: int)
    requires
        224 <= config < 240,
    ensures
        row_complete(config, triangulation_row(config)),
{
    if config == 224 {
        assert(row_complete(224, triangulation_row(224)));
    } else if config == 225 {
        assert(row_complete(225, triangulation_row(225)));
    } else if config == 226 {
        assert(row_complete(226, triangulation_row(226)));
    } else if config == 227 {
        assert(row_complete(227, triangulation_row(227)));
    } else if config == 228 {
        assert(row_complete(228, triangulation_row(228)));
    } else if config == 229 {
        assert(row_complete(229, triangulation_row(229)));
    } else if config == 230 {
        assert(row_complete(230, triangulation_row(230)));
    } else if config == 231 {
        assert(row_complete(231, triangulation_row(231)));
    } else if config == 232 {
        assert(row_complete(232, triangulation_row(232)));
    } else if config == 233 {
        assert(row_complete(233, triangulation_row(233)));
    } else if config == 234 {
        assert(row_complete(234, triangulation_row(234)));
    } else if config == 235 {
        assert(row_complete(235, triangulation_row(235)));
    } else if config == 236 {
        assert(row_complete(236, triangulation_row(236)));
    } else if config == 237 {
        assert(row_complete(237, triangulation_row(237)));
    } else if config == 238 {
        assert(row_complete(238, triangulation_row(238)));
    } else {
        assert(row_complete(239, triangulation_row(239)));
    }
}

#[verifier::spinoff_prover]
proof fn lemma_complete_from_240(config: int)
    requires
        240 <= config < 256,
    ensures
        row_complete(config, triangulation_row(config)),
{
    if config == 240 {
        assert(row_complete(240, triangulation_row(240)));
    } else if config == 241 {
        assert(row_complete(241, triangulation_row(241)));
    } else if config == 242 {
        assert(row_complete(242, triangulation_row(242)));
    } else if config == 243 {
        assert(row_complete(243, triangulation_row(243)));
    } else if config == 244 {
        assert(row_complete(244, triangulation_row(244)));
    } else if config == 245 {
        assert(row_complete(245, triangulation_row(245)));
    } else if config == 246 {
        assert(row_complete(246, triangulation_row(246)));
    } else if config == 247 {
        assert(row_complete(247, triangulation_row(247)));
    } else if config == 248 {
        assert(row_complete(248, triangulation_row(248)));
    } else if config == 249 {
        assert(row_complete(249, triangulation_row(249)));
    } else if config == 250 {
        assert(row_complete(250, triangulation_row(250)));
    } else if config == 251 {
        assert(row_complete(251, triangulation_row(251)));
    } else if config == 252 {
        assert(row_complete(252, triangulation_row(252)));
    } else if config == 253 {
        assert(row_complete(253, triangulation_row(253)));
    } else if config == 254 {
        assert(row_complete(254, triangulation_row(254)));
    } else {
        assert(row_complete(255, triangulation_row(255)));
    }
}

} // verus!
