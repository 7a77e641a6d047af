//! The dual-vertex mesher ("surface nets") on the sign grid: which cells
//! carry a vertex, and the quads that join the vertices of the four cells
//! round each grid edge where the sign flips.
use vstd::prelude::*;
use std::collections::HashMap;
use crate::grid::{GridEdge, GridPoint, SignGrid};
use crate::marching::{cell_at, cell_count, crosses, edge_in_grid};

verus! {

broadcast use vstd::std_specs::hash::group_hash_axioms;

/// The twelve edges of a cell as pairs of corners; corner `c` lies at offset
/// `(c / 4 % 2, c / 2 % 2, c % 2)`.
pub const OFFSETS: [(usize, usize); 12] = [
    (0b000, 0b001),
    (0b000, 0b010),
    (0b000, 0b100),
    (0b001, 0b011),
    (0b001, 0b101),
    (0b010, 0b011),
    (0b010, 0b110),
    (0b011, 0b111),
    (0b100, 0b101),
    (0b100, 0b110),
    (0b101, 0b111),
    (0b110, 0b111),
];

/// Which way the sign flips along a grid edge.
#[derive(Clone, Copy, Debug, PartialEq, Eq, Structural)]
pub enum FaceResult {
    NoFace,
    /// The first point is inside, the second outside.
    FacePositive,
    /// The first point is outside, the second inside.
    FaceNegative,
}

/// A quad of four cell vertices, by index; viewed face-front they stand as
/// `v[0] v[2]` over `v[1] v[3]`.
#[derive(Clone, Copy, Debug)]
pub struct Quad {
    pub v: [u32; 4],
    /// Whether the sign flips from inside to outside along the edge.
    pub positive: bool,
}

/// The cells that carry a vertex, in scan order, and the quads between them.
pub struct NetMesh {
    pub cells: Vec<GridPoint>,
    pub quads: Vec<Quad>,
}

/// Corner `c` of cell `(x, y, z)` in this mesher's numbering.
pub open spec fn offset_point(x: int, y: int, z: int, c: int) -> GridPoint {
    GridPoint { x: (x + c / 4 % 2) as usize, y: (y + c / 2 % 2) as usize, z: (z + c % 2) as usize }
}

/// Edge `k` of cell `(x, y, z)`.
pub open spec fn net_edge(x: int, y: int, z: int, k: int) -> GridEdge {
    GridEdge { a: offset_point(x, y, z, OFFSETS[k].0 as int), b: offset_point(x, y, z, OFFSETS[k].1 as int) }
}

/// The crossing edges among the first `k` edges of cell `(x, y, z)`.
pub open spec fn net_edges_upto(g: SignGrid, x: int, y: int, z: int, k: nat) -> Seq<GridEdge>
    decreases k,
{
    if k == 0 {
        Seq::empty()
    } else {
        let prev = net_edges_upto(g, x, y, z, (k - 1) as nat);
        if crosses(g, net_edge(x, y, z, k - 1)) {
            prev.push(net_edge(x, y, z, k - 1))
        } else {
            prev
        }
    }
}

/// The crossing edges of cell `c`, in the order of `OFFSETS`.
pub open spec fn net_edges(g: SignGrid, c: GridPoint) -> Seq<GridEdge> {
    net_edges_upto(g, c.x as int, c.y as int, c.z as int, 12)
}

/// Whether cell `c` carries a vertex: one of its edges crosses.
pub open spec fn has_vertex(g: SignGrid, c: GridPoint) -> bool {
    net_edges(g, c).len() > 0
}

/// The cell of scan position `i`.
pub open spec fn scan_cell(g: SignGrid, i: nat) -> GridPoint {
    let c = cell_at(g.resolution as int, i);
    GridPoint { x: c.0 as usize, y: c.1 as usize, z: c.2 as usize }
}

/// The cells with a vertex among the first `i` in scan order.
pub open spec fn vertex_cells_before(g: SignGrid, i: nat) -> Seq<GridPoint>
    decreases i,
{
    if i == 0 {
        Seq::empty()
    } else {
        let prev = vertex_cells_before(g, (i - 1) as nat);
        if has_vertex(g, scan_cell(g, (i - 1) as nat)) {
            prev.push(scan_cell(g, (i - 1) as nat))
        } else {
            prev
        }
    }
}

/// The cells with a vertex, in scan order.
pub open spec fn vertex_cells(g: SignGrid) -> Seq<GridPoint> {
    vertex_cells_before(g, cell_count(g))
}

/// How the sign flips from `p` to `q`.
pub open spec fn face_of(g: SignGrid, p: GridPoint, q: GridPoint) -> FaceResult {
    if g.inside_at(p) && !g.inside_at(q) {
        FaceResult::FacePositive
    } else if !g.inside_at(p) && g.inside_at(q) {
        FaceResult::FaceNegative
    } else {
        FaceResult::NoFace
    }
}

/// `p` moved by `(dx, dy, dz)`.
pub open spec fn shifted(p: GridPoint, dx: int, dy: int, dz: int) -> GridPoint {
    GridPoint { x: (p.x + dx) as usize, y: (p.y + dy) as usize, z: (p.z + dz) as usize }
}

/// Unit step along axis `axis` (0, 1, 2 for x, y, z).
pub open spec fn unit(axis: int) -> (int, int, int) {
    if axis == 0 {
        (1, 0, 0)
    } else if axis == 1 {
        (0, 1, 0)
    } else {
        (0, 0, 1)
    }
}

/// The four cells round the grid edge from `p` along `axis`, in quad order:
/// `p`, `p - a1`, `p - a2`, `p - a1 - a2` with `a1`, `a2` the next two axes.
pub open spec fn quad_cell(p: GridPoint, axis: int, k: int) -> GridPoint {
    let a1 = unit((axis + 1) % 3);
    let a2 = unit((axis + 2) % 3);
    if k == 0 {
        p
    } else if k == 1 {
        shifted(p, -a1.0, -a1.1, -a1.2)
    } else if k == 2 {
        shifted(p, -a2.0, -a2.1, -a2.2)
    } else {
        shifted(p, -a1.0 - a2.0, -a1.1 - a2.1, -a1.2 - a2.2)
    }
}

/// Whether the grid edge from `p` along `axis` gets a quad: the other two
/// coordinates are not zero, so that four cells lie round it, and the sign
/// flips along it.
pub open spec fn is_quad_edge(g: SignGrid, p: GridPoint, axis: int) -> bool {
    let u = unit(axis);
    let q = shifted(p, u.0, u.1, u.2);
    &&& (axis == 0 ==> p.y != 0 && p.z != 0)
    &&& (axis == 1 ==> p.x != 0 && p.z != 0)
    &&& (axis == 2 ==> p.x != 0 && p.y != 0)
    &&& face_of(g, p, q) != FaceResult::NoFace
}

/// The quad edges `(p, axis)` of axes below `axis` at cell `p`.
pub open spec fn quad_edges_at(g: SignGrid, p: GridPoint, axis: nat) -> Seq<(GridPoint, int)>
    decreases axis,
{
    if axis == 0 {
        Seq::empty()
    } else {
        let prev = quad_edges_at(g, p, (axis - 1) as nat);
        if is_quad_edge(g, p, axis - 1) {
            prev.push((p, axis - 1))
        } else {
            prev
        }
    }
}

/// The quad edges of the first `i` cells in scan order.
pub open spec fn quad_edges_before(g: SignGrid, i: nat) -> Seq<(GridPoint, int)>
    decreases i,
{
    if i == 0 {
        Seq::empty()
    } else {
        quad_edges_before(g, (i - 1) as nat) + quad_edges_at(g, scan_cell(g, (i - 1) as nat), 3)
    }
}

/// The quad edges of the grid in scan order, axes x, y, z at each cell.
pub open spec fn quad_edges(g: SignGrid) -> Seq<(GridPoint, int)> {
    quad_edges_before(g, cell_count(g))
}

/// Whether `quad` is the quad of grid edge `edge`, over the vertex cells
/// `cells`.
pub open spec fn quad_matches(
    g: SignGrid,
    cells: Seq<GridPoint>,
    quad: Quad,
    edge: (GridPoint, int),
) -> bool {
    let u = unit(edge.1);
    &&& quad.positive == (face_of(g, edge.0, shifted(edge.0, u.0, u.1, u.2))
        == FaceResult::FacePositive)
    &&& forall|k: int|
        0 <= k < 4 ==> (#[trigger] quad.v[k] as int) < cells.len() && cells[quad.v[k] as int]
            == quad_cell(edge.0, edge.1, k)
}

/// Whether the mesh is the surface net of the grid.
pub open spec fn is_surface_net(g: SignGrid, cells: Seq<GridPoint>, quads: Seq<Quad>) -> bool {
    &&& cells == vertex_cells(g)
    &&& quads.len() == quad_edges(g).len()
    &&& forall|q: int| 0 <= q < quads.len() ==> quad_matches(g, cells, #[trigger] quads[q], quad_edges(g)[q])
}

/// The number that the vertex map keys a cell by.
pub open spec fn cell_code(c: GridPoint) -> u64 {
    (c.x as u64) | ((c.y as u64) << 16u64) | ((c.z as u64) << 32u64)
}

proof fn lemma_cell_code(c1: GridPoint, c2: GridPoint)
    requires
        c1.x < 0x10000 && c1.y < 0x10000 && c1.z < 0x10000,
        c2.x < 0x10000 && c2.y < 0x10000 && c2.z < 0x10000,
        cell_code(c1) == cell_code(c2),
    ensures
        c1 == c2,
{
    let (a1, b1, d1, a2, b2, d2) = (
        c1.x as u64,
        c1.y as u64,
        c1.z as u64,
        c2.x as u64,
        c2.y as u64,
        c2.z as u64,
    );
    assert(a1 == a2 && b1 == b2 && d1 == d2) by (bit_vector)
        requires
            a1 < 0x10000,
            b1 < 0x10000,
            d1 < 0x10000,
            a2 < 0x10000,
            b2 < 0x10000,
            d2 < 0x10000,
            a1 | (b1 << 16u64) | (d1 << 32u64) == a2 | (b2 << 16u64) | (d2 << 32u64),
    ;
}

fn code_of(c: &GridPoint) -> (r: u64)
    requires
        c.x < 0x10000 && c.y < 0x10000 && c.z < 0x10000,
    ensures
        r == cell_code(*c),
{
    (c.x as u64) | ((c.y as u64) << 16u64) | ((c.z as u64) << 32u64)
}

/// The vertex map over the vertex cells `cells`.
spec fn map_inv(cells: Seq<GridPoint>, map: Map<u64, u32>) -> bool {
    &&& forall|j: int|
        0 <= j < cells.len() ==> map.contains_key(cell_code(#[trigger] cells[j])) && map[cell_code(
            cells[j],
        )] == j && cells[j].x < 0x10000 && cells[j].y < 0x10000 && cells[j].z < 0x10000
    &&& forall|k: u64|
        #[trigger] map.contains_key(k) ==> (map[k] as int) < cells.len() && cell_code(
            cells[map[k] as int],
        ) == k
}

/// The crossing edges of a cell, in the order of `OFFSETS`.
pub fn find_edges(g: &SignGrid, cell: GridPoint) -> (r: Vec<GridEdge>)
    requires
        g.wf(),
        cell.x < g.resolution,
        cell.y < g.resolution,
        cell.z < g.resolution,
    ensures
        r@ == net_edges(*g, cell),
        forall|i: int| 0 <= i < r@.len() ==> crosses(*g, #[trigger] r@[i]) && edge_in_grid(*g, r@[i]),
{
    let mut out: Vec<GridEdge> = Vec::new();
    let mut k: usize = 0;
    while k < 12
        invariant
            g.wf(),
            cell.x < g.resolution,
            cell.y < g.resolution,
            cell.z < g.resolution,
            k <= 12,
            out@ == net_edges_upto(*g, cell.x as int, cell.y as int, cell.z as int, k as nat),
            forall|i: int| 0 <= i < out@.len() ==> crosses(*g, #[trigger] out@[i]) && edge_in_grid(*g, out@[i]),
        decreases 12 - k,
    {
        let (o1, o2) = OFFSETS[k];
        let a = GridPoint { x: cell.x + o1 / 4 % 2, y: cell.y + o1 / 2 % 2, z: cell.z + o1 % 2 };
        let b = GridPoint { x: cell.x + o2 / 4 % 2, y: cell.y + o2 / 2 % 2, z: cell.z + o2 % 2 };
        let e = GridEdge { a, b };
        assert(e == net_edge(cell.x as int, cell.y as int, cell.z as int, k as int));
        if g.read(a.x, a.y, a.z) != g.read(b.x, b.y, b.z) {
            out.push(e);
        }
        k = k + 1;
    }
    out
}

/// How the sign flips from lattice point `p` to lattice point `q`.
pub fn is_face(g: &SignGrid, p: GridPoint, q: GridPoint) -> (r: FaceResult)
    requires
        g.wf(),
        g.contains(p),
        g.contains(q),
    ensures
        r == face_of(*g, p, q),
{
    let a = g.read(p.x, p.y, p.z);
    let b = g.read(q.x, q.y, q.z);
    if a && !b {
        FaceResult::FacePositive
    } else if !a && b {
        FaceResult::FaceNegative
    } else {
        FaceResult::NoFace
    }
}

/// The vertex index of cell `c`, if it carries one.
fn lookup(cells: &Vec<GridPoint>, map: &HashMap<u64, u32>, c: GridPoint) -> (r: Option<u32>)
    requires
        map_inv(cells@, map@),
        c.x < 0x10000 && c.y < 0x10000 && c.z < 0x10000,
    ensures
        r matches Some(v) ==> (v as int) < cells@.len() && cells@[v as int] == c,
        r is None ==> !cells@.contains(c),
{
    let code = code_of(&c);
    match map.get(&code) {
        Some(v) => {
            proof {
                lemma_cell_code(cells@[*v as int], c);
            }
            Some(*v)
        },
        None => {
            proof {
                if cells@.contains(c) {
                    let j = choose|j: int| 0 <= j < cells@.len() && cells@[j] == c;
                    assert(map@.contains_key(cell_code(cells@[j])));
                }
            }
            None
        },
    }
}

/// Adds the quad of the grid edge from cell `p` along `axis`, if it has one.
fn make_quad(
    g: &SignGrid,
    cells: &Vec<GridPoint>,
    map: &HashMap<u64, u32>,
    p: GridPoint,
    axis: usize,
    quads: &mut Vec<Quad>,
    Ghost(done): Ghost<Seq<(GridPoint, int)>>,
)
    requires
        g.wf(),
        cells@ == vertex_cells(*g),
        map_inv(cells@, map@),
        p.x < g.resolution,
        p.y < g.resolution,
        p.z < g.resolution,
        axis < 3,
        old(quads)@.len() == done.len(),
        forall|q: int| 0 <= q < done.len() ==> quad_matches(*g, cells@, #[trigger] old(quads)@[q], done[q]),
    ensures
        ({
            let d = if is_quad_edge(*g, p, axis as int) {
                done.push((p, axis as int))
            } else {
                done
            };
            &&& final(quads)@.len() == d.len()
            &&& forall|q: int| 0 <= q < d.len() ==> quad_matches(*g, cells@, #[trigger] final(quads)@[q], d[q])
        }),
{
    let ghost ax = axis as int;
    if axis == 0 && (p.y == 0 || p.z == 0) {
        return;
    }
    if axis == 1 && (p.x == 0 || p.z == 0) {
        return;
    }
    if axis == 2 && (p.x == 0 || p.y == 0) {
        return;
    }
    let q = if axis == 0 {
        GridPoint { x: p.x + 1, y: p.y, z: p.z }
    } else if axis == 1 {
        GridPoint { x: p.x, y: p.y + 1, z: p.z }
    } else {
        GridPoint { x: p.x, y: p.y, z: p.z + 1 }
    };
    let face = is_face(g, p, q);
    if face == FaceResult::NoFace {
        return;
    }
    proof {
        lemma_flip_cells_have_vertices(*g, p, ax);
    }
    let (c1, c2, c3) = if axis == 0 {
        (
            GridPoint { x: p.x, y: p.y - 1, z: p.z },
            GridPoint { x: p.x, y: p.y, z: p.z - 1 },
            GridPoint { x: p.x, y: p.y - 1, z: p.z - 1 },
        )
    } else if axis == 1 {
        (
            GridPoint { x: p.x, y: p.y, z: p.z - 1 },
            GridPoint { x: p.x - 1, y: p.y, z: p.z },
            GridPoint { x: p.x - 1, y: p.y, z: p.z - 1 },
        )
    } else {
        (
            GridPoint { x: p.x - 1, y: p.y, z: p.z },
            GridPoint { x: p.x, y: p.y - 1, z: p.z },
            GridPoint { x: p.x - 1, y: p.y - 1, z: p.z },
        )
    };
    assert(c1 == quad_cell(p, ax, 1));
    assert(c2 == quad_cell(p, ax, 2));
    assert(c3 == quad_cell(p, ax, 3));
    assert(p == quad_cell(p, ax, 0));
    // The four cells carry vertices, so no lookup below comes back empty.
    let v0 = match lookup(cells, map, p) {
        Some(v) => v,
        None => {
            proof {
                assert(vertex_cells(*g).contains(quad_cell(p, ax, 0)));
            }
            return;
        },
    };
    let v1 = match lookup(cells, map, c1) {
        Some(v) => v,
        None => {
            proof {
                assert(vertex_cells(*g).contains(quad_cell(p, ax, 1)));
            }
            return;
        },
    };
    let v2 = match lookup(cells, map, c2) {
        Some(v) => v,
        None => {
            proof {
                assert(vertex_cells(*g).contains(quad_cell(p, ax, 2)));
            }
            return;
        },
    };
    let v3 = match lookup(cells, map, c3) {
        Some(v) => v,
        None => {
            proof {
                assert(vertex_cells(*g).contains(quad_cell(p, ax, 3)));
            }
            return;
        },
    };
    let quad = Quad { v: [v0, v1, v2, v3], positive: face == FaceResult::FacePositive };
    proof {
        assert(is_quad_edge(*g, p, ax));
        assert(quad_matches(*g, cells@, quad, (p, ax)));
    }
    quads.push(quad);
}

/// Builds the surface net of the grid: one vertex per cell with a crossing
/// edge, and one quad per grid edge where the sign flips, between the
/// vertices of the four cells round it.
pub fn surface_net(g: &SignGrid) -> (r: NetMesh)
    requires
        g.wf(),
    ensures
        is_surface_net(*g, r.cells@, r.quads@),
{
    let n: usize = g.resolution;
    assert(n * n <= 512 * 512) by (nonlinear_arith)
        requires
            n <= 512,
    ;
    assert(n * n * n <= 512 * 512 * 512) by (nonlinear_arith)
        requires
            n <= 512,
            n * n <= 512 * 512,
    ;
    let total: usize = n * n * n;
    let mut cells: Vec<GridPoint> = Vec::new();
    let mut map: HashMap<u64, u32> = HashMap::new();
    let mut x: usize = 0;
    let mut y: usize = 0;
    let mut z: usize = 0;
    let mut i: usize = 0;
    proof {
        assert(map@ =~= Map::<u64, u32>::empty());
    }
    while i < total
        invariant
            g.wf(),
            n == g.resolution,
            total == n * n * n,
            total <= 512 * 512 * 512,
            i <= total,
            i < total ==> (x as int, y as int, z as int) == cell_at(n as int, i as nat),
            cells@ == vertex_cells_before(*g, i as nat),
            cells@.len() <= i,
            map_inv(cells@, map@),
            forall|j: int|
                0 <= j < cells@.len() ==> (#[trigger] cells@[j]).x + n * cells@[j].y + n * n
                    * cells@[j].z < i,
        decreases total - i,
    {
        proof {
            crate::marching::lemma_cell_in_range(n as int, i as nat);
            crate::marching::lemma_cell_at(n as int, i as nat);
        }
        let c = GridPoint { x, y, z };
        assert(c == scan_cell(*g, i as nat));
        let edges = find_edges(g, c);
        if edges.len() > 0 {
            let v: u32 = cells.len() as u32;
            let code = code_of(&c);
            map.insert(code, v);
            cells.push(c);
            proof {
                let cs = cells@;
                assert forall|j: int| 0 <= j < cs.len() implies map@.contains_key(
                    cell_code(#[trigger] cs[j]),
                ) && map@[cell_code(cs[j])] == j && cs[j].x < 0x10000 && cs[j].y < 0x10000
                    && cs[j].z < 0x10000 by {
                    if j < cs.len() - 1 {
                        if cell_code(cs[j]) == code {
                            lemma_cell_code(cs[j], c);
                        }
                    }
                }
                assert forall|k: u64| #[trigger] map@.contains_key(k) implies (map@[k] as int)
                    < cs.len() && cell_code(cs[map@[k] as int]) == k by {
                }
            }
        }
        proof {
            crate::marching::lemma_cell_step(n as int, i as nat);
            assert(((i + 1) as nat - 1) as nat == i as nat);
        }
        x = x + 1;
        if x == n {
            x = 0;
            y = y + 1;
            if y == n {
                y = 0;
                z = z + 1;
            }
        }
        i = i + 1;
    }
    let mut quads: Vec<Quad> = Vec::new();
    x = 0;
    y = 0;
    z = 0;
    i = 0;
    while i < total
        invariant
            g.wf(),
            n == g.resolution,
            total == n * n * n,
            i <= total,
            i < total ==> (x as int, y as int, z as int) == cell_at(n as int, i as nat),
            cells@ == vertex_cells(*g),
            map_inv(cells@, map@),
            quads@.len() == quad_edges_before(*g, i as nat).len(),
            forall|q: int|
                0 <= q < quads@.len() ==> quad_matches(
                    *g,
                    cells@,
                    #[trigger] quads@[q],
                    quad_edges_before(*g, i as nat)[q],
                ),
        decreases total - i,
    {
        proof {
            crate::marching::lemma_cell_in_range(n as int, i as nat);
        }
        let p = GridPoint { x, y, z };
        let ghost before = quad_edges_before(*g, i as nat);
        assert(p == scan_cell(*g, i as nat));
        proof {
            assert(before + quad_edges_at(*g, p, 0) =~= before);
        }
        make_quad(g, &cells, &map, p, 0, &mut quads, Ghost(before + quad_edges_at(*g, p, 0)));
        proof {
            assert(before + quad_edges_at(*g, p, 1) =~= (if is_quad_edge(*g, p, 0) {
                (before + quad_edges_at(*g, p, 0)).push((p, 0))
            } else {
                before + quad_edges_at(*g, p, 0)
            }));
        }
        make_quad(g, &cells, &map, p, 1, &mut quads, Ghost(before + quad_edges_at(*g, p, 1)));
        proof {
            assert(before + quad_edges_at(*g, p, 2) =~= (if is_quad_edge(*g, p, 1) {
                (before + quad_edges_at(*g, p, 1)).push((p, 1))
            } else {
                before + quad_edges_at(*g, p, 1)
            }));
        }
        make_quad(g, &cells, &map, p, 2, &mut quads, Ghost(before + quad_edges_at(*g, p, 2)));
        proof {
            assert(before + quad_edges_at(*g, p, 3) =~= (if is_quad_edge(*g, p, 2) {
                (before + quad_edges_at(*g, p, 2)).push((p, 2))
            } else {
                before + quad_edges_at(*g, p, 2)
            }));
            assert(quad_edges_before(*g, (i + 1) as nat) == before + quad_edges_at(*g, p, 3));
        }
        proof {
            crate::marching::lemma_cell_step(n as int, i as nat);
        }
        x = x + 1;
        if x == n {
            x = 0;
            y = y + 1;
            if y == n {
                y = 0;
                z = z + 1;
            }
        }
        i = i + 1;
    }
    NetMesh { cells, quads }
}

/// The two triangles of a quad, split along `v[0]`-`v[3]` when
/// `shorter_14` holds and along `v[1]`-`v[2]` otherwise, wound by the
/// direction of the sign flip.
pub open spec fn quad_tris(q: Quad, shorter_14: bool) -> Seq<u32> {
    let (v1, v2, v3, v4) = (q.v[0], q.v[1], q.v[2], q.v[3]);
    if shorter_14 {
        if q.positive {
            seq![v1, v2, v4, v1, v4, v3]
        } else {
            seq![v1, v4, v2, v1, v3, v4]
        }
    } else {
        if q.positive {
            seq![v2, v4, v3, v2, v3, v1]
        } else {
            seq![v2, v3, v4, v2, v1, v3]
        }
    }
}

/// The two triangles of one quad.
pub fn quad_triangles(q: &Quad, shorter_14: bool) -> (r: [u32; 6])
    ensures
        r@ == quad_tris(*q, shorter_14),
{
    let (v1, v2, v3, v4) = (q.v[0], q.v[1], q.v[2], q.v[3]);
    let r = if shorter_14 {
        if q.positive {
            [v1, v2, v4, v1, v4, v3]
        } else {
            [v1, v4, v2, v1, v3, v4]
        }
    } else {
        if q.positive {
            [v2, v4, v3, v2, v3, v1]
        } else {
            [v2, v3, v4, v2, v1, v3]
        }
    };
    assert(r@ =~= quad_tris(*q, shorter_14));
    r
}

/// The index list of the quads: six indices per quad, in order, each quad
/// split along the diagonal that `shorter_14` names for it.
pub fn triangulate_quads(quads: &Vec<Quad>, shorter_14: &Vec<bool>) -> (r: Vec<u32>)
    requires
        shorter_14@.len() == quads@.len(),
    ensures
        r@.len() == 6 * quads@.len(),
        forall|q: int, j: int|
            0 <= q < quads@.len() && 0 <= j < 6 ==> r@[6 * q + j] == #[trigger] quad_tris(
                quads@[q],
                shorter_14@[q],
            )[j],
{
    let mut out: Vec<u32> = Vec::new();
    let mut k: usize = 0;
    while k < quads.len()
        invariant
            shorter_14@.len() == quads@.len(),
            k <= quads@.len(),
            out@.len() == 6 * k,
            forall|q: int, j: int|
                0 <= q < k && 0 <= j < 6 ==> out@[6 * q + j] == #[trigger] quad_tris(
                    quads@[q],
                    shorter_14@[q],
                )[j],
        decreases quads@.len() - k,
    {
        let t = quad_triangles(&quads[k], shorter_14[k]);
        let mut j: usize = 0;
        while j < 6
            invariant
                k < quads@.len(),
                shorter_14@.len() == quads@.len(),
                j <= 6,
                t@ == quad_tris(quads@[k as int], shorter_14@[k as int]),
                out@.len() == 6 * k + j,
                forall|q: int, i: int|
                    0 <= q < k && 0 <= i < 6 ==> out@[6 * q + i] == #[trigger] quad_tris(
                        quads@[q],
                        shorter_14@[q],
                    )[i],
                forall|i: int| 0 <= i < j ==> out@[6 * k + i] == t@[i],
            decreases 6 - j,
        {
            out.push(t[j]);
            j = j + 1;
        }
        proof {
            assert forall|q: int, i: int| 0 <= q < k + 1 && 0 <= i < 6 implies out@[6 * q + i]
                == #[trigger] quad_tris(quads@[q], shorter_14@[q])[i] by {
                if q == k {
                    assert(out@[6 * k + i] == t@[i]);
                }
            }
        }
        k = k + 1;
    }
    out
}

/// The two sign flips wind a quad's triangles opposite ways: each triangle of
/// the one is the matching triangle of the other with two corners swapped.
pub proof fn lemma_winding_flips(v: [u32; 4], shorter_14: bool)
    ensures
        ({
            let pos = quad_tris(Quad { v, positive: true }, shorter_14);
            let neg = quad_tris(Quad { v, positive: false }, shorter_14);
            &&& neg[0] == pos[0] && neg[1] == pos[2] && neg[2] == pos[1]
            &&& neg[3] == pos[3] && neg[4] == pos[5] && neg[5] == pos[4]
        }),
{
}

proof fn lemma_vertex_cells_contains(g: SignGrid, i: nat, j: nat)
    requires
        j < i,
        has_vertex(g, scan_cell(g, j)),
    ensures
        vertex_cells_before(g, i).contains(scan_cell(g, j)),
    decreases i,
{
    let prev = vertex_cells_before(g, (i - 1) as nat);
    if j < i - 1 {
        lemma_vertex_cells_contains(g, (i - 1) as nat, j);
        let w = choose|w: int| 0 <= w < prev.len() && prev[w] == scan_cell(g, j);
        if has_vertex(g, scan_cell(g, (i - 1) as nat)) {
            assert(vertex_cells_before(g, i)[w] == scan_cell(g, j));
        }
    } else {
        assert(vertex_cells_before(g, i)[prev.len() as int] == scan_cell(g, j));
    }
}

/// Every cell of the grid comes once in the scan, at its linear index.
proof fn lemma_scan_cell_of(g: SignGrid, c: GridPoint)
    requires
        g.wf(),
        c.x < g.resolution,
        c.y < g.resolution,
        c.z < g.resolution,
    ensures
        0 <= c.x + g.resolution * c.y + g.resolution * g.resolution * c.z < cell_count(g),
        scan_cell(g, (c.x + g.resolution * c.y + g.resolution * g.resolution * c.z) as nat) == c,
{
    let n = g.resolution as int;
    crate::grid::lemma_index_bound(n, c.x as int, c.y as int, c.z as int);
    let l = (c.x + n * c.y + n * n * c.z) as nat;
    crate::marching::lemma_cell_at(n, l);
    crate::marching::lemma_cell_in_range(n, l);
    let d = cell_at(n, l);
    crate::marching::lemma_radix(n, d.0, d.1, d.2, c.x as int, c.y as int, c.z as int);
}

proof fn lemma_net_edges_nonempty(g: SignGrid, c: GridPoint, m: int, k: nat)
    requires
        0 <= m < k,
        crosses(g, net_edge(c.x as int, c.y as int, c.z as int, m)),
    ensures
        net_edges_upto(g, c.x as int, c.y as int, c.z as int, k).len() > 0,
    decreases k,
{
    if m < k - 1 {
        lemma_net_edges_nonempty(g, c, m, (k - 1) as nat);
    }
}

/// A cell with a crossing edge is one of the vertex cells.
proof fn lemma_vertex_cell(g: SignGrid, c: GridPoint, m: int)
    requires
        g.wf(),
        c.x < g.resolution,
        c.y < g.resolution,
        c.z < g.resolution,
        0 <= m < 12,
        crosses(g, net_edge(c.x as int, c.y as int, c.z as int, m)),
    ensures
        vertex_cells(g).contains(c),
{
    lemma_net_edges_nonempty(g, c, m, 12);
    lemma_scan_cell_of(g, c);
    let n = g.resolution as int;
    lemma_vertex_cells_contains(g, cell_count(g), (c.x + n * c.y + n * n * c.z) as nat);
}

/// Where the sign flips along a grid edge that gets a quad, the four cells
/// round it carry vertices.
pub proof fn lemma_flip_cells_have_vertices(g: SignGrid, p: GridPoint, axis: int)
    requires
        g.wf(),
        p.x < g.resolution,
        p.y < g.resolution,
        p.z < g.resolution,
        0 <= axis < 3,
        axis == 0 ==> p.y != 0 && p.z != 0,
        axis == 1 ==> p.x != 0 && p.z != 0,
        axis == 2 ==> p.x != 0 && p.y != 0,
        face_of(g, p, shifted(p, unit(axis).0, unit(axis).1, unit(axis).2)) != FaceResult::NoFace,
    ensures
        forall|k: int| 0 <= k < 4 ==> vertex_cells(g).contains(#[trigger] quad_cell(p, axis, k)),
{
    let c0 = quad_cell(p, axis, 0);
    let c1 = quad_cell(p, axis, 1);
    let c2 = quad_cell(p, axis, 2);
    let c3 = quad_cell(p, axis, 3);
    if axis == 0 {
        lemma_vertex_cell(g, c0, 2);
        lemma_vertex_cell(g, c1, 6);
        lemma_vertex_cell(g, c2, 4);
        lemma_vertex_cell(g, c3, 7);
    } else if axis == 1 {
        lemma_vertex_cell(g, c0, 1);
        lemma_vertex_cell(g, c1, 3);
        lemma_vertex_cell(g, c2, 9);
        lemma_vertex_cell(g, c3, 10);
    } else {
        lemma_vertex_cell(g, c0, 0);
        lemma_vertex_cell(g, c1, 8);
        lemma_vertex_cell(g, c2, 5);
        lemma_vertex_cell(g, c3, 11);
    }
    assert forall|k: int| 0 <= k < 4 implies vertex_cells(g).contains(#[trigger] quad_cell(p, axis, k)) by {
        if k == 0 {
            assert(quad_cell(p, axis, k) == c0);
        } else if k == 1 {
            assert(quad_cell(p, axis, k) == c1);
        } else if k == 2 {
            assert(quad_cell(p, axis, k) == c2);
        } else {
            assert(quad_cell(p, axis, k) == c3);
        }
    }
}

} // verus!
