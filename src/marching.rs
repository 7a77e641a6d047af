//! The cube-configuration mesher ("marching cubes") on the sign grid: which
//! grid edges carry a vertex, and how the triangles use them.
use vstd::prelude::*;
use std::collections::HashMap;
use crate::grid::{corner_point, lattice_index, GridEdge, GridPoint, SignGrid};
use crate::tables::{
    edge_crosses, lemma_triangulation_table, tri_count, triangulation, triangulation_row, EDGES,
    POINTS,
};

verus! {

broadcast use vstd::std_specs::hash::group_hash_axioms;

/// An indexed mesh whose vertices are the grid edges that they lie on.
pub struct EdgeMesh {
    pub vertices: Vec<GridEdge>,
    pub indices: Vec<u32>,
}

/// Cell `i` in scan order on a grid of `n` cells per axis: `x` fastest, then
/// `y`, then `z`.
pub open spec fn cell_at(n: int, i: nat) -> (int, int, int)
    decreases i,
{
    if i == 0 {
        (0, 0, 0)
    } else {
        let c = cell_at(n, (i - 1) as nat);
        if c.0 + 1 < n {
            (c.0 + 1, c.1, c.2)
        } else if c.1 + 1 < n {
            (0, c.1 + 1, c.2)
        } else {
            (0, 0, c.2 + 1)
        }
    }
}

/// Number of cells of a grid.
pub open spec fn cell_count(g: SignGrid) -> nat {
    (g.resolution * g.resolution * g.resolution) as nat
}

/// Grid edge `edge` of cell `(x, y, z)`.
pub open spec fn cube_edge(x: int, y: int, z: int, edge: int) -> GridEdge {
    GridEdge {
        a: corner_point(x, y, z, EDGES[edge].0 as int),
        b: corner_point(x, y, z, EDGES[edge].1 as int),
    }
}

/// The triangle corners of cell `(x, y, z)`, three per triangle, as the
/// table row of its configuration lists them.
pub open spec fn cell_edges(g: SignGrid, x: int, y: int, z: int) -> Seq<GridEdge> {
    let row = triangulation_row(g.cell_config(x, y, z));
    Seq::new((3 * tri_count(row)) as nat, |k: int| cube_edge(x, y, z, row[k] as int))
}

/// The triangle corners of the first `i` cells in scan order.
pub open spec fn edges_before(g: SignGrid, i: nat) -> Seq<GridEdge>
    decreases i,
{
    if i == 0 {
        Seq::empty()
    } else {
        let c = cell_at(g.resolution as int, (i - 1) as nat);
        edges_before(g, (i - 1) as nat) + cell_edges(g, c.0, c.1, c.2)
    }
}

/// The triangle corners of the whole grid, cell after cell.
pub open spec fn flat_edges(g: SignGrid) -> Seq<GridEdge> {
    edges_before(g, cell_count(g))
}

/// The identifier of a grid edge: the sum of its two end points, which is
/// twice its midpoint. Every cell that shares the edge computes the same one.
pub open spec fn edge_key(e: GridEdge) -> (int, int, int) {
    (e.a.x + e.b.x, e.a.y + e.b.y, e.a.z + e.b.z)
}

/// Number of corners of `s` on a grid edge that no earlier corner lies on:
/// the number of distinct grid edges in `s`.
pub open spec fn first_count(s: Seq<GridEdge>) -> nat
    decreases s.len(),
{
    if s.len() == 0 {
        0
    } else {
        let prev = s.drop_last();
        first_count(prev) + if exists|j: int| 0 <= j < prev.len() && edge_key(#[trigger] prev[j]) == edge_key(s.last()) {
            0nat
        } else {
            1nat
        }
    }
}

/// The corners of `s` that lie on a grid edge no earlier corner lies on, in
/// order: one per distinct grid edge, where it first occurs.
pub open spec fn first_edges(s: Seq<GridEdge>) -> Seq<GridEdge>
    decreases s.len(),
{
    if s.len() == 0 {
        Seq::empty()
    } else {
        let prev = s.drop_last();
        if exists|j: int| 0 <= j < prev.len() && edge_key(#[trigger] prev[j]) == edge_key(s.last()) {
            first_edges(prev)
        } else {
            first_edges(prev).push(s.last())
        }
    }
}

/// Whether the edge joins an inside point to an outside one.
pub open spec fn crosses(g: SignGrid, e: GridEdge) -> bool {
    g.inside_at(e.a) != g.inside_at(e.b)
}

/// Whether both end points of the edge are lattice points of the grid.
pub open spec fn edge_in_grid(g: SignGrid, e: GridEdge) -> bool {
    g.contains(e.a) && g.contains(e.b)
}

/// Lattice point `p` moved one step along `axis` (0, 1, 2 for x, y, z).
pub open spec fn step(p: GridPoint, axis: int) -> GridPoint {
    if axis == 0 {
        GridPoint { x: (p.x + 1) as usize, y: p.y, z: p.z }
    } else if axis == 1 {
        GridPoint { x: p.x, y: (p.y + 1) as usize, z: p.z }
    } else {
        GridPoint { x: p.x, y: p.y, z: (p.z + 1) as usize }
    }
}

/// Whether the unit edge from `p` along `axis` lies in the grid and joins an
/// inside point to an outside one.
pub open spec fn crossing_unit_edge(g: SignGrid, p: GridPoint, axis: int) -> bool {
    &&& 0 <= axis < 3
    &&& g.contains(p)
    &&& g.contains(step(p, axis))
    &&& g.inside_at(p) != g.inside_at(step(p, axis))
}

/// What an indexed mesh of the grid holds: one index per triangle corner of
/// `flat_edges`, naming a vertex on the same grid edge; the vertices in
/// order of first use, one per grid edge; and a vertex on a grid edge exactly
/// when its two ends differ in sign.
pub open spec fn indexed_mesh(g: SignGrid, vertices: Seq<GridEdge>, indices: Seq<u32>) -> bool {
    &&& indices.len() == flat_edges(g).len()
    &&& vertices == first_edges(flat_edges(g))
    &&& vertices.len() == first_count(flat_edges(g))
    &&& vertices.len() <= indices.len()
    &&& forall|t: int|
        0 <= t < indices.len() ==> (#[trigger] indices[t] as int) < vertices.len() && edge_key(
            vertices[indices[t] as int],
        ) == edge_key(flat_edges(g)[t])
    &&& forall|i: int, j: int|
        0 <= i < vertices.len() && 0 <= j < vertices.len() && i != j ==> edge_key(
            #[trigger] vertices[i],
        ) != edge_key(#[trigger] vertices[j])
    &&& forall|i: int|
        0 <= i < vertices.len() ==> crosses(g, #[trigger] vertices[i]) && edge_in_grid(
            g,
            vertices[i],
        )
    &&& forall|p: GridPoint, axis: int|
        #[trigger] crossing_unit_edge(g, p, axis) ==> exists|j: int|
            0 <= j < vertices.len() && #[trigger] edge_key(vertices[j]) == edge_key(
                GridEdge { a: p, b: step(p, axis) },
            )
}

/// The number that the edge map keys an edge by.
pub open spec fn key_code(e: GridEdge) -> u64 {
    ((e.a.x + e.b.x) as u64) | (((e.a.y + e.b.y) as u64) << 16u64) | (((e.a.z + e.b.z) as u64)
        << 32u64)
}

proof fn lemma_pack_injective(a1: u64, b1: u64, c1: u64, a2: u64, b2: u64, c2: u64)
    requires
        a1 < 0x10000,
        b1 < 0x10000,
        c1 < 0x10000,
        a2 < 0x10000,
        b2 < 0x10000,
        c2 < 0x10000,
        a1 | (b1 << 16u64) | (c1 << 32u64) == a2 | (b2 << 16u64) | (c2 << 32u64),
    ensures
        a1 == a2 && b1 == b2 && c1 == c2,
{
    assert(a1 == a2 && b1 == b2 && c1 == c2) by (bit_vector)
        requires
            a1 < 0x10000,
            b1 < 0x10000,
            c1 < 0x10000,
            a2 < 0x10000,
            b2 < 0x10000,
            c2 < 0x10000,
            a1 | (b1 << 16u64) | (c1 << 32u64) == a2 | (b2 << 16u64) | (c2 << 32u64),
    ;
}

/// On a grid, two edges with the same code have the same identifier.
proof fn lemma_key_code(g: SignGrid, e1: GridEdge, e2: GridEdge)
    requires
        g.wf(),
        edge_in_grid(g, e1),
        edge_in_grid(g, e2),
        key_code(e1) == key_code(e2),
    ensures
        edge_key(e1) == edge_key(e2),
{
    lemma_pack_injective(
        (e1.a.x + e1.b.x) as u64,
        (e1.a.y + e1.b.y) as u64,
        (e1.a.z + e1.b.z) as u64,
        (e2.a.x + e2.b.x) as u64,
        (e2.a.y + e2.b.y) as u64,
        (e2.a.z + e2.b.z) as u64,
    );
}

pub(crate) proof fn lemma_cell_at(n: int, i: nat)
    requires
        n >= 1,
    ensures
        0 <= cell_at(n, i).0 < n,
        0 <= cell_at(n, i).1 < n,
        0 <= cell_at(n, i).2,
        cell_at(n, i).0 + n * cell_at(n, i).1 + n * n * cell_at(n, i).2 == i,
    decreases i,
{
    if i > 0 {
        lemma_cell_at(n, (i - 1) as nat);
        let c = cell_at(n, (i - 1) as nat);
        let d = cell_at(n, i);
        let j = (i - 1) as nat;
        assert(c.0 + n * c.1 + n * n * c.2 == j);
        assert(i == j + 1);
        if c.0 + 1 < n {
            assert(d == (c.0 + 1, c.1, c.2));
        } else if c.1 + 1 < n {
            assert(d == (0int, c.1 + 1, c.2));
            assert(d.0 + n * d.1 + n * n * d.2 == i) by (nonlinear_arith)
                requires
                    d.0 == 0,
                    d.1 == c.1 + 1,
                    d.2 == c.2,
                    c.0 + 1 == n,
                    c.0 + n * c.1 + n * n * c.2 == j,
                    i == j + 1,
            ;
        } else {
            assert(d == (0int, 0int, c.2 + 1));
            assert(d.0 + n * d.1 + n * n * d.2 == i) by (nonlinear_arith)
                requires
                    d.0 == 0,
                    d.1 == 0,
                    d.2 == c.2 + 1,
                    c.0 + 1 == n,
                    c.1 + 1 == n,
                    c.0 + n * c.1 + n * n * c.2 == j,
                    i == j + 1,
            ;
        }
    } else {
        assert(n * 0 == 0);
        assert(n * n * 0 == 0);
    }
}

pub(crate) proof fn lemma_cell_in_range(n: int, i: nat)
    requires
        n >= 1,
        i < n * n * n,
    ensures
        0 <= cell_at(n, i).0 < n,
        0 <= cell_at(n, i).1 < n,
        0 <= cell_at(n, i).2 < n,
{
    lemma_cell_at(n, i);
    let c = cell_at(n, i);
    assert(n * n * c.2 <= i) by (nonlinear_arith)
        requires
            c.0 >= 0,
            c.1 >= 0,
            n >= 1,
            c.0 + n * c.1 + n * n * c.2 == i,
    ;
    assert(c.2 < n) by (nonlinear_arith)
        requires
            n * n * c.2 < n * n * n,
            n >= 1,
    ;
}

/// Every triangle corner of a cell lies on a crossing edge of the grid.
proof fn lemma_cell_edges_cross(g: SignGrid, x: int, y: int, z: int)
    requires
        g.wf(),
        0 <= x < g.resolution,
        0 <= y < g.resolution,
        0 <= z < g.resolution,
    ensures
        forall|k: int|
            0 <= k < cell_edges(g, x, y, z).len() ==> crosses(
                g,
                #[trigger] cell_edges(g, x, y, z)[k],
            ) && edge_in_grid(g, cell_edges(g, x, y, z)[k]),
{
    let config = g.cell_config(x, y, z);
    g.lemma_config_corners(x, y, z, 0);
    lemma_triangulation_table(config);
    let row = triangulation_row(config);
    assert forall|k: int| 0 <= k < cell_edges(g, x, y, z).len() implies crosses(
        g,
        #[trigger] cell_edges(g, x, y, z)[k],
    ) && edge_in_grid(g, cell_edges(g, x, y, z)[k]) by {
        let e = row[k] as int;
        assert(0 <= e < 12);
        g.lemma_config_corners(x, y, z, EDGES[e].0 as int);
        g.lemma_config_corners(x, y, z, EDGES[e].1 as int);
    }
}

/// Every triangle corner of the grid lies on a crossing edge.
pub proof fn lemma_flat_edges_cross(g: SignGrid, i: nat)
    requires
        g.wf(),
        i <= cell_count(g),
    ensures
        forall|t: int|
            0 <= t < edges_before(g, i).len() ==> crosses(g, #[trigger] edges_before(g, i)[t])
                && edge_in_grid(g, edges_before(g, i)[t]),
    decreases i,
{
    if i > 0 {
        let n = g.resolution as int;
        lemma_flat_edges_cross(g, (i - 1) as nat);
        lemma_cell_in_range(n, (i - 1) as nat);
        let c = cell_at(n, (i - 1) as nat);
        lemma_cell_edges_cross(g, c.0, c.1, c.2);
        let s = edges_before(g, (i - 1) as nat);
        let d = cell_edges(g, c.0, c.1, c.2);
        assert forall|t: int| 0 <= t < edges_before(g, i).len() implies crosses(
            g,
            #[trigger] edges_before(g, i)[t],
        ) && edge_in_grid(g, edges_before(g, i)[t]) by {
            if t >= s.len() {
                assert(edges_before(g, i)[t] == d[t - s.len()]);
            }
        }
    }
}

/// Grid edge `edge` of cell `(x, y, z)`.
fn cube_edge_at(x: usize, y: usize, z: usize, edge: usize) -> (r: GridEdge)
    requires
        edge < 12,
        x < 1024,
        y < 1024,
        z < 1024,
    ensures
        r == cube_edge(x as int, y as int, z as int, edge as int),
{
    let (c0, c1) = EDGES[edge];
    let (x0, y0, z0) = POINTS[c0];
    let (x1, y1, z1) = POINTS[c1];
    GridEdge {
        a: GridPoint { x: x + x0, y: y + y0, z: z + z0 },
        b: GridPoint { x: x + x1, y: y + y1, z: z + z1 },
    }
}

/// Appends the triangle corners of cell `(x, y, z)`.
fn cell_crossings(g: &SignGrid, x: usize, y: usize, z: usize, out: &mut Vec<GridEdge>)
    requires
        g.wf(),
        x < g.resolution,
        y < g.resolution,
        z < g.resolution,
    ensures
        final(out)@ == old(out)@ + cell_edges(*g, x as int, y as int, z as int),
{
    let config = g.configuration(x, y, z);
    let row = triangulation(config);
    proof {
        lemma_triangulation_table(config as int);
    }
    let ghost cells = cell_edges(*g, x as int, y as int, z as int);
    let mut k: usize = 0;
    while k < 15 && row[k] >= 0
        invariant
            g.wf(),
            x < g.resolution,
            y < g.resolution,
            z < g.resolution,
            row == triangulation_row(config as int),
            config as int == g.cell_config(x as int, y as int, z as int),
            cells == cell_edges(*g, x as int, y as int, z as int),
            0 <= k <= 3 * tri_count(row),
            tri_count(row) <= 5,
            forall|j: int| 3 * tri_count(row) <= j < 15 ==> #[trigger] row[j] == -1,
            forall|j: int| 0 <= j < 3 * tri_count(row) ==> 0 <= #[trigger] row[j] < 12,
            out@ == old(out)@ + cells.take(k as int),
        decreases 15 - k,
    {
        let e = cube_edge_at(x, y, z, row[k] as usize);
        out.push(e);
        proof {
            assert(cells.take(k as int).push(e) =~= cells.take(k + 1));
        }
        k = k + 1;
    }
    proof {
        assert(cells.take(k as int) =~= cells);
    }
}

/// Whether some index names vertex `j`.
spec fn used(indices: Seq<u32>, j: int) -> bool {
    exists|t: int| 0 <= t < indices.len() && #[trigger] indices[t] == j
}

/// The invariant of the edge map while the indexed mesh is built from the
/// triangle corners `seen`.
spec fn dedup_inv(
    g: SignGrid,
    seen: Seq<GridEdge>,
    vertices: Seq<GridEdge>,
    indices: Seq<u32>,
    map: Map<u64, u32>,
) -> bool {
    &&& indices.len() == seen.len()
    &&& vertices == first_edges(seen)
    &&& vertices.len() == first_count(seen)
    &&& vertices.len() <= indices.len()
    &&& forall|j: int| 0 <= j < vertices.len() ==> #[trigger] used(indices, j)
    &&& forall|t: int|
        0 <= t < indices.len() ==> (#[trigger] indices[t] as int) < vertices.len() && edge_key(
            vertices[indices[t] as int],
        ) == edge_key(seen[t])
    &&& forall|j: int|
        0 <= j < vertices.len() ==> map.contains_key(key_code(#[trigger] vertices[j])) && map[key_code(
            vertices[j],
        )] == j && crosses(g, vertices[j]) && edge_in_grid(g, vertices[j])
    &&& forall|k: u64|
        #[trigger] map.contains_key(k) ==> (map[k] as int) < vertices.len() && key_code(
            vertices[map[k] as int],
        ) == k
}

/// Code of an edge whose end points lie on a grid.
fn edge_code(e: &GridEdge) -> (r: u64)
    requires
        e.a.x <= 1024 && e.a.y <= 1024 && e.a.z <= 1024,
        e.b.x <= 1024 && e.b.y <= 1024 && e.b.z <= 1024,
    ensures
        r == key_code(*e),
{
    ((e.a.x + e.b.x) as u64) | (((e.a.y + e.b.y) as u64) << 16u64) | (((e.a.z + e.b.z) as u64)
        << 32u64)
}

/// Adds one triangle corner on edge `e`: reuses the vertex of that edge if
/// there is one, else adds it.
fn dedup_push(
    g: &SignGrid,
    e: GridEdge,
    vertices: &mut Vec<GridEdge>,
    indices: &mut Vec<u32>,
    map: &mut HashMap<u64, u32>,
    Ghost(seen): Ghost<Seq<GridEdge>>,
)
    requires
        g.wf(),
        dedup_inv(*g, seen, old(vertices)@, old(indices)@, old(map)@),
        crosses(*g, e),
        edge_in_grid(*g, e),
        old(indices)@.len() < 0xffff_ffff,
    ensures
        dedup_inv(*g, seen.push(e), final(vertices)@, final(indices)@, final(map)@),
{
    let code = edge_code(&e);
    let found: Option<u32> = match map.get(&code) {
        Some(v) => Some(*v),
        None => None,
    };
    match found {
        Some(v) => {
            proof {
                lemma_key_code(*g, vertices@[v as int], e);
                assert(used(old(indices)@, v as int));
                let t0 = choose|t: int| 0 <= t < old(indices)@.len() && old(indices)@[t] == v;
                assert(edge_key(seen[t0]) == edge_key(e));
                let sp = seen.push(e);
                assert(sp.drop_last() =~= seen);
                assert(seen[t0] == sp.drop_last()[t0]);
            }
            indices.push(v);
            proof {
                assert forall|j: int| 0 <= j < vertices@.len() implies #[trigger] used(indices@, j) by {
                    assert(used(old(indices)@, j));
                    let t1 = choose|t: int| 0 <= t < old(indices)@.len() && old(indices)@[t] == j;
                    assert(indices@[t1] == j);
                }
                assert forall|t: int| 0 <= t < indices@.len() implies (#[trigger] indices@[t] as int)
                    < vertices@.len() && edge_key(vertices@[indices@[t] as int]) == edge_key(
                    seen.push(e)[t],
                ) by {
                    if t < seen.len() {
                        assert(indices@[t] == old(indices)@[t]);
                    }
                }
            }
        },
        None => {
            proof {
                let sp = seen.push(e);
                assert(sp.drop_last() =~= seen);
                if exists|j: int| 0 <= j < seen.len() && edge_key(#[trigger] seen[j]) == edge_key(e) {
                    let j = choose|j: int| 0 <= j < seen.len() && edge_key(#[trigger] seen[j]) == edge_key(e);
                    let w = old(vertices)@[old(indices)@[j] as int];
                    assert(key_code(w) == code);
                    assert(old(map)@.contains_key(key_code(w)));
                }
            }
            let n: u32 = vertices.len() as u32;
            indices.push(n);
            map.insert(code, n);
            vertices.push(e);
            proof {
                let vs = vertices@;
                assert forall|j: int| 0 <= j < vs.len() implies #[trigger] used(indices@, j) by {
                    if j == vs.len() - 1 {
                        assert(indices@[indices@.len() - 1] == j);
                    } else {
                        assert(used(old(indices)@, j));
                        let t1 = choose|t: int| 0 <= t < old(indices)@.len() && old(indices)@[t] == j;
                        assert(indices@[t1] == j);
                    }
                }
                assert forall|t: int| 0 <= t < indices@.len() implies (#[trigger] indices@[t] as int)
                    < vs.len() && edge_key(vs[indices@[t] as int]) == edge_key(seen.push(e)[t]) by {
                    if t < seen.len() {
                        assert(indices@[t] == old(indices)@[t]);
                        assert(vs[indices@[t] as int] == old(vertices)@[indices@[t] as int]);
                    }
                }
                assert forall|j: int| 0 <= j < vs.len() implies map@.contains_key(
                    key_code(#[trigger] vs[j]),
                ) && map@[key_code(vs[j])] == j && crosses(*g, vs[j]) && edge_in_grid(*g, vs[j]) by {
                    if j < vs.len() - 1 {
                        assert(vs[j] == old(vertices)@[j]);
                        assert(key_code(vs[j]) != code);
                    }
                }
                assert forall|k: u64| #[trigger] map@.contains_key(k) implies (map@[k] as int)
                    < vs.len() && key_code(vs[map@[k] as int]) == k by {
                    if k != code {
                        assert(old(map)@.contains_key(k));
                        assert(vs[map@[k] as int] == old(vertices)@[map@[k] as int]);
                    }
                }
            }
        },
    }
}

/// Adds the triangles of cell `(x, y, z)` to an indexed mesh.
fn march_cube(
    g: &SignGrid,
    x: usize,
    y: usize,
    z: usize,
    vertices: &mut Vec<GridEdge>,
    indices: &mut Vec<u32>,
    map: &mut HashMap<u64, u32>,
    Ghost(seen): Ghost<Seq<GridEdge>>,
)
    requires
        g.wf(),
        x < g.resolution,
        y < g.resolution,
        z < g.resolution,
        dedup_inv(*g, seen, old(vertices)@, old(indices)@, old(map)@),
        old(indices)@.len() + 15 < 0xffff_ffff,
    ensures
        dedup_inv(
            *g,
            seen + cell_edges(*g, x as int, y as int, z as int),
            final(vertices)@,
            final(indices)@,
            final(map)@,
        ),
        final(indices)@.len() <= old(indices)@.len() + 15,
{
    let config = g.configuration(x, y, z);
    let row = triangulation(config);
    proof {
        lemma_triangulation_table(config as int);
        lemma_cell_edges_cross(*g, x as int, y as int, z as int);
    }
    let ghost cells = cell_edges(*g, x as int, y as int, z as int);
    let mut k: usize = 0;
    while k < 15 && row[k] >= 0
        invariant
            g.wf(),
            x < g.resolution,
            y < g.resolution,
            z < g.resolution,
            row == triangulation_row(config as int),
            config as int == g.cell_config(x as int, y as int, z as int),
            cells == cell_edges(*g, x as int, y as int, z as int),
            forall|j: int|
                0 <= j < cells.len() ==> crosses(*g, #[trigger] cells[j]) && edge_in_grid(
                    *g,
                    cells[j],
                ),
            0 <= k <= 3 * tri_count(row),
            tri_count(row) <= 5,
            forall|j: int| 3 * tri_count(row) <= j < 15 ==> #[trigger] row[j] == -1,
            forall|j: int| 0 <= j < 3 * tri_count(row) ==> 0 <= #[trigger] row[j] < 12,
            dedup_inv(*g, seen + cells.take(k as int), vertices@, indices@, map@),
            indices@.len() == old(indices)@.len() + k,
            old(indices)@.len() + 15 < 0xffff_ffff,
        decreases 15 - k,
    {
        let e = cube_edge_at(x, y, z, row[k] as usize);
        assert(e == cells[k as int]);
        dedup_push(g, e, vertices, indices, map, Ghost(seen + cells.take(k as int)));
        proof {
            assert((seen + cells.take(k as int)).push(e) =~= seen + cells.take(k + 1));
        }
        k = k + 1;
    }
    proof {
        assert(cells.take(k as int) =~= cells);
    }
}

/// Steps one cell forward in scan order.
pub(crate) proof fn lemma_cell_step(n: int, i: nat)
    requires
        n >= 1,
    ensures
        cell_at(n, i + 1) == (if cell_at(n, i).0 + 1 < n {
            (cell_at(n, i).0 + 1, cell_at(n, i).1, cell_at(n, i).2)
        } else if cell_at(n, i).1 + 1 < n {
            (0, cell_at(n, i).1 + 1, cell_at(n, i).2)
        } else {
            (0, 0, cell_at(n, i).2 + 1)
        }),
{
    assert(((i + 1) - 1) as nat == i);
}

/// Builds the indexed mesh of the grid: cells in scan order, the triangles of
/// each from the table, one shared vertex per crossing grid edge.
#[verifier::rlimit(30)]
pub fn mesh_indexed(g: &SignGrid) -> (r: EdgeMesh)
    requires
        g.wf(),
    ensures
        indexed_mesh(*g, r.vertices@, r.indices@),
{
    let n: usize = g.resolution;
    assert(n * n <= 512 * 512) by (nonlinear_arith)
        requires
            n <= 512,
    ;
    assert(n * n * n <= 512 * 512 * 512) by (nonlinear_arith)
        requires
            n <= 512,
            n * n <= 512 * 512,
    ;
    let total: usize = n * n * n;
    let mut vertices: Vec<GridEdge> = Vec::new();
    let mut indices: Vec<u32> = Vec::new();
    let mut map: HashMap<u64, u32> = HashMap::new();
    let mut x: usize = 0;
    let mut y: usize = 0;
    let mut z: usize = 0;
    let mut i: usize = 0;
    proof {
        assert(map@ =~= Map::<u64, u32>::empty());
    }
    while i < total
        invariant
            g.wf(),
            n == g.resolution,
            total == n * n * n,
            total <= 512 * 512 * 512,
            i <= total,
            i < total ==> (x as int, y as int, z as int) == cell_at(n as int, i as nat),
            dedup_inv(*g, edges_before(*g, i as nat), vertices@, indices@, map@),
            indices@.len() <= 15 * i,
        decreases total - i,
    {
        proof {
            lemma_cell_in_range(n as int, i as nat);
        }
        march_cube(
            g,
            x,
            y,
            z,
            &mut vertices,
            &mut indices,
            &mut map,
            Ghost(edges_before(*g, i as nat)),
        );
        proof {
            lemma_cell_step(n as int, i as nat);
        }
        x = x + 1;
        if x == n {
            x = 0;
            y = y + 1;
            if y == n {
                y = 0;
                z = z + 1;
            }
        }
        i = i + 1;
    }
    proof {
        let vs = vertices@;
        assert forall|a: int, b: int|
            0 <= a < vs.len() && 0 <= b < vs.len() && a != b implies edge_key(#[trigger] vs[a])
            != edge_key(#[trigger] vs[b]) by {
            if edge_key(vs[a]) == edge_key(vs[b]) {
                assert(key_code(vs[a]) == key_code(vs[b]));
            }
        }
        let ids = indices@;
        assert forall|p: GridPoint, axis: int| #[trigger] crossing_unit_edge(*g, p, axis) implies exists|j: int|
            0 <= j < vs.len() && #[trigger] edge_key(vs[j]) == edge_key(
                GridEdge { a: p, b: step(p, axis) },
            ) by {
            lemma_crossing_edge_in_flat(*g, p, axis);
            let t = choose|t: int|
                0 <= t < flat_edges(*g).len() && #[trigger] edge_key(flat_edges(*g)[t]) == edge_key(
                    GridEdge { a: p, b: step(p, axis) },
                );
            assert(edge_key(vs[ids[t] as int]) == edge_key(flat_edges(*g)[t]));
        }
    }
    EdgeMesh { vertices, indices }
}

/// Lists the triangle corners of the grid with no shared vertices: three
/// consecutive edges per triangle, cells in scan order.
pub fn mesh_flat(g: &SignGrid) -> (r: Vec<GridEdge>)
    requires
        g.wf(),
    ensures
        r@ == flat_edges(*g),
        r@.len() % 3 == 0,
        forall|t: int| 0 <= t < r@.len() ==> crosses(*g, #[trigger] r@[t]) && edge_in_grid(*g, r@[t]),
{
    let n: usize = g.resolution;
    assert(n * n <= 512 * 512) by (nonlinear_arith)
        requires
            n <= 512,
    ;
    assert(n * n * n <= 512 * 512 * 512) by (nonlinear_arith)
        requires
            n <= 512,
            n * n <= 512 * 512,
    ;
    let total: usize = n * n * n;
    let mut out: Vec<GridEdge> = Vec::new();
    let mut x: usize = 0;
    let mut y: usize = 0;
    let mut z: usize = 0;
    let mut i: usize = 0;
    while i < total
        invariant
            g.wf(),
            n == g.resolution,
            total == n * n * n,
            i <= total,
            i < total ==> (x as int, y as int, z as int) == cell_at(n as int, i as nat),
            out@ == edges_before(*g, i as nat),
            out@.len() % 3 == 0,
        decreases total - i,
    {
        proof {
            lemma_cell_in_range(n as int, i as nat);
            lemma_triangulation_table(g.cell_config(x as int, y as int, z as int));
        }
        cell_crossings(g, x, y, z, &mut out);
        proof {
            lemma_cell_step(n as int, i as nat);
        }
        x = x + 1;
        if x == n {
            x = 0;
            y = y + 1;
            if y == n {
                y = 0;
                z = z + 1;
            }
        }
        i = i + 1;
    }
    proof {
        lemma_flat_edges_cross(*g, cell_count(*g));
    }
    out
}

/// Lists the triangle corners of each cell on its own, cells in scan order.
pub fn mesh_disjointed(g: &SignGrid) -> (r: Vec<Vec<GridEdge>>)
    requires
        g.wf(),
    ensures
        r@.len() == cell_count(*g),
        forall|i: int|
            0 <= i < r@.len() ==> (#[trigger] r@[i])@ == cell_edges(
                *g,
                cell_at(g.resolution as int, i as nat).0,
                cell_at(g.resolution as int, i as nat).1,
                cell_at(g.resolution as int, i as nat).2,
            ),
        forall|i: int|
            0 <= i < r@.len() ==> {
                let c = cell_at(g.resolution as int, i as nat);
                &&& (g.corners_agree(c.0, c.1, c.2) <==> (#[trigger] r@[i])@.len() == 0)
                &&& (!g.corners_agree(c.0, c.1, c.2) ==> r@[i]@.len() >= 3)
            },
{
    let n: usize = g.resolution;
    assert(n * n <= 512 * 512) by (nonlinear_arith)
        requires
            n <= 512,
    ;
    assert(n * n * n <= 512 * 512 * 512) by (nonlinear_arith)
        requires
            n <= 512,
            n * n <= 512 * 512,
    ;
    let total: usize = n * n * n;
    let mut meshes: Vec<Vec<GridEdge>> = Vec::new();
    let mut x: usize = 0;
    let mut y: usize = 0;
    let mut z: usize = 0;
    let mut i: usize = 0;
    while i < total
        invariant
            g.wf(),
            n == g.resolution,
            total == n * n * n,
            i <= total,
            i < total ==> (x as int, y as int, z as int) == cell_at(n as int, i as nat),
            meshes@.len() == i,
            forall|j: int|
                0 <= j < i ==> (#[trigger] meshes@[j])@ == cell_edges(
                    *g,
                    cell_at(n as int, j as nat).0,
                    cell_at(n as int, j as nat).1,
                    cell_at(n as int, j as nat).2,
                ),
            forall|j: int|
                0 <= j < i ==> {
                    let c = cell_at(n as int, j as nat);
                    &&& (g.corners_agree(c.0, c.1, c.2) <==> (#[trigger] meshes@[j])@.len() == 0)
                    &&& (!g.corners_agree(c.0, c.1, c.2) ==> meshes@[j]@.len() >= 3)
                },
        decreases total - i,
    {
        proof {
            lemma_cell_in_range(n as int, i as nat);
            lemma_mixed_cell_edges(*g, x as int, y as int, z as int);
        }
        let mut cell: Vec<GridEdge> = Vec::new();
        cell_crossings(g, x, y, z, &mut cell);
        assert(cell@ =~= cell_edges(*g, x as int, y as int, z as int));
        meshes.push(cell);
        proof {
            lemma_cell_step(n as int, i as nat);
        }
        x = x + 1;
        if x == n {
            x = 0;
            y = y + 1;
            if y == n {
                y = 0;
                z = z + 1;
            }
        }
        i = i + 1;
    }
    meshes
}

proof fn lemma_first_count_le(q: Seq<GridEdge>)
    ensures
        first_count(q) <= q.len(),
    decreases q.len(),
{
    if q.len() > 0 {
        lemma_first_count_le(q.drop_last());
    }
}

proof fn lemma_first_count_dup(q: Seq<GridEdge>, s: int, t: int)
    requires
        0 <= s < t < q.len(),
        edge_key(q[s]) == edge_key(q[t]),
    ensures
        first_count(q) < q.len(),
    decreases q.len(),
{
    let prev = q.drop_last();
    lemma_first_count_le(prev);
    if t == q.len() - 1 {
        assert(edge_key(prev[s]) == edge_key(q.last()));
    } else {
        assert(prev[s] == q[s] && prev[t] == q[t]);
        lemma_first_count_dup(prev, s, t);
    }
}

/// Where two triangle corners of the grid lie on one grid edge (two cells
/// sharing it), the indexed mesh has fewer vertices than the flat list has
/// corners.
pub proof fn lemma_shared_edge_fewer_vertices(
    g: SignGrid,
    vertices: Seq<GridEdge>,
    indices: Seq<u32>,
    s: int,
    t: int,
)
    requires
        indexed_mesh(g, vertices, indices),
        0 <= s < t < flat_edges(g).len(),
        edge_key(flat_edges(g)[s]) == edge_key(flat_edges(g)[t]),
    ensures
        vertices.len() < flat_edges(g).len(),
{
    lemma_first_count_dup(flat_edges(g), s, t);
}

/// The indexed mesh of a grid is determined by the grid: two builds of it
/// agree in every vertex and every index.
pub proof fn lemma_indexed_mesh_unique(
    g: SignGrid,
    v1: Seq<GridEdge>,
    i1: Seq<u32>,
    v2: Seq<GridEdge>,
    i2: Seq<u32>,
)
    requires
        indexed_mesh(g, v1, i1),
        indexed_mesh(g, v2, i2),
    ensures
        v1 == v2,
        i1 == i2,
{
    assert forall|t: int| 0 <= t < i1.len() implies i1[t] == i2[t] by {
        assert(edge_key(v1[i1[t] as int]) == edge_key(flat_edges(g)[t]));
        assert(edge_key(v2[i2[t] as int]) == edge_key(flat_edges(g)[t]));
    }
    assert(i1 =~= i2);
}

/// Watertightness: wherever two triangle corners of the grid lie on the same
/// grid edge (two cells sharing it), the indexed mesh gives them one and the
/// same vertex.
pub proof fn lemma_shared_edge_one_vertex(
    g: SignGrid,
    vertices: Seq<GridEdge>,
    indices: Seq<u32>,
    s: int,
    t: int,
)
    requires
        indexed_mesh(g, vertices, indices),
        0 <= s < flat_edges(g).len(),
        0 <= t < flat_edges(g).len(),
        edge_key(flat_edges(g)[s]) == edge_key(flat_edges(g)[t]),
    ensures
        indices[s] == indices[t],
{
    assert(edge_key(vertices[indices[s] as int]) == edge_key(vertices[indices[t] as int]));
}

pub(crate) proof fn lemma_radix(n: int, a: int, b: int, c: int, a2: int, b2: int, c2: int)
    requires
        0 <= a < n,
        0 <= b < n,
        0 <= c,
        0 <= a2 < n,
        0 <= b2 < n,
        0 <= c2,
        a + n * b + n * n * c == a2 + n * b2 + n * n * c2,
    ensures
        a == a2 && b == b2 && c == c2,
{
    assert(0 <= a + n * b < n * n && 0 <= a2 + n * b2 < n * n) by (nonlinear_arith)
        requires
            0 <= a < n,
            0 <= b < n,
            0 <= a2 < n,
            0 <= b2 < n,
    ;
    assert(c == c2) by (nonlinear_arith)
        requires
            0 <= a + n * b < n * n,
            0 <= a2 + n * b2 < n * n,
            a + n * b + n * n * c == a2 + n * b2 + n * n * c2,
            0 <= c,
            0 <= c2,
    ;
    assert(n * n * c == n * n * c2);
    assert(b == b2) by (nonlinear_arith)
        requires
            0 <= a < n,
            0 <= a2 < n,
            a + n * b == a2 + n * b2,
    ;
}

/// Cell `(x, y, z)` comes in the scan at its linear index.
pub(crate) proof fn lemma_cell_index(n: int, x: int, y: int, z: int)
    requires
        0 <= x < n,
        0 <= y < n,
        0 <= z < n,
    ensures
        0 <= lattice_index(n, x, y, z) < n * n * n,
        cell_at(n, lattice_index(n, x, y, z) as nat) == (x, y, z),
{
    crate::grid::lemma_index_bound(n, x, y, z);
    let l = lattice_index(n, x, y, z) as nat;
    lemma_cell_at(n, l);
    lemma_cell_in_range(n, l);
    let d = cell_at(n, l);
    lemma_radix(n, d.0, d.1, d.2, x, y, z);
}

/// The corners of the first `i` cells come first among those of the first
/// `m` cells.
proof fn lemma_edges_before_prefix(g: SignGrid, i: nat, m: nat)
    requires
        i <= m,
    ensures
        edges_before(g, i).len() <= edges_before(g, m).len(),
        forall|t: int|
            0 <= t < edges_before(g, i).len() ==> #[trigger] edges_before(g, m)[t] == edges_before(
                g,
                i,
            )[t],
    decreases m,
{
    if i < m {
        lemma_edges_before_prefix(g, i, (m - 1) as nat);
        let prev = edges_before(g, (m - 1) as nat);
        assert forall|t: int| 0 <= t < edges_before(g, i).len() implies #[trigger] edges_before(
            g,
            m,
        )[t] == edges_before(g, i)[t] by {
            assert(edges_before(g, m)[t] == prev[t]);
        }
    }
}

/// The cube edge joining the corners at offsets `d` and `d + step(axis)`.
spec fn local_edge(axis: int, d: (int, int, int)) -> int {
    if axis == 0 {
        if d.1 == 0 {
            if d.2 == 0 { 3 } else { 1 }
        } else {
            if d.2 == 0 { 7 } else { 5 }
        }
    } else if axis == 1 {
        if d.0 == 0 {
            if d.2 == 0 { 8 } else { 9 }
        } else {
            if d.2 == 0 { 11 } else { 10 }
        }
    } else {
        if d.0 == 0 {
            if d.1 == 0 { 0 } else { 4 }
        } else {
            if d.1 == 0 { 2 } else { 6 }
        }
    }
}

/// The cube edge `local_edge` of cell `(cx, cy, cz)` is the unit edge from
/// `p` along `axis`.
#[verifier::spinoff_prover]
#[verifier::rlimit(50)]
proof fn lemma_local_edge(p: GridPoint, axis: int, cx: int, cy: int, cz: int)
    requires
        0 <= axis < 3,
        0 <= cx <= p.x <= cx + 1,
        0 <= cy <= p.y <= cy + 1,
        0 <= cz <= p.z <= cz + 1,
        p.x < 1024 && p.y < 1024 && p.z < 1024,
        axis == 0 ==> p.x == cx,
        axis == 1 ==> p.y == cy,
        axis == 2 ==> p.z == cz,
    ensures
        ({
            let e = local_edge(axis, (p.x - cx, p.y - cy, p.z - cz));
            let ce = cube_edge(cx, cy, cz, e);
            &&& 0 <= e < 12
            &&& ((ce.a == p && ce.b == step(p, axis)) || (ce.a == step(p, axis) && ce.b == p))
        }),
{
    if axis == 0 {
        if p.y == cy {
            if p.z == cz {
            } else {
            }
        } else {
            if p.z == cz {
            } else {
            }
        }
    } else if axis == 1 {
        if p.x == cx {
            if p.z == cz {
            } else {
            }
        } else {
            if p.z == cz {
            } else {
            }
        }
    } else {
        if p.x == cx {
            if p.y == cy {
            } else {
            }
        } else {
            if p.y == cy {
            } else {
            }
        }
    }
}

/// A crossing unit edge of the grid is a triangle corner of the grid.
#[verifier::spinoff_prover]
#[verifier::rlimit(50)]
proof fn lemma_crossing_edge_in_flat(g: SignGrid, p: GridPoint, axis: int)
    requires
        g.wf(),
        crossing_unit_edge(g, p, axis),
    ensures
        exists|t: int|
            0 <= t < flat_edges(g).len() && #[trigger] edge_key(flat_edges(g)[t]) == edge_key(
                GridEdge { a: p, b: step(p, axis) },
            ),
{
    let n = g.resolution as int;
    let q = step(p, axis);
    let cx = if p.x < n { p.x as int } else { n - 1 };
    let cy = if p.y < n { p.y as int } else { n - 1 };
    let cz = if p.z < n { p.z as int } else { n - 1 };
    let d = (p.x - cx, p.y - cy, p.z - cz);
    let e = local_edge(axis, d);
    let c0 = EDGES[e].0 as int;
    let c1 = EDGES[e].1 as int;
    let config = g.cell_config(cx, cy, cz);
    lemma_local_edge(p, axis, cx, cy, cz);
    g.lemma_config_corners(cx, cy, cz, c0);
    g.lemma_config_corners(cx, cy, cz, c1);
    let ce = cube_edge(cx, cy, cz, e);
    assert((ce.a == p && ce.b == q) || (ce.a == q && ce.b == p));
    assert(edge_key(ce) == edge_key(GridEdge { a: p, b: q }));
    assert(edge_crosses(config, e));
    lemma_triangulation_table(config);
    let row = triangulation_row(config);
    let k = choose|k: int| 0 <= k < 3 * tri_count(row) && #[trigger] row[k] as int == e;
    assert(cell_edges(g, cx, cy, cz)[k] == ce);
    lemma_cell_index(n, cx, cy, cz);
    let i = lattice_index(n, cx, cy, cz) as nat;
    assert(edges_before(g, i + 1) == edges_before(g, i) + cell_edges(g, cx, cy, cz));
    let t = edges_before(g, i).len() + k;
    assert(edges_before(g, i + 1)[t] == ce);
    lemma_edges_before_prefix(g, i + 1, cell_count(g));
    assert(flat_edges(g)[t] == ce);
}

/// A cell's triangle corners are none exactly when its corners agree, and at
/// least one triangle otherwise.
pub proof fn lemma_mixed_cell_edges(g: SignGrid, x: int, y: int, z: int)
    requires
        g.wf(),
        0 <= x < g.resolution,
        0 <= y < g.resolution,
        0 <= z < g.resolution,
    ensures
        g.corners_agree(x, y, z) <==> cell_edges(g, x, y, z).len() == 0,
        !g.corners_agree(x, y, z) ==> cell_edges(g, x, y, z).len() >= 3,
{
    let config = g.cell_config(x, y, z);
    g.lemma_config_corners(x, y, z, 0);
    lemma_triangulation_table(config);
    let row = triangulation_row(config);
    if g.corners_agree(x, y, z) && tri_count(row) > 0 {
        assert(edge_crosses(config, row[0] as int));
    }
}

} // verus!
